use vstd::prelude::*;
use crate::types::{Command, CommandView};
use crate::strutil::str_eq;

verus! {

/// Name lookup over a catalog, the latest entry taking precedence.
pub open spec fn lookup(cmds: Seq<CommandView>, name: Seq<char>) -> Option<CommandView>
    decreases cmds.len(),
{
    if cmds.len() == 0 {
        None
    } else if cmds.last().name == name {
        Some(cmds.last())
    } else {
        lookup(cmds.drop_last(), name)
    }
}

/// Whether some entry of the catalog bears this name.
pub open spec fn has_name(cmds: Seq<CommandView>, name: Seq<char>) -> bool {
    exists|i: int| 0 <= i < cmds.len() && cmds[i].name == name
}

/// The position of the entry bearing this name; meaningful when the catalog
/// has distinct names and `has_name` holds.
pub open spec fn name_index(cmds: Seq<CommandView>, name: Seq<char>) -> int {
    choose|i: int| 0 <= i < cmds.len() && cmds[i].name == name
}

/// All entries bear distinct names.
pub open spec fn distinct_names(cmds: Seq<CommandView>) -> bool {
    forall|i: int, j: int| 0 <= i < j < cmds.len() ==> cmds[i].name != cmds[j].name
}

/// What inserting one command does to the catalog: the entry previously
/// bearing the same name, if any, is dropped, and the new command is
/// appended, so that the later load wins.
pub open spec fn spec_insert(cmds: Seq<CommandView>, c: CommandView) -> Seq<CommandView> {
    if has_name(cmds, c.name) {
        cmds.remove(name_index(cmds, c.name)).push(c)
    } else {
        cmds.push(c)
    }
}

/// Removing an entry with some other name leaves a name's lookup unchanged.
proof fn lemma_lookup_remove(cmds: Seq<CommandView>, i: int, name: Seq<char>)
    requires
        0 <= i < cmds.len(),
        cmds[i].name != name,
    ensures
        lookup(cmds.remove(i), name) == lookup(cmds, name),
    decreases cmds.len(),
{
    if i == cmds.len() - 1 {
        assert(cmds.remove(i) =~= cmds.drop_last());
    } else {
        let r = cmds.remove(i);
        assert(r.last() == cmds.last());
        if cmds.last().name != name {
            assert(r.drop_last() =~= cmds.drop_last().remove(i));
            lemma_lookup_remove(cmds.drop_last(), i, name);
        }
    }
}

/// After an insert, the inserted name resolves to the new command and every
/// other name resolves as before.
pub proof fn lemma_insert_lookup(cmds: Seq<CommandView>, c: CommandView, other: Seq<char>)
    ensures
        lookup(spec_insert(cmds, c), c.name) == Some(c),
        other != c.name ==> lookup(spec_insert(cmds, c), other) == lookup(cmds, other),
{
    let s = spec_insert(cmds, c);
    assert(s.last() == c);
    assert(lookup(s, c.name) == Some(c));
    if other != c.name {
        if has_name(cmds, c.name) {
            let i = name_index(cmds, c.name);
            assert(0 <= i < cmds.len() && cmds[i].name == c.name);
            let r = cmds.remove(i);
            assert(s == r.push(c));
            assert(s.drop_last() =~= r);
            lemma_lookup_remove(cmds, i, other);
        } else {
            assert(s.drop_last() =~= cmds);
        }
    }
}

/// The in-memory catalog: command name to definition, populated once at
/// startup and read-only thereafter.
pub struct CommandRegistry {
    commands: Vec<Command>,
}

impl View for CommandRegistry {
    type V = Seq<CommandView>;

    closed spec fn view(&self) -> Seq<CommandView> {
        self.commands@.map_values(|c: Command| c@)
    }
}

impl CommandRegistry {
    /// The registry's invariant: entries bear distinct names.
    pub open spec fn wf(&self) -> bool {
        distinct_names(self@)
    }

    /// An empty registry.
    pub fn new() -> (r: Self)
        ensures
            r@ == Seq::<CommandView>::empty(),
            r.wf(),
    {
        let r = CommandRegistry { commands: Vec::new() };
        proof {
            assert(r@ =~= Seq::<CommandView>::empty());
        }
        r
    }

    /// Adds one command, the later insert winning over an entry of the same
    /// name; distinctness of names is kept.
    pub fn insert(&mut self, cmd: Command)
        requires
            old(self).wf(),
        ensures
            final(self)@ == spec_insert(old(self)@, cmd@),
            final(self).wf(),
    {
        let ghost s0 = self@;
        let n = self.commands.len();
        let mut i: usize = 0;
        while i < n
            invariant
                i <= n,
                n == self.commands.len(),
                self@ == s0,
                distinct_names(s0),
                s0 == old(self)@,
                forall|k: int| 0 <= k < i ==> s0[k].name != cmd@.name,
        decreases n - i,
        {
            if str_eq(self.commands[i].name.as_str(), cmd.name.as_str()) {
                proof {
                    assert(s0[i as int].name == cmd@.name);
                    assert(has_name(s0, cmd@.name));
                    let j = name_index(s0, cmd@.name);
                    assert(0 <= j < s0.len() && s0[j].name == cmd@.name);
                    if j != i {
                        assert(distinct_names(s0));
                        if j < i {
                            assert(s0[j].name != s0[i as int].name);
                        } else {
                            assert(s0[i as int].name != s0[j].name);
                        }
                        assert(false);
                    }
                }
                self.commands.remove(i);
                self.commands.push(cmd);
                proof {
                    assert(self@ =~= s0.remove(i as int).push(cmd@));
                    assert(self@ == spec_insert(s0, cmd@));
                    assert_distinct_after_replace(s0, i as int, cmd@);
                }
                return ;
            }
            i += 1;
        }
        self.commands.push(cmd);
        proof {
            assert(!has_name(s0, cmd@.name));
            assert(self@ =~= s0.push(cmd@));
            assert forall|a: int, b: int| 0 <= a < b < self@.len() implies self@[a].name
                != self@[b].name by {
                if b == self@.len() - 1 {
                    assert(s0[a].name != cmd@.name);
                }
            }
        }
    }

    /// Constant-time in spirit: returns the command registered under this
    /// name, or nothing.
    pub fn get(&self, name: &str) -> (r: Option<&Command>)
        ensures
            match r {
                Some(c) => lookup(self@, name@) == Some(c@),
                None => lookup(self@, name@) is None,
            },
    {
        let n = self.commands.len();
        proof {
            assert(self@.take(n as int) =~= self@);
        }
        let mut i: usize = n;
        while i > 0
            invariant
                i <= n,
                n == self.commands.len(),
                lookup(self@, name@) == lookup(self@.take(i as int), name@),
            decreases i,
        {
            let c = &self.commands[i - 1];
            proof {
                let t = self@.take(i as int);
                assert(t.last() == self@[i - 1]);
                assert(t.drop_last() =~= self@.take(i - 1));
            }
            if str_eq(c.name.as_str(), name) {
                return Some(c);
            }
            i -= 1;
        }
        proof {
            assert(self@.take(0) =~= Seq::<CommandView>::empty());
        }
        None
    }

    /// A snapshot of all commands, in catalog order.
    pub fn list(&self) -> (r: Vec<&Command>)
        ensures
            r@.len() == self@.len(),
            forall|i: int| 0 <= i < self@.len() ==> r@[i]@ == self@[i],
    {
        let n = self.commands.len();
        let mut out: Vec<&Command> = Vec::new();
        let mut i: usize = 0;
        while i < n
            invariant
                i <= n,
                n == self.commands.len(),
                out@.len() == i,
                forall|k: int| 0 <= k < i ==> out@[k]@ == self@[k],
            decreases n - i,
        {
            out.push(&self.commands[i]);
            i += 1;
        }
        out
    }

    /// How many commands are registered.
    pub fn len(&self) -> (n: usize)
        ensures
            n == self@.len(),
    {
        self.commands.len()
    }
}

/// Replacing the entry at a position with a command of that entry's name,
/// moved to the end, keeps names distinct.
proof fn assert_distinct_after_replace(s0: Seq<CommandView>, i: int, c: CommandView)
    requires
        distinct_names(s0),
        0 <= i < s0.len(),
        s0[i].name == c.name,
    ensures
        distinct_names(s0.remove(i).push(c)),
{
    let s = s0.remove(i).push(c);
    assert forall|a: int, b: int| 0 <= a < b < s.len() implies s[a].name != s[b].name by {
        let orig_a = if a < i { a } else { a + 1 };
        if b == s.len() - 1 {
            assert(s[a] == s0[orig_a]);
            if orig_a < i {
                assert(s0[orig_a].name != s0[i].name);
            } else {
                assert(s0[i].name != s0[orig_a].name);
            }
        } else {
            let orig_b = if b < i { b } else { b + 1 };
            assert(s[a] == s0[orig_a]);
            assert(s[b] == s0[orig_b]);
        }
    }
}

} // verus!
