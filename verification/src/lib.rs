//! A minimal tool-provider server core: a catalog of declaratively defined
//! commands, loaded from YAML documents, served to an MCP client over
//! line-delimited JSON-RPC. The registry, the method dispatch, and the wire
//! encoding of responses are specified and verified; reading the command
//! directory and pumping standard input and output are left to the embedding
//! program.

use vstd::prelude::*;

pub mod encode;
pub mod jsonval;
pub mod registry;
pub mod server;
pub mod strutil;
pub mod types;
pub mod yamlval;

verus! {

/// A file name is eligible for loading when its extension is exactly `yaml`:
/// it ends in `.yaml` and at least one character precedes that suffix.
pub open spec fn is_yaml_name(name: Seq<char>) -> bool {
    name.len() >= 6 && name.subrange(name.len() - 5, name.len() as int) == ".yaml"@
}

/// Decides whether a directory entry's file name should be loaded as a
/// command definition.
pub fn is_yaml_file(name: &str) -> (r: bool)
    ensures
        r == is_yaml_name(name@),
{
    proof {
        reveal_strlit(".yaml");
    }
    let n = name.unicode_len();
    if n < 6 {
        proof {
            assert(!is_yaml_name(name@));
        }
        return false;
    }
    let r = name.get_char(n - 5) == '.' && name.get_char(n - 4) == 'y' && name.get_char(n - 3)
        == 'a' && name.get_char(n - 2) == 'm' && name.get_char(n - 1) == 'l';
    proof {
        let s = name@;
        let suf = s.subrange(s.len() - 5, s.len() as int);
        assert(suf.len() == 5);
        assert(suf[0] == s[s.len() - 5]);
        assert(suf[1] == s[s.len() - 4]);
        assert(suf[2] == s[s.len() - 3]);
        assert(suf[3] == s[s.len() - 2]);
        assert(suf[4] == s[s.len() - 1]);
        if r {
            assert(suf =~= ".yaml"@);
        } else {
            if suf == ".yaml"@ {
                assert(s[s.len() - 5] == '.');
            }
        }
    }
    r
}

} // verus!
