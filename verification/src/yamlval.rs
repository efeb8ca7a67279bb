use vstd::prelude::*;
use vstd::string::StrSliceExecFns;
use crate::registry::{lookup, spec_insert, lemma_insert_lookup};
use crate::types::{Command, CommandView, LoadError, Parameter, ParameterView};

verus! {

/// The mathematical shape of one YAML document, as far as the loader reads
/// it: null, booleans, strings, sequences, the string-keyed entries of
/// mappings, and a one-level tag wrapper; every other scalar is left unread.
pub ghost enum YamlData {
    Null,
    Bool(bool),
    Str(Seq<char>),
    /// A number or any other scalar the loader does not read.
    OtherScalar,
    Sqn(Seq<YamlData>),
    /// The string-keyed entries of a mapping.
    Mpg(Map<Seq<char>, YamlData>),
    /// A tagged value; the accessors below look through one tag level.
    Tagged(Box<YamlData>),
}

/// One tag level removed, as serde_yaml's accessors do before reading.
pub open spec fn untagged(d: YamlData) -> YamlData {
    match d {
        YamlData::Tagged(inner) => *inner,
        _ => d,
    }
}

/// What a parsed YAML value holds.
pub uninterp spec fn ymodel(v: serde_yaml::Value) -> YamlData;

/// What parsing a text yields: the document of a well-formed YAML text,
/// nothing for any other text.
pub uninterp spec fn ydoc_of(s: Seq<char>) -> Option<YamlData>;

/// Relies on serde_yaml's `Value`: the parsed form of one YAML document,
/// carried opaquely between the wrappers below and read only through them.
#[verifier::external_type_specification]
#[verifier::external_body]
pub struct ExYamlValue(serde_yaml::Value);

/// Relies on `serde_yaml::from_str::<serde_yaml::Value>`: parses one YAML
/// text, returning the document exactly when the text is a well-formed
/// document.
#[verifier::external_body]
fn yaml_parse(s: &str) -> (r: Option<serde_yaml::Value>)
    ensures
        r is Some <==> ydoc_of(s@) is Some,
        r matches Some(v) ==> ydoc_of(s@) == Some(ymodel(v)),
{
    serde_yaml::from_str(s).ok()
}

/// Relies on `serde_yaml::Value::get`: entry lookup by string key on a
/// mapping, looking through one tag level, returning nothing when the value
/// is not a mapping or lacks the key.
#[verifier::external_body]
fn yaml_get<'a>(v: &'a serde_yaml::Value, key: &str) -> (r: Option<&'a serde_yaml::Value>)
    ensures
        (match untagged(ymodel(*v)) {
            YamlData::Mpg(m) => {
                if m.contains_key(key@) {
                    r matches Some(u) && ymodel(*u) == m[key@]
                } else {
                    r is None
                }
            },
            _ => r is None,
        }),
{
    v.get(key)
}

/// Relies on `serde_yaml::Value::as_str`: the contained characters exactly
/// when the value, behind one tag level, is a YAML string.
#[verifier::external_body]
fn yaml_as_str(v: &serde_yaml::Value) -> (r: Option<String>)
    ensures
        (match untagged(ymodel(*v)) {
            YamlData::Str(t) => r matches Some(s) && s@ == t,
            _ => r is None,
        }),
{
    match v.as_str() {
        Some(s) => Some(s.to_owned()),
        None => None,
    }
}

/// Relies on `serde_yaml::Value::as_bool`: the contained boolean exactly
/// when the value, behind one tag level, is a YAML boolean.
#[verifier::external_body]
fn yaml_as_bool(v: &serde_yaml::Value) -> (r: Option<bool>)
    ensures
        (match untagged(ymodel(*v)) {
            YamlData::Bool(b) => r matches Some(c) && c == b,
            _ => r is None,
        }),
{
    v.as_bool()
}

/// Relies on `serde_yaml::Value::is_null`: whether the value, behind one tag
/// level, is YAML null.
#[verifier::external_body]
fn yaml_is_null(v: &serde_yaml::Value) -> (r: bool)
    ensures
        r == (untagged(ymodel(*v)) is Null),
{
    v.is_null()
}

/// Relies on `serde_yaml::Value::as_sequence`: the contained items exactly
/// when the value, behind one tag level, is a YAML sequence.
#[verifier::external_body]
fn yaml_as_seq<'a>(v: &'a serde_yaml::Value) -> (r: Option<&'a Vec<serde_yaml::Value>>)
    ensures
        (match untagged(ymodel(*v)) {
            YamlData::Sqn(items) => r matches Some(vs) && vs@.len() == items.len() && (forall|
                i: int,
            | 0 <= i < items.len() ==> ymodel(vs@[i]) == items[i]),
            _ => r is None,
        }),
{
    v.as_sequence()
}

/// A mandatory string field of a mapping document: the entry under the key,
/// when the document is a mapping, the entry present, and a string.
pub open spec fn spec_str_field(d: YamlData, key: Seq<char>) -> Option<Seq<char>> {
    match untagged(d) {
        YamlData::Mpg(m) => if m.contains_key(key) {
            match untagged(m[key]) {
                YamlData::Str(s) => Some(s),
                _ => None,
            }
        } else {
            None
        },
        _ => None,
    }
}

/// The `required` member of a parameter mapping: false when absent, the
/// boolean when present, nothing when present with another shape.
pub open spec fn spec_required_of(d: YamlData) -> Option<bool> {
    match untagged(d) {
        YamlData::Mpg(m) => if m.contains_key("required"@) {
            match untagged(m["required"@]) {
                YamlData::Bool(b) => Some(b),
                _ => None,
            }
        } else {
            Some(false)
        },
        _ => None,
    }
}

/// The `default` member of a parameter mapping: absent or explicit null
/// count as no default, a string is the default, and any other shape is
/// ill-typed.
pub open spec fn spec_default_of(d: YamlData) -> Option<Option<Seq<char>>> {
    match untagged(d) {
        YamlData::Mpg(m) => if m.contains_key("default"@) {
            if untagged(m["default"@]) is Null {
                Some(None)
            } else {
                match untagged(m["default"@]) {
                    YamlData::Str(s) => Some(Some(s)),
                    _ => None,
                }
            }
        } else {
            Some(None)
        },
        _ => None,
    }
}

/// One declared parameter: `name`, `type` and `description` are mandatory
/// strings, `required` and `default` as their own rules say.
pub open spec fn spec_parameter_of(d: YamlData) -> Option<ParameterView> {
    match spec_str_field(d, "name"@) {
        None => None,
        Some(name) => match spec_str_field(d, "type"@) {
            None => None,
            Some(param_type) => match spec_str_field(d, "description"@) {
                None => None,
                Some(description) => match spec_required_of(d) {
                    None => None,
                    Some(required) => match spec_default_of(d) {
                        None => None,
                        Some(default) => Some(
                            ParameterView { name, param_type, description, required, default },
                        ),
                    },
                },
            },
        },
    }
}

/// A whole parameter list; one ill-shaped item spoils the list.
pub open spec fn spec_parameters_of(items: Seq<YamlData>) -> Option<Seq<ParameterView>>
    decreases items.len(),
{
    if items.len() == 0 {
        Some(Seq::empty())
    } else {
        match spec_parameters_of(items.drop_last()) {
            None => None,
            Some(ps) => match spec_parameter_of(items.last()) {
                None => None,
                Some(p) => Some(ps.push(p)),
            },
        }
    }
}

/// One ill-shaped item anywhere makes the whole list ill-shaped.
proof fn lemma_parameters_bad(items: Seq<YamlData>, i: int)
    requires
        0 <= i < items.len(),
        spec_parameter_of(items[i]) is None,
    ensures
        spec_parameters_of(items) is None,
    decreases items.len(),
{
    if i < items.len() - 1 {
        lemma_parameters_bad(items.drop_last(), i);
    }
}

/// The `parameters` member of a command document: the empty list when
/// absent, the parsed list when a well-shaped sequence, nothing otherwise.
pub open spec fn spec_params_member(d: YamlData) -> Option<Seq<ParameterView>> {
    match untagged(d) {
        YamlData::Mpg(m) => if m.contains_key("parameters"@) {
            match untagged(m["parameters"@]) {
                YamlData::Sqn(items) => spec_parameters_of(items),
                _ => None,
            }
        } else {
            Some(Seq::empty())
        },
        _ => None,
    }
}

/// The document-to-command mapping: `name`, `version`, `description` and
/// `prompt` are mandatory strings, an empty name is rejected on its own
/// account, `parameters` defaults to the empty list, and unknown keys are
/// ignored. Every other document is a schema violation.
pub open spec fn spec_command_of(d: YamlData) -> Result<CommandView, LoadError> {
    match spec_str_field(d, "name"@) {
        None => Err(LoadError::Schema),
        Some(name) => if name.len() == 0 {
            Err(LoadError::EmptyName)
        } else {
            match spec_str_field(d, "version"@) {
                None => Err(LoadError::Schema),
                Some(version) => match spec_str_field(d, "description"@) {
                    None => Err(LoadError::Schema),
                    Some(description) => match spec_str_field(d, "prompt"@) {
                        None => Err(LoadError::Schema),
                        Some(prompt) => match spec_params_member(d) {
                            None => Err(LoadError::Schema),
                            Some(parameters) => Ok(
                                CommandView { name, version, description, parameters, prompt },
                            ),
                        },
                    },
                },
            }
        },
    }
}

/// Law: the command a document describes is found in the catalog under its
/// own name once inserted; with duplicate names the later insert wins, and
/// no other name is disturbed (that half is `lemma_insert_lookup`).
pub proof fn lemma_parsed_command_registered(cmds: Seq<CommandView>, d: YamlData)
    requires
        spec_command_of(d) is Ok,
    ensures
        lookup(
            spec_insert(cmds, spec_command_of(d)->Ok_0),
            spec_command_of(d)->Ok_0.name,
        ) == Some(spec_command_of(d)->Ok_0),
{
    lemma_insert_lookup(cmds, spec_command_of(d)->Ok_0, Seq::empty());
}

/// A mandatory string field of a mapping: present and a string, or nothing.
fn string_field(v: &serde_yaml::Value, key: &str) -> (r: Option<String>)
    ensures
        (match spec_str_field(ymodel(*v), key@) {
            None => r is None,
            Some(t) => r matches Some(s) && s@ == t,
        }),
{
    match yaml_get(v, key) {
        Some(fv) => yaml_as_str(fv),
        None => None,
    }
}

/// Reads one declared parameter out of a sequence item.
fn parameter_of_value(v: &serde_yaml::Value) -> (r: Option<Parameter>)
    ensures
        (match spec_parameter_of(ymodel(*v)) {
            None => r is None,
            Some(pv) => r matches Some(p) && p@ == pv,
        }),
{
    let name = match string_field(v, "name") {
        Some(s) => s,
        None => {
            return None;
        },
    };
    let param_type = match string_field(v, "type") {
        Some(s) => s,
        None => {
            return None;
        },
    };
    let description = match string_field(v, "description") {
        Some(s) => s,
        None => {
            return None;
        },
    };
    let required = match yaml_get(v, "required") {
        None => false,
        Some(rv) => match yaml_as_bool(rv) {
            Some(b) => b,
            None => {
                return None;
            },
        },
    };
    let default = match yaml_get(v, "default") {
        None => None,
        Some(dv) => {
            if yaml_is_null(dv) {
                None
            } else {
                match yaml_as_str(dv) {
                    Some(s) => Some(s),
                    None => {
                        return None;
                    },
                }
            }
        },
    };
    Some(Parameter { name, param_type, description, required, default })
}

fn parameters_of_value(v: &serde_yaml::Value) -> (r: Option<Vec<Parameter>>)
    ensures
        (match untagged(ymodel(*v)) {
            YamlData::Sqn(items) => match spec_parameters_of(items) {
                None => r is None,
                Some(pvs) => r matches Some(ps) && ps@.map_values(|p: Parameter| p@) == pvs,
            },
            _ => r is None,
        }),
{
    let items = match yaml_as_seq(v) {
        Some(s) => s,
        None => {
            return None;
        },
    };
    let ghost ims = (match untagged(ymodel(*v)) {
        YamlData::Sqn(s) => s,
        _ => Seq::empty(),
    });
    let n = items.len();
    let mut out: Vec<Parameter> = Vec::new();
    let mut i: usize = 0;
    while i < n
        invariant
            i <= n,
            n == items@.len(),
            n == ims.len(),
            untagged(ymodel(*v)) == YamlData::Sqn(ims),
            forall|k: int| 0 <= k < n ==> ymodel(items@[k]) == ims[k],
            spec_parameters_of(ims.take(i as int)) == Some(
                out@.map_values(|p: Parameter| p@),
            ),
        decreases n - i,
    {
        match parameter_of_value(&items[i]) {
            Some(p) => {
                out.push(p);
                proof {
                    let t = ims.take(i + 1 as int);
                    assert(t.drop_last() =~= ims.take(i as int));
                    assert(t.last() == ims[i as int]);
                    assert(out@.map_values(|q: Parameter| q@) =~= spec_parameters_of(
                        ims.take(i + 1 as int),
                    )->Some_0);
                }
            },
            None => {
                proof {
                    assert(ymodel(items@[i as int]) == ims[i as int]);
                    assert(spec_parameter_of(ims[i as int]) is None);
                    lemma_parameters_bad(ims, i as int);
                }
                return None;
            },
        }
        i += 1;
    }
    proof {
        assert(ims.take(n as int) =~= ims);
    }
    Some(out)
}

/// Parses one command document. A text that is not YAML is a syntax error;
/// a document of the wrong shape is a schema error; a well-formed document
/// declaring an empty name is rejected on its own account. The returned
/// command is exactly the one the document describes.
pub fn parse_command(content: &str) -> (r: Result<Command, LoadError>)
    ensures
        (match ydoc_of(content@) {
            None => r matches Err(e) && e is Syntax,
            Some(d) => match spec_command_of(d) {
                Ok(c) => r matches Ok(cmd) && cmd@ == c,
                Err(e0) => r matches Err(e) && e == e0,
            },
        }),
        r matches Ok(c) ==> c@.name.len() > 0,
{
    let doc = match yaml_parse(content) {
        Some(v) => v,
        None => {
            return Err(LoadError::Syntax);
        },
    };
    let name = match string_field(&doc, "name") {
        Some(s) => s,
        None => {
            return Err(LoadError::Schema);
        },
    };
    if name.as_str().unicode_len() == 0 {
        return Err(LoadError::EmptyName);
    }
    let version = match string_field(&doc, "version") {
        Some(s) => s,
        None => {
            return Err(LoadError::Schema);
        },
    };
    let description = match string_field(&doc, "description") {
        Some(s) => s,
        None => {
            return Err(LoadError::Schema);
        },
    };
    let prompt = match string_field(&doc, "prompt") {
        Some(s) => s,
        None => {
            return Err(LoadError::Schema);
        },
    };
    let parameters = match yaml_get(&doc, "parameters") {
        None => Vec::new(),
        Some(pv) => match parameters_of_value(pv) {
            Some(ps) => ps,
            None => {
                return Err(LoadError::Schema);
            },
        },
    };
    let cmd = Command { name, version, description, parameters, prompt };
    proof {
        assert(cmd@.parameters =~= spec_command_of(ydoc_of(content@)->Some_0)->Ok_0.parameters);
    }
    Ok(cmd)
}

} // verus!
