use vstd::prelude::*;
use crate::config::{BinSettings, Configuration, MainConfig};
use crate::errors::LaunchError;

verus! {

#[verifier::external_type_specification]
#[verifier::external_body]
#[verifier::reject_recursive_types(K)]
#[verifier::reject_recursive_types(V)]
pub struct ExTomlMap<K, V>(toml::map::Map<K, V>);

#[verifier::external_type_specification]
#[verifier::external_body]
pub struct ExTomlValue(toml::Value);

#[verifier::external_type_specification]
#[verifier::external_body]
pub struct ExTomlDeError(toml::de::Error);

/// What one field of a section holds, at the specification level:
/// nothing, a string, a boolean, or a TOML value of some other type.
/// A field of a section that is missing or not a table is `Absent`.
pub ghost enum ScalarModel {
    Absent,
    Text(Seq<char>),
    Flag(bool),
    Other,
}

/// Everything the schema reads of a parsed document: whether each
/// section exists as a table, the scalar fields under `main` and
/// `bin`, and the `bootargs` pairs in declaration order, each value
/// given as its string payload or nothing where it is not a string.
#[verifier::ext_equal]
pub ghost struct DocModel {
    pub has_main: bool,
    pub kern_root: ScalarModel,
    pub user_root: ScalarModel,
    pub has_bootargs: bool,
    pub bootargs: Seq<(Seq<char>, Option<Seq<char>>)>,
    pub has_bin: bool,
    pub allow_32bit: ScalarModel,
    pub allow_universal: ScalarModel,
    pub allow_64bit: ScalarModel,
}

/// Whether the TOML parser accepts `s` as a document. Which documents
/// parse depends on the text alone.
pub uninterp spec fn toml_accepts(s: Seq<char>) -> bool;

/// Whether the document `s` parses to holds `section` as a top-level
/// table.
pub uninterp spec fn toml_is_table(s: Seq<char>, section: Seq<char>) -> bool;

/// What `key` under the top-level table `section` holds in the
/// document `s` parses to; `Absent` where the section is missing or
/// not a table.
pub uninterp spec fn toml_scalar(s: Seq<char>, section: Seq<char>, key: Seq<char>) -> ScalarModel;

/// The pairs of the top-level table `section` in the document `s`
/// parses to, in declaration order, each value as its string payload;
/// empty where the section is missing or not a table.
pub uninterp spec fn toml_pairs(s: Seq<char>, section: Seq<char>) -> Seq<
    (Seq<char>, Option<Seq<char>>),
>;

/// The parser's diagnostic for a text it rejects.
pub uninterp spec fn toml_diagnostic(s: Seq<char>) -> Seq<char>;

/// Whether a parsed table holds `section` as a table.
pub uninterp spec fn doc_is_table(t: toml::Table, section: Seq<char>) -> bool;

/// What `key` under `section` of a parsed table holds; `Absent` where
/// the section is missing or not a table.
pub uninterp spec fn doc_scalar(t: toml::Table, section: Seq<char>, key: Seq<char>) -> ScalarModel;

/// The pairs of `section` of a parsed table, in iteration order, each
/// value as its string payload; empty where the section is missing or
/// not a table.
pub uninterp spec fn doc_pairs(t: toml::Table, section: Seq<char>) -> Seq<
    (Seq<char>, Option<Seq<char>>),
>;

/// The diagnostic text a parse error carries.
pub uninterp spec fn de_error_message(e: toml::de::Error) -> Seq<char>;

/// The whole model of a parsed table, assembled from the content
/// names at the fixed paths the schema reads.
pub open spec fn doc_of_table(t: toml::Table) -> DocModel {
    DocModel {
        has_main: doc_is_table(t, "main"@),
        kern_root: doc_scalar(t, "main"@, "kern_root"@),
        user_root: doc_scalar(t, "main"@, "user_root"@),
        has_bootargs: doc_is_table(t, "bootargs"@),
        bootargs: doc_pairs(t, "bootargs"@),
        has_bin: doc_is_table(t, "bin"@),
        allow_32bit: doc_scalar(t, "bin"@, "allow_32bit"@),
        allow_universal: doc_scalar(t, "bin"@, "allow_universal"@),
        allow_64bit: doc_scalar(t, "bin"@, "allow_64bit"@),
    }
}

/// The whole model of the document a text parses to, assembled from
/// the text-level names at the same fixed paths.
pub open spec fn toml_doc(s: Seq<char>) -> DocModel {
    DocModel {
        has_main: toml_is_table(s, "main"@),
        kern_root: toml_scalar(s, "main"@, "kern_root"@),
        user_root: toml_scalar(s, "main"@, "user_root"@),
        has_bootargs: toml_is_table(s, "bootargs"@),
        bootargs: toml_pairs(s, "bootargs"@),
        has_bin: toml_is_table(s, "bin"@),
        allow_32bit: toml_scalar(s, "bin"@, "allow_32bit"@),
        allow_universal: toml_scalar(s, "bin"@, "allow_universal"@),
        allow_64bit: toml_scalar(s, "bin"@, "allow_64bit"@),
    }
}

/// Relies on toml::Table's FromStr: parses a TOML document into its
/// top-level table, or reports a parse diagnostic. The parse is a
/// function of the text alone, so each projection the schema reads of
/// the returned table equals the corresponding projection of the
/// text, and a rejection's diagnostic is a function of the text.
#[verifier::external_body]
fn parse_table(s: &str) -> (r: Result<toml::Table, toml::de::Error>)
    ensures
        r is Ok <==> toml_accepts(s@),
        r matches Ok(t) ==> doc_is_table(t, "main"@) == toml_is_table(s@, "main"@)
            && doc_is_table(t, "bootargs"@) == toml_is_table(s@, "bootargs"@)
            && doc_is_table(t, "bin"@) == toml_is_table(s@, "bin"@)
            && doc_scalar(t, "main"@, "kern_root"@) == toml_scalar(s@, "main"@, "kern_root"@)
            && doc_scalar(t, "main"@, "user_root"@) == toml_scalar(s@, "main"@, "user_root"@)
            && doc_pairs(t, "bootargs"@) == toml_pairs(s@, "bootargs"@)
            && doc_scalar(t, "bin"@, "allow_32bit"@) == toml_scalar(s@, "bin"@, "allow_32bit"@)
            && doc_scalar(t, "bin"@, "allow_universal"@) == toml_scalar(
            s@,
            "bin"@,
            "allow_universal"@,
        ) && doc_scalar(t, "bin"@, "allow_64bit"@) == toml_scalar(s@, "bin"@, "allow_64bit"@),
        r matches Err(e) ==> de_error_message(e) == toml_diagnostic(s@),
{
    s.parse::<toml::Table>()
}

/// Relies on toml::de::Error::message: the parser's diagnostic text.
#[verifier::external_body]
fn parse_error_detail(e: &toml::de::Error) -> (r: String)
    ensures
        r@ == de_error_message(*e),
{
    e.message().to_owned()
}

/// Relies on toml::map::Map::get and toml::Value::as_table: whether
/// `section` exists in the table and is itself a table.
#[verifier::external_body]
fn fetch_has_table(t: &toml::Table, section: &str) -> (r: bool)
    ensures
        r == doc_is_table(*t, section@),
{
    t.get(section).and_then(|v| v.as_table()).is_some()
}

/// Relies on toml::map::Map::get, toml::Value::as_table, as_str and
/// as_bool: reads the field `key` of the table `section`, converting
/// the outcome one-for-one.
#[verifier::external_body]
fn fetch_scalar(t: &toml::Table, section: &str, key: &str) -> (r: RawScalar)
    ensures
        scalar_model(r) == doc_scalar(*t, section@, key@),
{
    let m = match t.get(section).and_then(|v| v.as_table()) {
        Some(m) => m,
        None => return RawScalar::Absent,
    };
    match m.get(key) {
        None => RawScalar::Absent,
        Some(v) => match v.as_str() {
            Some(s) => RawScalar::Text(s.to_owned()),
            None => match v.as_bool() {
                Some(b) => RawScalar::Flag(b),
                None => RawScalar::Other,
            },
        },
    }
}

/// Relies on toml::map::Map::get, as_table and iter, and
/// toml::Value::as_str: the pairs of the table `section`, each value
/// as its string payload; with the preserve-order feature the pairs
/// come in the order the document declared them, which keeps argument
/// lists reproducible.
#[verifier::external_body]
fn fetch_pairs(t: &toml::Table, section: &str) -> (r: Vec<(String, Option<String>)>)
    ensures
        r.deep_view() == doc_pairs(*t, section@),
{
    match t.get(section).and_then(|v| v.as_table()) {
        Some(m) => m.iter().map(|(k, v)| (k.clone(), v.as_str().map(|s| s.to_owned()))).collect(),
        None => Vec::new(),
    }
}

/// What one field of a section held, as fetched from the parsed
/// document: nothing, a string, a boolean, or a TOML value of some
/// other type.
pub enum RawScalar {
    Absent,
    Text(String),
    Flag(bool),
    Other,
}

/// A plain snapshot of everything the schema reads from the parsed
/// document. A `has_*` field says whether the section exists as a
/// table; the others hold what was found under it, and are `Absent`
/// or empty where the section itself is gone.
pub struct RawConfig {
    pub has_main: bool,
    pub kern_root: RawScalar,
    pub user_root: RawScalar,
    pub has_bootargs: bool,
    pub bootargs: Vec<(String, Option<String>)>,
    pub has_bin: bool,
    pub allow_32bit: RawScalar,
    pub allow_universal: RawScalar,
    pub allow_64bit: RawScalar,
}

/// The model a fetched scalar stands for.
pub open spec fn scalar_model(s: RawScalar) -> ScalarModel {
    match s {
        RawScalar::Absent => ScalarModel::Absent,
        RawScalar::Text(t) => ScalarModel::Text(t@),
        RawScalar::Flag(b) => ScalarModel::Flag(b),
        RawScalar::Other => ScalarModel::Other,
    }
}

/// The document model a snapshot stands for.
pub open spec fn raw_model(raw: RawConfig) -> DocModel {
    DocModel {
        has_main: raw.has_main,
        kern_root: scalar_model(raw.kern_root),
        user_root: scalar_model(raw.user_root),
        has_bootargs: raw.has_bootargs,
        bootargs: raw.bootargs.deep_view(),
        has_bin: raw.has_bin,
        allow_32bit: scalar_model(raw.allow_32bit),
        allow_universal: scalar_model(raw.allow_universal),
        allow_64bit: scalar_model(raw.allow_64bit),
    }
}

/// The string a `Text` model holds.
pub open spec fn model_text(m: ScalarModel) -> Seq<char> {
    match m {
        ScalarModel::Text(t) => t,
        _ => Seq::<char>::empty(),
    }
}

/// The optional boolean a `[bin]` switch field holds: nothing where
/// the field is absent, the boolean where it is one.
pub open spec fn model_flag(m: ScalarModel) -> Option<bool> {
    match m {
        ScalarModel::Flag(b) => Some(b),
        _ => None,
    }
}

/// The boot-argument pairs with their string payloads unwrapped, in
/// the order given.
pub open spec fn spec_pair_strings(pairs: Seq<(Seq<char>, Option<Seq<char>>)>) -> Seq<
    (Seq<char>, Seq<char>),
> {
    pairs.map(
        |i: int, p: (Seq<char>, Option<Seq<char>>)|
            (
                p.0,
                match p.1 {
                    Some(v) => v,
                    None => Seq::<char>::empty(),
                },
            ),
    )
}

/// Whether a document satisfies the schema: `main` is a table with
/// string `kern_root` and `user_root`, `bootargs` is a table whose
/// values are all strings, and `bin` is a table whose three
/// allow-fields are absent or boolean. Validation is all-or-nothing.
pub open spec fn schema_ok(d: DocModel) -> bool {
    &&& d.has_main
    &&& d.kern_root is Text
    &&& d.user_root is Text
    &&& d.has_bootargs
    &&& (forall|j: int| 0 <= j < d.bootargs.len() ==> (#[trigger] d.bootargs[j]).1 is Some)
    &&& d.has_bin
    &&& (d.allow_32bit is Absent || d.allow_32bit is Flag)
    &&& (d.allow_universal is Absent || d.allow_universal is Flag)
    &&& (d.allow_64bit is Absent || d.allow_64bit is Flag)
}

/// The diagnostic for the first schema fault, in the order the checks
/// run.
pub open spec fn spec_schema_detail(d: DocModel) -> Seq<char> {
    if !d.has_main {
        "missing or invalid table `main`"@
    } else if !(d.kern_root is Text) {
        "`main.kern_root` must be a string"@
    } else if !(d.user_root is Text) {
        "`main.user_root` must be a string"@
    } else if !d.has_bootargs {
        "missing or invalid table `bootargs`"@
    } else if !(forall|j: int| 0 <= j < d.bootargs.len() ==> (#[trigger] d.bootargs[j]).1 is Some) {
        "`bootargs` values must be strings"@
    } else if !d.has_bin {
        "missing or invalid table `bin`"@
    } else if !(d.allow_32bit is Absent || d.allow_32bit is Flag) {
        "`bin.allow_32bit` must be a boolean"@
    } else if !(d.allow_universal is Absent || d.allow_universal is Flag) {
        "`bin.allow_universal` must be a boolean"@
    } else if !(d.allow_64bit is Absent || d.allow_64bit is Flag) {
        "`bin.allow_64bit` must be a boolean"@
    } else {
        Seq::<char>::empty()
    }
}

/// Checks a snapshot against the schema and assembles the validated
/// configuration. Succeeds exactly on snapshots whose document model
/// the schema accepts; the configuration carries the model's strings,
/// pairs in given order, and switches; a rejection carries the first
/// fault's diagnostic.
pub fn validate(raw: RawConfig) -> (r: Result<Configuration, LaunchError>)
    ensures
        r is Ok <==> schema_ok(raw_model(raw)),
        r matches Ok(c) ==> c.main.kern_root@ == model_text(raw_model(raw).kern_root)
            && c.main.user_root@ == model_text(raw_model(raw).user_root) && c.bootargs.deep_view()
            == spec_pair_strings(raw_model(raw).bootargs) && c.bin.allow_32bit == model_flag(
            raw_model(raw).allow_32bit,
        ) && c.bin.allow_universal == model_flag(raw_model(raw).allow_universal)
            && c.bin.allow_64bit == model_flag(raw_model(raw).allow_64bit),
        r matches Err(e) ==> e matches LaunchError::ConfigParseError { detail } && detail@
            == spec_schema_detail(raw_model(raw)),
{
    let ghost snapshot = raw;
    let RawConfig {
        has_main,
        kern_root,
        user_root,
        has_bootargs,
        bootargs,
        has_bin,
        allow_32bit,
        allow_universal,
        allow_64bit,
    } = raw;
    if !has_main {
        return Err(
            LaunchError::ConfigParseError { detail: "missing or invalid table `main`".to_owned() },
        );
    }
    let kern_root = match kern_root {
        RawScalar::Text(s) => s,
        _ => {
            return Err(
                LaunchError::ConfigParseError {
                    detail: "`main.kern_root` must be a string".to_owned(),
                },
            );
        },
    };
    let user_root = match user_root {
        RawScalar::Text(s) => s,
        _ => {
            return Err(
                LaunchError::ConfigParseError {
                    detail: "`main.user_root` must be a string".to_owned(),
                },
            );
        },
    };
    if !has_bootargs {
        return Err(
            LaunchError::ConfigParseError {
                detail: "missing or invalid table `bootargs`".to_owned(),
            },
        );
    }
    let ghost mpairs: Seq<(Seq<char>, Option<Seq<char>>)> = bootargs.deep_view();
    let mut pairs: Vec<(String, String)> = Vec::new();
    let mut i: usize = 0;
    proof {
        assert(pairs.deep_view() =~= spec_pair_strings(mpairs.take(0)));
    }
    while i < bootargs.len()
        invariant
            i <= bootargs@.len(),
            mpairs == bootargs.deep_view(),
            mpairs == raw_model(snapshot).bootargs,
            snapshot == raw,
            snapshot.has_main,
            snapshot.kern_root is Text,
            snapshot.user_root is Text,
            snapshot.has_bootargs,
            forall|j: int| 0 <= j < i ==> (#[trigger] mpairs[j]).1 is Some,
            pairs.deep_view() == spec_pair_strings(mpairs.take(i as int)),
        decreases bootargs@.len() - i,
    {
        let entry = &bootargs[i];
        proof {
            assert(mpairs[i as int] == (bootargs@[i as int].0@, bootargs@[i as int].1.deep_view()));
        }
        match &entry.1 {
            Some(s) => {
                let ghost prev = pairs.deep_view();
                pairs.push((entry.0.clone(), s.clone()));
                proof {
                    assert(pairs.deep_view() =~= prev.push((mpairs[i as int].0, s@)));
                    assert(spec_pair_strings(mpairs.take(i as int + 1)) =~= spec_pair_strings(
                        mpairs.take(i as int),
                    ).push(
                        (
                            mpairs[i as int].0,
                            match mpairs[i as int].1 {
                                Some(v) => v,
                                None => Seq::<char>::empty(),
                            },
                        ),
                    ));
                }
            },
            None => {
                proof {
                    assert((raw_model(snapshot).bootargs[i as int]).1 is None);
                    assert(!schema_ok(raw_model(snapshot)));
                }
                return Err(
                    LaunchError::ConfigParseError {
                        detail: "`bootargs` values must be strings".to_owned(),
                    },
                );
            },
        }
        i = i + 1;
    }
    proof {
        assert(mpairs.take(mpairs.len() as int) =~= mpairs);
    }
    if !has_bin {
        return Err(
            LaunchError::ConfigParseError { detail: "missing or invalid table `bin`".to_owned() },
        );
    }
    let allow_32bit = match allow_32bit {
        RawScalar::Absent => None,
        RawScalar::Flag(b) => Some(b),
        _ => {
            return Err(
                LaunchError::ConfigParseError {
                    detail: "`bin.allow_32bit` must be a boolean".to_owned(),
                },
            );
        },
    };
    let allow_universal = match allow_universal {
        RawScalar::Absent => None,
        RawScalar::Flag(b) => Some(b),
        _ => {
            return Err(
                LaunchError::ConfigParseError {
                    detail: "`bin.allow_universal` must be a boolean".to_owned(),
                },
            );
        },
    };
    let allow_64bit = match allow_64bit {
        RawScalar::Absent => None,
        RawScalar::Flag(b) => Some(b),
        _ => {
            return Err(
                LaunchError::ConfigParseError {
                    detail: "`bin.allow_64bit` must be a boolean".to_owned(),
                },
            );
        },
    };
    Ok(
        Configuration {
            main: MainConfig { kern_root, user_root },
            bootargs: pairs,
            bin: BinSettings { allow_32bit, allow_universal, allow_64bit },
        },
    )
}

/// Fetches everything the schema reads from the parsed top-level
/// table: the snapshot stands for exactly the table's document model.
fn fetch_raw(t: &toml::Table) -> (raw: RawConfig)
    ensures
        raw_model(raw) == doc_of_table(*t),
{
    let raw = RawConfig {
        has_main: fetch_has_table(t, "main"),
        kern_root: fetch_scalar(t, "main", "kern_root"),
        user_root: fetch_scalar(t, "main", "user_root"),
        has_bootargs: fetch_has_table(t, "bootargs"),
        bootargs: fetch_pairs(t, "bootargs"),
        has_bin: fetch_has_table(t, "bin"),
        allow_32bit: fetch_scalar(t, "bin", "allow_32bit"),
        allow_universal: fetch_scalar(t, "bin", "allow_universal"),
        allow_64bit: fetch_scalar(t, "bin", "allow_64bit"),
    };
    proof {
        assert(raw_model(raw) =~= doc_of_table(*t));
    }
    raw
}

/// Loads a configuration from its TOML text: parses the document, then
/// checks the fetched snapshot against the schema. Parsing is
/// all-or-nothing: success is owed exactly on texts the parser accepts
/// whose document matches the schema; the configuration then carries
/// that document's fields. A rejected text yields the parser's own
/// diagnostic, a schema fault the first fault's diagnostic, and every
/// rejection either way is a `ConfigParseError`.
pub fn parse_config(text: &str) -> (r: Result<Configuration, LaunchError>)
    ensures
        r is Ok <==> toml_accepts(text@) && schema_ok(toml_doc(text@)),
        r matches Ok(c) ==> c.main.kern_root@ == model_text(toml_doc(text@).kern_root)
            && c.main.user_root@ == model_text(toml_doc(text@).user_root) && c.bootargs.deep_view()
            == spec_pair_strings(toml_doc(text@).bootargs) && c.bin.allow_32bit == model_flag(
            toml_doc(text@).allow_32bit,
        ) && c.bin.allow_universal == model_flag(toml_doc(text@).allow_universal)
            && c.bin.allow_64bit == model_flag(toml_doc(text@).allow_64bit),
        r matches Err(e) ==> e matches LaunchError::ConfigParseError { detail } && detail@ == (
        if !toml_accepts(text@) {
            toml_diagnostic(text@)
        } else {
            spec_schema_detail(toml_doc(text@))
        }),
{
    let table = match parse_table(text) {
        Ok(t) => t,
        Err(e) => {
            let detail = parse_error_detail(&e);
            return Err(LaunchError::ConfigParseError { detail });
        },
    };
    proof {
        assert(doc_of_table(table) =~= toml_doc(text@));
    }
    let raw = fetch_raw(&table);
    validate(raw)
}

} // verus!
