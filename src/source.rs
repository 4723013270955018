use vstd::prelude::*;
use crate::scalar::{Scalar, ScalarView, option_view};

verus! {

#[verifier::external_type_specification]
#[verifier::external_body]
pub struct ExConfig(::config::Config);

/// What a parsed source holds: each dotted key path with the leaf found there.
pub uninterp spec fn entries_of(c: ::config::Config) -> Map<Seq<char>, ScalarView>;

/// What TOML text parses to, or the parser's diagnostic where it is not
/// valid TOML. With `config` built with `preserve_order`, tables keep the
/// order of the document, so the outcome depends on the text alone.
pub uninterp spec fn toml_parse(text: Seq<char>) -> Result<Map<Seq<char>, ScalarView>, Seq<char>>;

/// The leaf at `key` in a map of entries, if any.
pub open spec fn entry(m: Map<Seq<char>, ScalarView>, key: Seq<char>) -> Option<ScalarView> {
    if m.contains_key(key) {
        Some(m[key])
    } else {
        None
    }
}

/// Relies on config::File::from_str with FileFormat::Toml and
/// config::ConfigBuilder::build: the text parsed as one TOML source, or the
/// parser's message (built with the `preserve_order` feature: document order
/// is kept, so the outcome depends on the text alone).
#[verifier::external_body]
pub(crate) fn parse_toml(text: &str) -> (r: Result<::config::Config, String>)
    ensures
        match r {
            Ok(c) => toml_parse(text@) == Ok::<_, Seq<char>>(entries_of(c)),
            Err(m) => toml_parse(text@) == Err::<Map<Seq<char>, ScalarView>, _>(m@),
        },
{
    ::config::Config::builder()
        .add_source(::config::File::from_str(text, ::config::FileFormat::Toml))
        .build()
        .map_err(|e| e.to_string())
}

/// Relies on config::Config::get with config::Value: the value at a dotted
/// key path, or an error where nothing is there.
#[verifier::external_body]
pub(crate) fn lookup(c: &::config::Config, key: &str) -> (r: Option<Scalar>)
    ensures
        option_view(&r) == entry(entries_of(*c), key@),
{
    match c.get::<::config::Value>(key) {
        Ok(v) => Some(
            match v.kind {
                ::config::ValueKind::String(s) => Scalar::Str(s),
                ::config::ValueKind::I64(i) => Scalar::Int(i),
                ::config::ValueKind::Boolean(b) => Scalar::Bool(b),
                _ => Scalar::Other,
            },
        ),
        Err(_) => None,
    }
}

} // verus!
