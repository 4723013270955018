use vstd::prelude::*;
use crate::config::{decoded, file_resolution, resolution, AppConfigView, ConfigErrorView};
use crate::layers::{layered, merged, shape_of, Lookup};
use crate::overlay::{in_overlay, names_path, overlay_lookup, overlay_path};
use crate::scalar::{decimal_value, decode_flag, decode_text, decode_uint, ScalarView};

verus! {

/// An overlay with no variable of the `APP_` prefix gives no key a value.
pub proof fn lemma_silent_overlay(vars: Seq<(String, String)>, key: Seq<char>)
    requires
        forall|i: int| 0 <= i < vars.len() ==> !in_overlay(#[trigger] vars[i].0@),
    ensures
        overlay_lookup(vars, key) is None,
    decreases vars.len(),
{
    if vars.len() > 0 {
        assert(!in_overlay(vars[vars.len() - 1].0@));
        lemma_silent_overlay(vars.drop_last(), key);
    }
}

/// Without a source for the environment and without `APP_` variables, a
/// layered resolution gives exactly what resolving the base source alone
/// gives, whatever the base's content and whatever the environment's name.
pub proof fn lemma_absent_environment_source(
    path: Seq<char>,
    base: Option<Seq<char>>,
    environment: Seq<char>,
    vars: Seq<(String, String)>,
)
    requires
        forall|i: int| 0 <= i < vars.len() ==> !in_overlay(#[trigger] vars[i].0@),
    ensures
        resolution(path, base, environment, None, vars) == file_resolution(path, base),
{
    if let Some(t) = base {
        if let Ok(b) = crate::source::toml_parse(t) {
            assert forall|k: Seq<char>|
                #[trigger] merged(b, None, vars, k) == merged(b, None, Seq::empty(), k) by {
                lemma_silent_overlay(vars, k);
            }
            assert(layered(b, None, vars) =~= layered(b, None, Seq::empty()));
        }
    }
}

/// A field that the environment's source sets, and that no overlay variable
/// sets, takes the environment source's value, not the base's.
pub proof fn lemma_environment_source_wins(
    base: Map<Seq<char>, ScalarView>,
    file: Map<Seq<char>, ScalarView>,
    vars: Seq<(String, String)>,
    key: Seq<char>,
)
    requires
        file.contains_key(key),
        overlay_lookup(vars, key) is None,
    ensures
        merged(base, Some(file), vars, key) == Some(file[key]),
{
}

/// An overlay variable that sets a field wins over both sources.
pub proof fn lemma_overlay_wins(
    base: Map<Seq<char>, ScalarView>,
    file: Option<Map<Seq<char>, ScalarView>>,
    vars: Seq<(String, String)>,
    key: Seq<char>,
    value: Seq<char>,
)
    requires
        overlay_lookup(vars, key) == Some(value),
    ensures
        merged(base, file, vars, key) == Some(ScalarView::Str(value)),
{
}

/// In a resolved record the port is the number that the overlay variable
/// setting it writes, whatever the sources say.
pub proof fn lemma_overlay_port(
    base: Map<Seq<char>, ScalarView>,
    file: Option<Map<Seq<char>, ScalarView>>,
    vars: Seq<(String, String)>,
    value: Seq<char>,
)
    requires
        overlay_lookup(vars, "server.port"@) == Some(value),
    ensures
        decoded(layered(base, file, vars)) matches Ok(v) ==> decimal_value(value) == Some(
            v.server.port as nat,
        ),
{
}

/// The variable `APP_SERVER__PORT` sets `server.port`: set last, it gives
/// the overlay's value for the port.
pub proof fn lemma_port_variable(vars: Seq<(String, String)>)
    requires
        vars.len() > 0,
        vars.last().0@ == "APP_SERVER__PORT"@,
    ensures
        overlay_path("APP_SERVER__PORT"@, "server.port"@),
        overlay_lookup(vars, "server.port"@) == Some(vars.last().1@),
{
    reveal_strlit("APP_SERVER__PORT");
    reveal_strlit("server.port");
    let n = "APP_SERVER__PORT"@;
    let k = "server.port"@;
    reveal_with_fuel(names_path, 13);
    assert(overlay_path(n, k));
}

/// Whatever the two sources say, a resolution whose last variable is
/// `APP_SERVER__PORT` yields, when it succeeds, the port that this
/// variable writes.
pub proof fn lemma_port_variable_wins(
    path: Seq<char>,
    base: Option<Seq<char>>,
    environment: Seq<char>,
    file: Option<Seq<char>>,
    vars: Seq<(String, String)>,
)
    requires
        vars.len() > 0,
        vars.last().0@ == "APP_SERVER__PORT"@,
    ensures
        resolution(path, base, environment, file, vars) matches Ok(c) ==> decimal_value(
            vars.last().1@,
        ) == Some(c.server.port as nat),
{
    lemma_port_variable(vars);
    if let Some(t) = base {
        if let Ok(b) = crate::source::toml_parse(t) {
            match file {
                None => lemma_overlay_port(b, None, vars, vars.last().1@),
                Some(e) => if let Ok(f) = crate::source::toml_parse(e) {
                    lemma_overlay_port(b, Some(f), vars, vars.last().1@);
                },
            }
        }
    }
}

/// The field of record `v` at the dotted path `key` is what the leaf `leaf`
/// decodes to, for each of the record's thirteen paths (other paths name no
/// field).
pub open spec fn fits_field(v: AppConfigView, key: Seq<char>, leaf: ScalarView) -> bool {
    &&& key == "app.name"@ ==> decode_text(Some(leaf)) == Some(v.app.name)
    &&& key == "app.version"@ ==> decode_text(Some(leaf)) == Some(v.app.version)
    &&& key == "app.environment"@ ==> decode_text(Some(leaf)) == Some(v.app.environment)
    &&& key == "server.host"@ ==> decode_text(Some(leaf)) == Some(v.server.host)
    &&& key == "server.port"@ ==> decode_uint(Some(leaf), 0xffff) == Some(v.server.port)
    &&& key == "server.timeout"@ ==> decode_uint(Some(leaf), 0xffff_ffff_ffff_ffff) == Some(v.server.timeout)
    &&& key == "database.url"@ ==> decode_text(Some(leaf)) == Some(v.database.url)
    &&& key == "database.max_connections"@ ==> decode_uint(Some(leaf), 0xffff_ffff) == Some(v.database.max_connections)
    &&& key == "database.min_connections"@ ==> decode_uint(Some(leaf), 0xffff_ffff) == Some(v.database.min_connections)
    &&& key == "logging.level"@ ==> decode_text(Some(leaf)) == Some(v.logging.level)
    &&& key == "logging.format"@ ==> decode_text(Some(leaf)) == Some(v.logging.format)
    &&& key == "logging.file_output"@ ==> decode_flag(Some(leaf)) == Some(v.logging.file_output)
    &&& key == "logging.console_output"@ ==> decode_flag(Some(leaf)) == Some(v.logging.console_output)
}

/// A record decoded from merged sources holds, in each field, what the merged
/// leaf at that field's path decodes to.
pub proof fn lemma_field_from_lookup(look: Lookup, key: Seq<char>, leaf: ScalarView)
    requires
        look(key) == Some(leaf),
    ensures
        shape_of(look) matches Ok(v) ==> fits_field(v, key, leaf),
{
}

/// Every field that the environment's source sets, and that no overlay
/// variable sets, takes the environment source's value in the resolved
/// record, not the base's.
pub proof fn lemma_environment_source_sets_field(
    base: Map<Seq<char>, ScalarView>,
    file: Map<Seq<char>, ScalarView>,
    vars: Seq<(String, String)>,
    key: Seq<char>,
)
    requires
        file.contains_key(key),
        overlay_lookup(vars, key) is None,
    ensures
        decoded(layered(base, Some(file), vars)) matches Ok(v) ==> fits_field(v, key, file[key]),
{
    lemma_field_from_lookup(layered(base, Some(file), vars), key, file[key]);
}

/// Every field that an overlay variable sets takes, in the resolved record,
/// the value that variable writes, whatever either source says.
pub proof fn lemma_overlay_sets_field(
    base: Map<Seq<char>, ScalarView>,
    file: Option<Map<Seq<char>, ScalarView>>,
    vars: Seq<(String, String)>,
    key: Seq<char>,
    value: Seq<char>,
)
    requires
        overlay_lookup(vars, key) == Some(value),
    ensures
        decoded(layered(base, file, vars)) matches Ok(v) ==> fits_field(
            v,
            key,
            ScalarView::Str(value),
        ),
{
    lemma_field_from_lookup(layered(base, file, vars), key, ScalarView::Str(value));
}

proof fn lemma_other_key_unchanged(vars: Seq<(String, String)>, key: Seq<char>)
    requires
        vars.len() == 1,
        !overlay_path(vars[0].0@, key),
    ensures
        overlay_lookup(vars, key) is None,
{
    assert(vars.last() == vars[0]);
    assert(vars.drop_last() =~= Seq::<(String, String)>::empty());
    assert(overlay_lookup(Seq::<(String, String)>::empty(), key) is None);
}

/// Where the sources alone resolve, adding the one variable
/// `APP_SERVER__PORT` holding a decimal port in range still resolves, and the
/// record's port is the one the variable writes.
pub proof fn lemma_port_variable_resolves(
    path: Seq<char>,
    base: Seq<char>,
    environment: Seq<char>,
    file: Option<Seq<char>>,
    vars: Seq<(String, String)>,
    port: nat,
)
    requires
        resolution(path, Some(base), environment, file, Seq::empty()) is Ok,
        vars.len() == 1,
        vars[0].0@ == "APP_SERVER__PORT"@,
        decimal_value(vars[0].1@) == Some(port),
        port <= 0xffff,
    ensures
        resolution(path, Some(base), environment, file, vars) matches Ok(c) && c.server.port
            == port,
{
    reveal_strlit("app.name");
    reveal_strlit("app.version");
    reveal_strlit("app.environment");
    reveal_strlit("server.host");
    reveal_strlit("server.timeout");
    reveal_strlit("database.url");
    reveal_strlit("database.max_connections");
    reveal_strlit("database.min_connections");
    reveal_strlit("logging.level");
    reveal_strlit("logging.format");
    reveal_strlit("logging.file_output");
    reveal_strlit("logging.console_output");
    reveal_strlit("server.port");
    reveal_strlit("APP_SERVER__PORT");
    reveal_with_fuel(names_path, 9);
    let b = crate::source::toml_parse(base)->Ok_0;
    let f = match file {
        Some(e) => Some(crate::source::toml_parse(e)->Ok_0),
        None => None,
    };
    let look0 = layered(b, f, Seq::empty());
    let look1 = layered(b, f, vars);
    assert(vars.last() == vars[0]);
    lemma_port_variable(vars);
    assert(look1("server.port"@) == Some(ScalarView::Str(vars[0].1@)));
    assert(!overlay_path("APP_SERVER__PORT"@, "app.name"@));
    lemma_other_key_unchanged(vars, "app.name"@);
    assert(look1("app.name"@) == look0("app.name"@));
    assert(!overlay_path("APP_SERVER__PORT"@, "app.version"@));
    lemma_other_key_unchanged(vars, "app.version"@);
    assert(look1("app.version"@) == look0("app.version"@));
    assert(!overlay_path("APP_SERVER__PORT"@, "app.environment"@));
    lemma_other_key_unchanged(vars, "app.environment"@);
    assert(look1("app.environment"@) == look0("app.environment"@));
    assert(!overlay_path("APP_SERVER__PORT"@, "server.host"@));
    lemma_other_key_unchanged(vars, "server.host"@);
    assert(look1("server.host"@) == look0("server.host"@));
    assert(!overlay_path("APP_SERVER__PORT"@, "server.timeout"@));
    lemma_other_key_unchanged(vars, "server.timeout"@);
    assert(look1("server.timeout"@) == look0("server.timeout"@));
    assert(!overlay_path("APP_SERVER__PORT"@, "database.url"@));
    lemma_other_key_unchanged(vars, "database.url"@);
    assert(look1("database.url"@) == look0("database.url"@));
    assert(!overlay_path("APP_SERVER__PORT"@, "database.max_connections"@));
    lemma_other_key_unchanged(vars, "database.max_connections"@);
    assert(look1("database.max_connections"@) == look0("database.max_connections"@));
    assert(!overlay_path("APP_SERVER__PORT"@, "database.min_connections"@));
    lemma_other_key_unchanged(vars, "database.min_connections"@);
    assert(look1("database.min_connections"@) == look0("database.min_connections"@));
    assert(!overlay_path("APP_SERVER__PORT"@, "logging.level"@));
    lemma_other_key_unchanged(vars, "logging.level"@);
    assert(look1("logging.level"@) == look0("logging.level"@));
    assert(!overlay_path("APP_SERVER__PORT"@, "logging.format"@));
    lemma_other_key_unchanged(vars, "logging.format"@);
    assert(look1("logging.format"@) == look0("logging.format"@));
    assert(!overlay_path("APP_SERVER__PORT"@, "logging.file_output"@));
    lemma_other_key_unchanged(vars, "logging.file_output"@);
    assert(look1("logging.file_output"@) == look0("logging.file_output"@));
    assert(!overlay_path("APP_SERVER__PORT"@, "logging.console_output"@));
    lemma_other_key_unchanged(vars, "logging.console_output"@);
    assert(look1("logging.console_output"@) == look0("logging.console_output"@));
}

} // verus!
