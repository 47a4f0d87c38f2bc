//! The library's global guarantees, stated and proved over the models that
//! the executable functions' contracts use.

use vstd::prelude::*;

use crate::compose::{compose_ok, composition_fields_resolved, plan_matches, FilterChoice, SinkPlan};
use crate::config::{ConfigView, EnvView, Level, Rotation};
use crate::resolve::resolve_spec;
use crate::summary::{sink_list_view, summary_view};

verus! {

/// A configuration whose three sink toggles are explicitly off renders as
/// the empty string, and — once a level is present and no explicit filter
/// expression is set — still composes: the plan holds a filter and no sinks.
pub proof fn lemma_no_sinks_empty_summary(c: ConfigView)
    requires
        c.enable_console == Some(false),
        c.enable_log_file == Some(false),
        c.enable_log_server == Some(false),
    ensures
        summary_view(c) == Seq::<char>::empty(),
        c.level is Some && c.filter is None ==> compose_ok(c),
{
    assert(sink_list_view(c).len() == 0);
}

/// A plan for a configuration with every sink off installs nothing but the
/// severity filter: no console, no file writer, no server connection.
pub proof fn lemma_no_sinks_plan_is_bare(c: ConfigView, p: &SinkPlan)
    requires
        plan_matches(c, p),
        c.enable_console == Some(false),
        c.enable_log_file == Some(false),
        c.enable_log_server == Some(false),
    ensures
        !p.console,
        p.file is None,
        p.server is None,
{
}

/// An explicit filter expression subsumes level-based filtering entirely:
/// any plan for such a configuration builds its filter from the expression,
/// never from the default level.
pub proof fn lemma_explicit_filter_bypasses_level(c: ConfigView, p: &SinkPlan, f: Seq<char>)
    requires
        plan_matches(c, p),
        c.filter == Some(f),
    ensures
        (match p.filter {
            FilterChoice::Expression(ref e) => e@ == f,
            FilterChoice::LevelDefault(_) => false,
        }),
{
}

/// Resolution never overwrites an explicitly set field: a set toggle, level,
/// path, rotation or address survives, and a set rotation also shields the
/// backup count.
pub proof fn lemma_explicit_wins(c: ConfigView, e: EnvView)
    ensures
        c.enable_console is Some ==> resolve_spec(c, e).enable_console == c.enable_console,
        c.enable_log_file is Some ==> resolve_spec(c, e).enable_log_file == c.enable_log_file,
        c.enable_log_server is Some ==> resolve_spec(c, e).enable_log_server
            == c.enable_log_server,
        c.level is Some ==> resolve_spec(c, e).level == c.level,
        c.log_file_path is Some ==> resolve_spec(c, e).log_file_path == c.log_file_path,
        c.log_file_rotation is Some ==> resolve_spec(c, e).log_file_rotation
            == c.log_file_rotation,
        c.log_file_rotation is Some ==> resolve_spec(c, e).log_file_backups
            == c.log_file_backups,
        c.log_server_address is Some ==> resolve_spec(c, e).log_server_address
            == c.log_server_address,
        resolve_spec(c, e).filter == c.filter,
        resolve_spec(c, e).app_name == c.app_name,
        resolve_spec(c, e).log_file_prefix == c.log_file_prefix,
{
}

/// An explicitly chosen level resolves to itself whatever the level
/// environment variable holds.
pub proof fn lemma_explicit_level_wins(c: ConfigView, e: EnvView, l: Level)
    requires
        c.level == Some(l),
    ensures
        resolve_spec(c, e).level == Some(l),
{
}

/// With no explicit rotation and no rotation variable, resolution yields
/// daily rotation and leaves the backup count as it was.
pub proof fn lemma_rotation_defaults_to_daily(c: ConfigView, e: EnvView)
    requires
        c.log_file_rotation is None,
        e.log_file_rotation is None,
    ensures
        resolve_spec(c, e).log_file_rotation == Some(Rotation::Daily),
        resolve_spec(c, e).log_file_backups == c.log_file_backups,
{
}

/// Resolution leaves every field concretely determined, so a resolved
/// configuration always has the fields composition needs.
pub proof fn lemma_resolution_total(c: ConfigView, e: EnvView)
    ensures
        resolve_spec(c, e).enable_console is Some,
        resolve_spec(c, e).enable_log_file is Some,
        resolve_spec(c, e).enable_log_server is Some,
        resolve_spec(c, e).level is Some,
        resolve_spec(c, e).log_file_path is Some,
        resolve_spec(c, e).log_file_rotation is Some,
        resolve_spec(c, e).log_server_address is Some,
        composition_fields_resolved(resolve_spec(c, e)),
{
}

/// Resolution is idempotent: resolving a resolved configuration again,
/// against any environment, changes nothing.
pub proof fn lemma_resolve_idempotent(c: ConfigView, e: EnvView, e2: EnvView)
    ensures
        resolve_spec(resolve_spec(c, e), e2) == resolve_spec(c, e),
{
    assert(resolve_spec(resolve_spec(c, e), e2) =~= resolve_spec(c, e));
}

} // verus!
