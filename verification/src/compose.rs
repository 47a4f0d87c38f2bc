//! Turning a resolved configuration into a plan of sinks to install.
//!
//! Composition is all-or-nothing for its synchronous part: it either yields
//! a [`SinkPlan`] describing every sink and the severity filter, or an error
//! and nothing to install.  Executing the plan — constructing the writers,
//! spawning the server connection, registering the process-wide backend — is
//! the embedding application's side of the contract.

use vstd::prelude::*;
use vstd::string::*;
use vstd::utf8::is_ascii_chars;

use crate::config::{ConfigView, EnvSnapshot, Level, Rotation, TracingInit};
use crate::resolve::resolve_spec;

verus! {

/// Why no plan was produced.
#[derive(Clone, Copy, Debug, PartialEq, Eq, Structural)]
pub enum InitError {
    /// A field that an enabled sink or the filter needs is still unset.
    Unresolved,
    /// The explicit filter expression holds a non-ASCII character or does
    /// not parse.
    InvalidFilter,
}

/// Parameters of the rotating-file sink.
#[derive(Debug)]
pub struct FileSinkPlan {
    /// Directory the log files live in; empty means the current directory.
    pub path: String,
    /// File name prefix.
    pub prefix: String,
    /// File name suffix.
    pub suffix: String,
    /// Rotation policy.
    pub rotation: Rotation,
    /// How many rotated files are retained.
    pub max_backups: usize,
}

/// Parameters of the remote-server sink.
#[derive(Debug)]
pub struct ServerSinkPlan {
    /// `host:port` of the collector.
    pub address: String,
    /// Application name tagged onto every shipped record.
    pub app_name: String,
}

/// How the severity filter is to be built.
#[derive(Debug)]
pub enum FilterChoice {
    /// From this explicit expression, which is all-ASCII and parses; it
    /// bypasses level-based filtering entirely.
    Expression(String),
    /// From this default level, further modulated by the ambient filter
    /// environment variable, read lossily at installation time.
    LevelDefault(Level),
}

/// Everything the embedding application installs as the logging backend.
#[derive(Debug)]
pub struct SinkPlan {
    /// Whether the console sink is included.
    pub console: bool,
    /// The file sink, when enabled.
    pub file: Option<FileSinkPlan>,
    /// The server sink, when enabled.
    pub server: Option<ServerSinkPlan>,
    /// The severity filter.
    pub filter: FilterChoice,
}

/// What `tracing_subscriber`'s directive parser decides for a filter
/// expression; acceptance depends on the expression's characters alone.
pub uninterp spec fn env_filter_accepts(s: Seq<char>) -> bool;

/// Relies on `tracing_subscriber::filter::EnvFilter::try_new`: it parses the
/// given directive string and nothing else, so whether it returns `Ok` is a
/// function of the string.  Only ASCII input is admitted: the directive
/// parser computes character indices on the trimmed text of each
/// comma-separated segment but slices the untrimmed text with them, and when
/// trimming shifts such an index into the middle of a multi-byte character
/// the slicing panics; with ASCII every byte index is a character boundary,
/// so the call returns on every admitted input.
#[verifier::external_body]
fn filter_expression_parses(s: &str) -> (r: bool)
    requires
        is_ascii(s),
    ensures
        r == env_filter_accepts(s@),
{
    tracing_subscriber::filter::EnvFilter::try_new(s).is_ok()
}

/// Whether an explicit filter expression is accepted by composition: all
/// ASCII (the only inputs the directive parser is known to return on) and
/// accepted by that parser.  Anything else counts as malformed and is
/// refused as [`InitError::InvalidFilter`].
pub open spec fn filter_expression_ok(f: Seq<char>) -> bool {
    is_ascii_chars(f) && env_filter_accepts(f)
}

/// Every field that composition reads is concretely determined: the three
/// toggles, the file path and rotation when the file sink is on, the server
/// address when the server sink is on, and the level when no explicit filter
/// replaces it.
pub open spec fn composition_fields_resolved(c: ConfigView) -> bool {
    &&& c.enable_console is Some
    &&& c.enable_log_file is Some
    &&& c.enable_log_server is Some
    &&& (c.enable_log_file == Some(true) ==> c.log_file_path is Some && c.log_file_rotation
        is Some)
    &&& (c.enable_log_server == Some(true) ==> c.log_server_address is Some)
    &&& (c.filter is None ==> c.level is Some)
}

/// Whether composition of `c` succeeds: its fields are resolved and an
/// explicit filter expression, if any, is accepted.
pub open spec fn compose_ok(c: ConfigView) -> bool {
    composition_fields_resolved(c) && (c.filter is Some ==> filter_expression_ok(c.filter->0))
}

/// The error composition of `c` reports when it fails.
pub open spec fn compose_error(c: ConfigView) -> InitError {
    if !composition_fields_resolved(c) {
        InitError::Unresolved
    } else {
        InitError::InvalidFilter
    }
}

/// The plan `p` is exactly what configuration `c` asks for.
pub open spec fn plan_matches(c: ConfigView, p: &SinkPlan) -> bool {
    &&& p.console == (c.enable_console == Some(true))
    &&& (c.enable_log_file == Some(true) <==> p.file is Some)
    &&& (match p.file {
        Some(f) => {
            &&& Some(f.path@) == c.log_file_path
            &&& f.prefix@ == c.log_file_prefix
            &&& f.suffix@ == "log"@
            &&& Some(f.rotation) == c.log_file_rotation
            &&& f.max_backups == c.log_file_backups
        },
        None => true,
    })
    &&& (c.enable_log_server == Some(true) <==> p.server is Some)
    &&& (match p.server {
        Some(s) => Some(s.address@) == c.log_server_address && s.app_name@ == c.app_name,
        None => true,
    })
    &&& (match p.filter {
        FilterChoice::Expression(ref e) => Some(e@) == c.filter,
        FilterChoice::LevelDefault(l) => c.filter is None && Some(l) == c.level,
    })
}

impl TracingInit {
    /// Decide the sinks and filter this configuration asks for, without
    /// touching the configuration itself.  Fails on a still-unset field an
    /// enabled sink needs, and on a malformed explicit filter expression —
    /// one with a non-ASCII character (refused before the directive parser,
    /// which is only known to return on ASCII) or one the parser rejects;
    /// nothing is installed on failure.
    pub fn compose(&self) -> (r: Result<SinkPlan, InitError>)
        ensures
            r is Ok <==> compose_ok(self@),
            (match r {
                Ok(plan) => plan_matches(self@, &plan),
                Err(e) => e == compose_error(self@),
            }),
    {
        let console_on: bool = match self.enable_console {
            Some(b) => b,
            None => {
                return Err(InitError::Unresolved);
            }
        };
        let file_on: bool = match self.enable_log_file {
            Some(b) => b,
            None => {
                return Err(InitError::Unresolved);
            }
        };
        let server_on: bool = match self.enable_log_server {
            Some(b) => b,
            None => {
                return Err(InitError::Unresolved);
            }
        };
        let file: Option<FileSinkPlan> = if file_on {
            let path = match &self.log_file_path {
                Some(p) => p.clone(),
                None => {
                    return Err(InitError::Unresolved);
                }
            };
            let rotation = match self.log_file_rotation {
                Some(r) => r,
                None => {
                    return Err(InitError::Unresolved);
                }
            };
            Some(
                FileSinkPlan {
                    path,
                    prefix: self.log_file_prefix.clone(),
                    suffix: String::from_str("log"),
                    rotation,
                    max_backups: self.log_file_backups,
                },
            )
        } else {
            None
        };
        let server: Option<ServerSinkPlan> = if server_on {
            let address = match &self.log_server_address {
                Some(a) => a.clone(),
                None => {
                    return Err(InitError::Unresolved);
                }
            };
            Some(ServerSinkPlan { address, app_name: self.app_name.clone() })
        } else {
            None
        };
        let filter: FilterChoice = match &self.filter {
            Some(f) => {
                // Only an all-ASCII expression may reach the directive
                // parser; anything else is malformed and refused here.
                if !f.as_str().is_ascii() {
                    return Err(InitError::InvalidFilter);
                }
                if !filter_expression_parses(f.as_str()) {
                    return Err(InitError::InvalidFilter);
                }
                FilterChoice::Expression(f.clone())
            }
            None => {
                let l = match self.level {
                    Some(l) => l,
                    None => {
                        return Err(InitError::Unresolved);
                    }
                };
                FilterChoice::LevelDefault(l)
            }
        };
        Ok(SinkPlan { console: console_on, file, server, filter })
    }

    /// Resolve every unset field from the environment values, then decide
    /// the sink plan.  Resolution leaves every field set, so the one failure
    /// left is a malformed explicit filter expression (non-ASCII, or refused
    /// by the directive parser); in that case the resolved configuration is
    /// kept but nothing is to be installed.
    pub fn init(&mut self, env: &EnvSnapshot) -> (r: Result<SinkPlan, InitError>)
        ensures
            final(self)@ == resolve_spec(old(self)@, env@),
            r is Ok <==> (old(self)@.filter is Some ==> filter_expression_ok(
                old(self)@.filter->0,
            )),
            (match r {
                Ok(plan) => plan_matches(final(self)@, &plan),
                Err(e) => e == InitError::InvalidFilter,
            }),
    {
        self.set_from_environment_variables(env);
        proof {
            assert(composition_fields_resolved(self@));
        }
        self.compose()
    }
}

} // verus!
