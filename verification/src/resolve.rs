//! Filling unset configuration fields from environment-variable values.
//!
//! Every rule follows "explicit wins over derived, derived wins over
//! default": a field that is already set is never touched, an unset field is
//! derived from its environment variable, and an absent or malformed value
//! degrades to a documented default rather than an error.

use vstd::prelude::*;
use vstd::string::*;

use crate::config::{ConfigView, EnvSnapshot, EnvView, Level, Rotation, TracingInit};
use crate::text::{
    eq_ignore_ascii_case, find_char, first_index_of, parse_usize, parse_usize_spec,
    str_contains_char, str_eq_ignore_ascii_case,
};

verus! {

/// Whether a `LOG_DESTINATION` value enables the sink tagged by `c`:
/// the variable is present and its value contains the character.
pub open spec fn destination_enables(dest: Option<Seq<char>>, c: char) -> bool {
    match dest {
        Some(v) => v.contains(c),
        None => false,
    }
}

/// The severity a `LOG_LEVEL` word names, matched against the five
/// recognized names ignoring ASCII case; anything else names none.
pub open spec fn level_word(s: Seq<char>) -> Option<Level> {
    if eq_ignore_ascii_case(s, "error"@) {
        Some(Level::Error)
    } else if eq_ignore_ascii_case(s, "warn"@) {
        Some(Level::Warn)
    } else if eq_ignore_ascii_case(s, "info"@) {
        Some(Level::Info)
    } else if eq_ignore_ascii_case(s, "debug"@) {
        Some(Level::Debug)
    } else if eq_ignore_ascii_case(s, "trace"@) {
        Some(Level::Trace)
    } else {
        None
    }
}

/// The level an unset `level` field resolves to: the recognized word if the
/// variable holds one, [`Level::Info`] when it is absent or malformed.
pub open spec fn level_from_env(lv: Option<Seq<char>>) -> Level {
    match lv {
        None => Level::Info,
        Some(s) => match level_word(s) {
            Some(l) => l,
            None => Level::Info,
        },
    }
}

/// The rotation a code names; an unrecognized code means daily.
pub open spec fn rotation_of_code(code: Seq<char>) -> Rotation {
    if code == "h"@ {
        Rotation::Hourly
    } else if code == "m"@ {
        Rotation::Minutely
    } else if code == "n"@ {
        Rotation::Never
    } else {
        Rotation::Daily
    }
}

/// The code part of a `LOG_FILE_ROTATION` value: everything before the first
/// colon, or the whole value if it has none.
pub open spec fn rotation_code_of(v: Seq<char>) -> Seq<char> {
    v.take(first_index_of(v, ':'))
}

/// The count part of a `LOG_FILE_ROTATION` value: the text between the first
/// colon and the second (or the end), or nothing when there is no colon.
pub open spec fn count_text_of(v: Seq<char>) -> Option<Seq<char>> {
    let i = first_index_of(v, ':');
    if i == v.len() {
        None
    } else {
        let rest = v.skip(i + 1);
        Some(rest.take(first_index_of(rest, ':')))
    }
}

/// The backup count a present `LOG_FILE_ROTATION` value carries: the parsed
/// count part, or 3 when it is missing or unreadable.
pub open spec fn backups_of_env(v: Seq<char>) -> usize {
    match count_text_of(v) {
        None => 3usize,
        Some(t) => match parse_usize_spec(t) {
            Some(k) => k,
            None => 3usize,
        },
    }
}

/// The fully-resolved configuration: every unset field replaced by the value
/// its environment variable derives, or by its default.  Set fields and the
/// fields without environment fallback (name, prefix, filter) are unchanged.
pub open spec fn resolve_spec(c: ConfigView, e: EnvView) -> ConfigView {
    ConfigView {
        app_name: c.app_name,
        enable_console: if c.enable_console is Some {
            c.enable_console
        } else {
            Some(destination_enables(e.log_destination, 'c'))
        },
        enable_log_file: if c.enable_log_file is Some {
            c.enable_log_file
        } else {
            Some(destination_enables(e.log_destination, 'f'))
        },
        enable_log_server: if c.enable_log_server is Some {
            c.enable_log_server
        } else {
            Some(destination_enables(e.log_destination, 's'))
        },
        level: if c.level is Some {
            c.level
        } else {
            Some(level_from_env(e.log_level))
        },
        log_file_path: if c.log_file_path is Some {
            c.log_file_path
        } else {
            Some(
                match e.log_file_path {
                    Some(p) => p,
                    None => Seq::empty(),
                },
            )
        },
        log_file_prefix: c.log_file_prefix,
        log_file_rotation: if c.log_file_rotation is Some {
            c.log_file_rotation
        } else {
            Some(
                match e.log_file_rotation {
                    Some(v) => rotation_of_code(rotation_code_of(v)),
                    None => Rotation::Daily,
                },
            )
        },
        log_file_backups: if c.log_file_rotation is Some {
            c.log_file_backups
        } else {
            match e.log_file_rotation {
                Some(v) => backups_of_env(v),
                None => c.log_file_backups,
            }
        },
        log_server_address: if c.log_server_address is Some {
            c.log_server_address
        } else {
            Some(
                match e.log_server {
                    Some(a) => a,
                    None => "logging-server:12201"@,
                },
            )
        },
        filter: c.filter,
    }
}

/// Match a level word against the five recognized names.
pub fn parse_level_name(s: &str) -> (r: Option<Level>)
    ensures
        r == level_word(s@),
{
    if str_eq_ignore_ascii_case(s, "error") {
        Some(Level::Error)
    } else if str_eq_ignore_ascii_case(s, "warn") {
        Some(Level::Warn)
    } else if str_eq_ignore_ascii_case(s, "info") {
        Some(Level::Info)
    } else if str_eq_ignore_ascii_case(s, "debug") {
        Some(Level::Debug)
    } else if str_eq_ignore_ascii_case(s, "trace") {
        Some(Level::Trace)
    } else {
        None
    }
}

/// Split a `LOG_FILE_ROTATION` value into rotation policy and backup count.
pub fn parse_rotation_value(v: &str) -> (r: (Rotation, usize))
    ensures
        r.0 == rotation_of_code(rotation_code_of(v@)),
        r.1 == backups_of_env(v@),
{
    let n: usize = v.unicode_len();
    let i: usize = find_char(v, ':');
    let ghost code = rotation_code_of(v@);
    proof {
        reveal_strlit("h");
        reveal_strlit("m");
        reveal_strlit("n");
    }
    let rot: Rotation = if i == 1 {
        let c0 = v.get_char(0);
        proof {
            assert(code.len() == 1 && code[0] == v@[0]);
        }
        if c0 == 'h' {
            proof {
                assert(code =~= "h"@);
            }
            Rotation::Hourly
        } else if c0 == 'm' {
            proof {
                assert(code =~= "m"@);
            }
            Rotation::Minutely
        } else if c0 == 'n' {
            proof {
                assert(code =~= "n"@);
            }
            Rotation::Never
        } else {
            proof {
                assert(code != "h"@ && code != "m"@ && code != "n"@);
            }
            Rotation::Daily
        }
    } else {
        proof {
            assert(code.len() == i);
            assert(code != "h"@ && code != "m"@ && code != "n"@);
        }
        Rotation::Daily
    };
    let cnt: usize = if i == n {
        3
    } else {
        let rest: &str = v.substring_char(i + 1, n);
        proof {
            assert(rest@ =~= v@.skip(i + 1));
        }
        let j: usize = find_char(rest, ':');
        let seg: &str = rest.substring_char(0, j);
        proof {
            assert(seg@ =~= v@.skip(i + 1).take(j as int));
        }
        match parse_usize(seg) {
            Some(k) => k,
            None => 3,
        }
    };
    (rot, cnt)
}

impl TracingInit {
    /// Fill every still-unset field from the captured environment values.
    /// Fields set through builder calls are left exactly as they are, so the
    /// result is [`resolve_spec`] of the old state.
    pub fn set_from_environment_variables(&mut self, env: &EnvSnapshot)
        ensures
            final(self)@ == resolve_spec(old(self)@, env@),
    {
        if self.enable_console.is_none() {
            let v = match &env.log_destination {
                Some(s) => str_contains_char(s.as_str(), 'c'),
                None => false,
            };
            self.enable_console = Some(v);
        }
        if self.enable_log_file.is_none() {
            let v = match &env.log_destination {
                Some(s) => str_contains_char(s.as_str(), 'f'),
                None => false,
            };
            self.enable_log_file = Some(v);
        }
        if self.enable_log_server.is_none() {
            let v = match &env.log_destination {
                Some(s) => str_contains_char(s.as_str(), 's'),
                None => false,
            };
            self.enable_log_server = Some(v);
        }
        if self.level.is_none() {
            let l = match &env.log_level {
                Some(s) => match parse_level_name(s.as_str()) {
                    Some(l) => l,
                    None => Level::Info,
                },
                None => Level::Info,
            };
            self.level = Some(l);
        }
        if self.log_file_path.is_none() {
            let p = match &env.log_file_path {
                Some(s) => s.clone(),
                None => String::new(),
            };
            self.log_file_path = Some(p);
        }
        if self.log_file_rotation.is_none() {
            match &env.log_file_rotation {
                Some(s) => {
                    let (rot, cnt) = parse_rotation_value(s.as_str());
                    self.log_file_rotation = Some(rot);
                    self.log_file_backups = cnt;
                }
                None => {
                    self.log_file_rotation = Some(Rotation::Daily);
                }
            }
        }
        if self.log_server_address.is_none() {
            let a = match &env.log_server {
                Some(s) => s.clone(),
                None => String::from_str("logging-server:12201"),
            };
            self.log_server_address = Some(a);
        }
        proof {
            assert(self@ =~~= resolve_spec(old(self)@, env@));
        }
    }
}

} // verus!
