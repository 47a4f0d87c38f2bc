//! Rendering a configuration as a one-line description.
//!
//! Only sinks whose toggle is explicitly on are described; a toggle that was
//! never resolved renders as a "not initialized" marker so that "off" and
//! "never decided" stay distinguishable.  The sink descriptions are joined
//! with `", "`, and a non-empty list is followed by the default level and,
//! when a filter expression is set, the expression in parentheses.  A
//! configuration with no sink to describe renders as the empty string with
//! no trailing segments at all.

use vstd::prelude::*;
use vstd::string::*;

use crate::config::{ConfigView, Level, Rotation, TracingInit};
use crate::text::{decimal_str, push_decimal};

verus! {

/// Lowercase name of a rotation policy; never rotating has none.
pub open spec fn rotation_name(r: Rotation) -> Seq<char> {
    match r {
        Rotation::Daily => "daily"@,
        Rotation::Hourly => "hourly"@,
        Rotation::Minutely => "minutely"@,
        Rotation::Never => Seq::empty(),
    }
}

/// The rotation descriptor of the file sink: `rotation: <name>:<backups>`,
/// empty when rotation is off, a marker while the policy is unresolved.
pub open spec fn rotation_description_view(c: ConfigView) -> Seq<char> {
    match c.log_file_rotation {
        None => "log_file_rotation not initialized"@,
        Some(r) => if r == Rotation::Never {
            Seq::empty()
        } else {
            "rotation: "@ + rotation_name(r) + ":"@ + decimal_str(c.log_file_backups as nat)
        },
    }
}

/// Uppercase display name of a severity level.
pub open spec fn level_display_name(l: Level) -> Seq<char> {
    match l {
        Level::Error => "ERROR"@,
        Level::Warn => "WARN"@,
        Level::Info => "INFO"@,
        Level::Debug => "DEBUG"@,
        Level::Trace => "TRACE"@,
    }
}

/// Description of the console sink.
pub open spec fn console_part_view(c: ConfigView) -> Seq<char> {
    match c.enable_console {
        None => "enable_console: not initialized"@,
        Some(true) => "log to console"@,
        Some(false) => Seq::empty(),
    }
}

/// The path segment of the file sink description: the configured directory,
/// `.` while the directory is the empty string, a marker while it is unset.
pub open spec fn path_display_view(p: Option<Seq<char>>) -> Seq<char> {
    match p {
        None => "lof_file_path not initialized"@,
        Some(s) => if s.len() == 0 {
            "."@
        } else {
            s
        },
    }
}

/// Description of the rotating-file sink.
pub open spec fn file_part_view(c: ConfigView) -> Seq<char> {
    match c.enable_log_file {
        None => "enable_log_file not initialized"@,
        Some(false) => Seq::empty(),
        Some(true) => "log to file "@ + path_display_view(c.log_file_path) + "/"@
            + c.log_file_prefix + ".log, rotation "@ + rotation_description_view(c),
    }
}

/// The address segment of the server sink description.
pub open spec fn address_display_view(a: Option<Seq<char>>) -> Seq<char> {
    match a {
        None => "log_server_address not initialized"@,
        Some(s) => s,
    }
}

/// Description of the remote-server sink.
pub open spec fn server_part_view(c: ConfigView) -> Seq<char> {
    match c.enable_log_server {
        None => "enable_log_server not initialized"@,
        Some(false) => Seq::empty(),
        Some(true) => "log to server "@ + address_display_view(c.log_server_address),
    }
}

/// Join two description segments, separating non-empty ones with `", "`.
pub open spec fn join_parts(a: Seq<char>, b: Seq<char>) -> Seq<char> {
    if a.len() == 0 {
        b
    } else if b.len() == 0 {
        a
    } else {
        a + ", "@ + b
    }
}

/// The joined sink descriptions, console then file then server.
pub open spec fn sink_list_view(c: ConfigView) -> Seq<char> {
    join_parts(join_parts(console_part_view(c), file_part_view(c)), server_part_view(c))
}

/// The trailing level segment: the default level, or a marker while unset.
pub open spec fn level_suffix_view(c: ConfigView) -> Seq<char> {
    match c.level {
        Some(l) => ", default level: "@ + level_display_name(l),
        None => ", level not initialized"@,
    }
}

/// The trailing filter segment: the expression in parentheses, if one is set.
pub open spec fn filter_suffix_view(c: ConfigView) -> Seq<char> {
    match c.filter {
        Some(f) => ", ("@ + f + ")"@,
        None => Seq::empty(),
    }
}

/// The whole one-line summary: empty when no sink is described, otherwise
/// the sink list followed by the level and filter segments.
pub open spec fn summary_view(c: ConfigView) -> Seq<char> {
    let parts = sink_list_view(c);
    if parts.len() == 0 {
        Seq::empty()
    } else {
        parts + level_suffix_view(c) + filter_suffix_view(c)
    }
}

fn rotation_text(name: &str, backups: usize) -> (r: String)
    ensures
        r@ == "rotation: "@ + name@ + ":"@ + decimal_str(backups as nat),
{
    let mut s = String::from_str("rotation: ");
    s.append(name);
    s.append(":");
    push_decimal(&mut s, backups);
    proof {
        assert(s@ =~= "rotation: "@ + name@ + ":"@ + decimal_str(backups as nat));
    }
    s
}

impl TracingInit {
    /// Render the rotation descriptor of the file sink.
    pub fn rotation_description(&self) -> (r: String)
        ensures
            r@ == rotation_description_view(self@),
    {
        match self.log_file_rotation {
            None => String::from_str("log_file_rotation not initialized"),
            Some(rot) => match rot {
                Rotation::Never => String::new(),
                Rotation::Daily => rotation_text("daily", self.log_file_backups),
                Rotation::Hourly => rotation_text("hourly", self.log_file_backups),
                Rotation::Minutely => rotation_text("minutely", self.log_file_backups),
            },
        }
    }

    fn console_part(&self) -> (r: &'static str)
        ensures
            r@ == console_part_view(self@),
    {
        proof {
            reveal_strlit("");
        }
        match self.enable_console {
            None => "enable_console: not initialized",
            Some(true) => "log to console",
            Some(false) => "",
        }
    }

    fn file_part(&self) -> (r: String)
        ensures
            r@ == file_part_view(self@),
    {
        match self.enable_log_file {
            None => String::from_str("enable_log_file not initialized"),
            Some(false) => String::new(),
            Some(true) => {
                let mut s = String::from_str("log to file ");
                match &self.log_file_path {
                    None => s.append("lof_file_path not initialized"),
                    Some(p) => {
                        if p.as_str().is_empty() {
                            s.append(".");
                        } else {
                            s.append(p.as_str());
                        }
                    }
                }
                s.append("/");
                s.append(self.log_file_prefix.as_str());
                s.append(".log, rotation ");
                let rd = self.rotation_description();
                s.append(rd.as_str());
                proof {
                    assert(s@ =~= file_part_view(self@));
                }
                s
            }
        }
    }

    fn server_part(&self) -> (r: String)
        ensures
            r@ == server_part_view(self@),
    {
        match self.enable_log_server {
            None => String::from_str("enable_log_server not initialized"),
            Some(false) => String::new(),
            Some(true) => {
                let mut s = String::from_str("log to server ");
                match &self.log_server_address {
                    None => s.append("log_server_address not initialized"),
                    Some(a) => s.append(a.as_str()),
                }
                proof {
                    assert(s@ =~= server_part_view(self@));
                }
                s
            }
        }
    }

    fn level_suffix(&self) -> (r: String)
        ensures
            r@ == level_suffix_view(self@),
    {
        match self.level {
            None => String::from_str(", level not initialized"),
            Some(l) => {
                let mut s = String::from_str(", default level: ");
                match l {
                    Level::Error => s.append("ERROR"),
                    Level::Warn => s.append("WARN"),
                    Level::Info => s.append("INFO"),
                    Level::Debug => s.append("DEBUG"),
                    Level::Trace => s.append("TRACE"),
                }
                proof {
                    assert(s@ =~= level_suffix_view(self@));
                }
                s
            }
        }
    }

    fn filter_suffix(&self) -> (r: String)
        ensures
            r@ == filter_suffix_view(self@),
    {
        match &self.filter {
            None => String::new(),
            Some(f) => {
                let mut s = String::from_str(", (");
                s.append(f.as_str());
                s.append(")");
                proof {
                    assert(s@ =~= filter_suffix_view(self@));
                }
                s
            }
        }
    }

    /// Render the one-line summary of the current configuration state.
    pub fn summary(&self) -> (r: String)
        ensures
            r@ == summary_view(self@),
    {
        let console: &str = self.console_part();
        let file: String = self.file_part();
        let server: String = self.server_part();

        let mut out = String::new();
        if !console.is_empty() {
            out.append(console);
        }
        if !file.as_str().is_empty() {
            if !out.as_str().is_empty() {
                out.append(", ");
            }
            out.append(file.as_str());
        }
        proof {
            assert(out@ =~= join_parts(console_part_view(self@), file_part_view(self@)));
        }
        if !server.as_str().is_empty() {
            if !out.as_str().is_empty() {
                out.append(", ");
            }
            out.append(server.as_str());
        }
        proof {
            assert(out@ =~= sink_list_view(self@));
        }

        if out.as_str().is_empty() {
            return out;
        }

        let ls = self.level_suffix();
        out.append(ls.as_str());
        let fs = self.filter_suffix();
        out.append(fs.as_str());
        proof {
            assert(out@ =~= summary_view(self@));
        }
        out
    }
}

} // verus!
