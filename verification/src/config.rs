//! The configuration entity: tri-state sink toggles, severity policy and
//! file/server parameters, plus the snapshot of environment values that
//! resolution draws from.

use vstd::prelude::*;

verus! {

/// Severity of a log record, from most to least severe.
#[derive(Clone, Copy, Debug, PartialEq, Eq, Structural)]
pub enum Level {
    Error,
    Warn,
    Info,
    Debug,
    Trace,
}

/// How often the log file is rotated.
#[derive(Clone, Copy, Debug, PartialEq, Eq, Structural)]
pub enum Rotation {
    Daily,
    Hourly,
    Minutely,
    Never,
}

/// Configuration for the logging pipeline.
///
/// Each optional field is tri-state: `None` means "never set", and is filled
/// in by [`TracingInit::set_from_environment_variables`]; a field set through
/// a builder method is never overwritten by resolution.
#[derive(Clone, Debug)]
pub struct TracingInit {
    pub(crate) app_name: String,
    pub(crate) enable_console: Option<bool>,
    pub(crate) enable_log_file: Option<bool>,
    pub(crate) enable_log_server: Option<bool>,
    pub(crate) level: Option<Level>,
    pub(crate) log_file_path: Option<String>,
    pub(crate) log_file_prefix: String,
    pub(crate) log_file_rotation: Option<Rotation>,
    pub(crate) log_file_backups: usize,
    pub(crate) log_server_address: Option<String>,
    pub(crate) filter: Option<String>,
}

/// Mathematical model of a [`TracingInit`] value.
#[verifier::ext_equal]
pub ghost struct ConfigView {
    pub app_name: Seq<char>,
    pub enable_console: Option<bool>,
    pub enable_log_file: Option<bool>,
    pub enable_log_server: Option<bool>,
    pub level: Option<Level>,
    pub log_file_path: Option<Seq<char>>,
    pub log_file_prefix: Seq<char>,
    pub log_file_rotation: Option<Rotation>,
    pub log_file_backups: usize,
    pub log_server_address: Option<Seq<char>>,
    pub filter: Option<Seq<char>>,
}

impl View for TracingInit {
    type V = ConfigView;

    open(crate) spec fn view(&self) -> ConfigView {
        ConfigView {
            app_name: self.app_name@,
            enable_console: self.enable_console,
            enable_log_file: self.enable_log_file,
            enable_log_server: self.enable_log_server,
            level: self.level,
            log_file_path: match self.log_file_path {
                Some(ref p) => Some(p@),
                None => None,
            },
            log_file_prefix: self.log_file_prefix@,
            log_file_rotation: self.log_file_rotation,
            log_file_backups: self.log_file_backups,
            log_server_address: match self.log_server_address {
                Some(ref a) => Some(a@),
                None => None,
            },
            filter: match self.filter {
                Some(ref f) => Some(f@),
                None => None,
            },
        }
    }
}

/// The environment-variable values that resolution reads, captured as plain
/// optional strings.  `None` stands for an absent variable.
#[derive(Clone, Debug)]
pub struct EnvSnapshot {
    /// Value of `LOG_DESTINATION`.
    pub log_destination: Option<String>,
    /// Value of `LOG_FILE_PATH`.
    pub log_file_path: Option<String>,
    /// Value of `LOG_FILE_ROTATION`.
    pub log_file_rotation: Option<String>,
    /// Value of `LOG_SERVER`.
    pub log_server: Option<String>,
    /// Value of `LOG_LEVEL`.
    pub log_level: Option<String>,
}

/// Mathematical model of an [`EnvSnapshot`].
#[verifier::ext_equal]
pub ghost struct EnvView {
    pub log_destination: Option<Seq<char>>,
    pub log_file_path: Option<Seq<char>>,
    pub log_file_rotation: Option<Seq<char>>,
    pub log_server: Option<Seq<char>>,
    pub log_level: Option<Seq<char>>,
}

impl View for EnvSnapshot {
    type V = EnvView;

    open(crate) spec fn view(&self) -> EnvView {
        EnvView {
            log_destination: match self.log_destination {
                Some(ref s) => Some(s@),
                None => None,
            },
            log_file_path: match self.log_file_path {
                Some(ref s) => Some(s@),
                None => None,
            },
            log_file_rotation: match self.log_file_rotation {
                Some(ref s) => Some(s@),
                None => None,
            },
            log_server: match self.log_server {
                Some(ref s) => Some(s@),
                None => None,
            },
            log_level: match self.log_level {
                Some(ref s) => Some(s@),
                None => None,
            },
        }
    }
}

impl EnvSnapshot {
    /// A snapshot in which every variable is absent.
    pub fn empty() -> (r: EnvSnapshot)
        ensures
            r@.log_destination is None,
            r@.log_file_path is None,
            r@.log_file_rotation is None,
            r@.log_server is None,
            r@.log_level is None,
    {
        EnvSnapshot {
            log_destination: None,
            log_file_path: None,
            log_file_rotation: None,
            log_server: None,
            log_level: None,
        }
    }
}

impl TracingInit {
    /// Create a configuration with every optional field unset.  The file
    /// prefix starts as the application name and the backup count as 3.
    pub fn builder(app_name: &str) -> (r: TracingInit)
        ensures
            r@.app_name == app_name@,
            r@.enable_console is None,
            r@.enable_log_file is None,
            r@.enable_log_server is None,
            r@.level is None,
            r@.log_file_path is None,
            r@.log_file_prefix == app_name@,
            r@.log_file_rotation is None,
            r@.log_file_backups == 3usize,
            r@.log_server_address is None,
            r@.filter is None,
    {
        TracingInit {
            app_name: String::from_str(app_name),
            enable_console: None,
            enable_log_file: None,
            enable_log_server: None,
            level: None,
            log_file_path: None,
            log_file_prefix: String::from_str(app_name),
            log_file_rotation: None,
            log_file_backups: 3,
            log_server_address: None,
            filter: None,
        }
    }

    /// Explicitly enable or disable the console sink.
    pub fn log_to_console(&mut self, v: bool)
        ensures
            final(self)@ == (ConfigView { enable_console: Some(v), ..old(self)@ }),
    {
        self.enable_console = Some(v);
        proof {
            assert(self@ =~= (ConfigView { enable_console: Some(v), ..old(self)@ }));
        }
    }

    /// Explicitly enable or disable the rotating-file sink.
    pub fn log_to_file(&mut self, v: bool)
        ensures
            final(self)@ == (ConfigView { enable_log_file: Some(v), ..old(self)@ }),
    {
        self.enable_log_file = Some(v);
        proof {
            assert(self@ =~= (ConfigView { enable_log_file: Some(v), ..old(self)@ }));
        }
    }

    /// Explicitly enable or disable the remote-server sink.
    pub fn log_to_server(&mut self, v: bool)
        ensures
            final(self)@ == (ConfigView { enable_log_server: Some(v), ..old(self)@ }),
    {
        self.enable_log_server = Some(v);
        proof {
            assert(self@ =~= (ConfigView { enable_log_server: Some(v), ..old(self)@ }));
        }
    }

    /// Explicitly set the default severity level.
    pub fn level(&mut self, level: Level)
        ensures
            final(self)@ == (ConfigView { level: Some(level), ..old(self)@ }),
    {
        self.level = Some(level);
        proof {
            assert(self@ =~= (ConfigView { level: Some(level), ..old(self)@ }));
        }
    }

    /// Explicitly set a filter expression; it subsumes level-based filtering.
    pub fn filter(&mut self, filter: &str)
        ensures
            final(self)@ == (ConfigView { filter: Some(filter@), ..old(self)@ }),
    {
        self.filter = Some(String::from_str(filter));
        proof {
            assert(self@ =~= (ConfigView { filter: Some(filter@), ..old(self)@ }));
        }
    }

    /// Explicitly set the directory the log file is written under.
    pub fn log_file_path(&mut self, path: &str)
        ensures
            final(self)@ == (ConfigView { log_file_path: Some(path@), ..old(self)@ }),
    {
        self.log_file_path = Some(String::from_str(path));
        proof {
            assert(self@ =~= (ConfigView { log_file_path: Some(path@), ..old(self)@ }));
        }
    }

    /// Explicitly set the log file name prefix.
    pub fn log_file_prefix(&mut self, prefix: &str)
        ensures
            final(self)@ == (ConfigView { log_file_prefix: prefix@, ..old(self)@ }),
    {
        self.log_file_prefix = String::from_str(prefix);
        proof {
            assert(self@ =~= (ConfigView { log_file_prefix: prefix@, ..old(self)@ }));
        }
    }

    /// Explicitly set the log file rotation policy.
    pub fn log_file_rotation(&mut self, rotation: Rotation)
        ensures
            final(self)@ == (ConfigView { log_file_rotation: Some(rotation), ..old(self)@ }),
    {
        self.log_file_rotation = Some(rotation);
        proof {
            assert(self@ =~= (ConfigView { log_file_rotation: Some(rotation), ..old(self)@ }));
        }
    }

    /// Set how many rotated log files are retained.  The count matters only
    /// when the rotation policy is not [`Rotation::Never`]; it is kept either
    /// way.
    pub fn log_file_backups(&mut self, backups: usize)
        ensures
            final(self)@ == (ConfigView { log_file_backups: backups, ..old(self)@ }),
    {
        self.log_file_backups = backups;
        proof {
            assert(self@ =~= (ConfigView { log_file_backups: backups, ..old(self)@ }));
        }
    }

    /// Explicitly set the `host:port` address of the log server.
    pub fn log_server_address(&mut self, name: &str)
        ensures
            final(self)@ == (ConfigView { log_server_address: Some(name@), ..old(self)@ }),
    {
        self.log_server_address = Some(String::from_str(name));
        proof {
            assert(self@ =~= (ConfigView { log_server_address: Some(name@), ..old(self)@ }));
        }
    }
}

} // verus!
