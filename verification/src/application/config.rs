//! Runtime application configuration.
use vstd::prelude::*;
use crate::application::load_status::{fresh_status, Format, LoadStatus, LoadStatusView};
use crate::application::trace::TraceConfig;

verus! {

/// The default path to look for the `Config` file, relative to the app root.
pub const DEFAULT_CONFIG_PATH: &'static str = ".stall-config";

/// The default path to look for the `Prefs` file, relative to the app root.
pub const DEFAULT_PREFS_PATH: &'static str = ".stall-preferences";

/// The default format for the config file.
pub open spec fn default_config_format() -> Format {
    Format::Toml
}

/// The default format for the prefs file.
pub open spec fn default_prefs_format_spec() -> Format {
    Format::Toml
}

/// Application configuration data: the trace settings and where the
/// preferences are found.
#[derive(Debug, Clone)]
pub struct Config {
    /// The Config file's load status.
    pub load_status: LoadStatus,
    /// The trace configuration.
    pub trace_config: TraceConfig,
    /// The default format for the prefs file.
    pub prefs_format: Format,
    /// The path for the prefs file.
    pub prefs_path: String,
}

impl Config {
    /// The load status of the configuration.
    pub open spec fn status(&self) -> LoadStatusView {
        self.load_status@
    }

    /// Constructs a new `Config` with the default options.
    pub fn new() -> (r: Self)
        ensures
            r.status() == (LoadStatusView {
                format: Some(default_config_format()),
                ..fresh_status()
            }),
            r.trace_config.is_default(),
            r.prefs_format == default_prefs_format_spec(),
            r.prefs_path@ == DEFAULT_PREFS_PATH@,
    {
        Config {
            load_status: LoadStatus::new().with_format(Format::Toml),
            trace_config: Self::default_trace_config(),
            prefs_format: Self::default_prefs_format(),
            prefs_path: Self::default_prefs_path(),
        }
    }

    /// Sets the load path and returns the `Config`.
    pub fn with_load_path(self, path: &str) -> (r: Self)
        ensures
            r.status() == (LoadStatusView { load_path: Some(path@), ..self.status() }),
            r.trace_config == self.trace_config,
            r.prefs_format == self.prefs_format,
            r.prefs_path == self.prefs_path,
    {
        let mut c = self;
        c.set_load_path(path);
        c
    }

    /// Sets the file format and returns the `Config`.
    pub fn with_format(self, format: Format) -> (r: Self)
        ensures
            r.status() == (LoadStatusView { format: Some(format), ..self.status() }),
            r.trace_config == self.trace_config,
            r.prefs_format == self.prefs_format,
            r.prefs_path == self.prefs_path,
    {
        let mut c = self;
        c.set_format(format);
        c
    }

    /// Returns the load path.
    pub fn load_path(&self) -> (r: Option<&str>)
        ensures
            match r {
                Some(p) => self.status().load_path == Some(p@),
                None => self.status().load_path is None,
            },
    {
        self.load_status.load_path()
    }

    /// Returns the modification flag.
    pub fn modified(&self) -> (r: bool)
        ensures
            r == self.status().modified,
    {
        self.load_status.modified()
    }

    /// Returns the file format.
    pub fn format(&self) -> (r: Option<Format>)
        ensures
            r == self.status().format,
    {
        self.load_status.format()
    }

    /// Sets the load path.
    pub fn set_load_path(&mut self, path: &str)
        ensures
            final(self).status() == (LoadStatusView {
                load_path: Some(path@),
                ..old(self).status()
            }),
            final(self).trace_config == old(self).trace_config,
            final(self).prefs_format == old(self).prefs_format,
            final(self).prefs_path == old(self).prefs_path,
    {
        self.load_status.set_load_path(path);
    }

    /// Sets the modification flag.
    pub fn set_modified(&mut self, modified: bool)
        ensures
            final(self).status() == (LoadStatusView { modified, ..old(self).status() }),
            final(self).trace_config == old(self).trace_config,
            final(self).prefs_format == old(self).prefs_format,
            final(self).prefs_path == old(self).prefs_path,
    {
        self.load_status.set_modified(modified);
    }

    /// Sets the file format.
    pub fn set_format(&mut self, format: Format)
        ensures
            final(self).status() == (LoadStatusView { format: Some(format), ..old(self).status() }),
            final(self).trace_config == old(self).trace_config,
            final(self).prefs_format == old(self).prefs_format,
            final(self).prefs_path == old(self).prefs_path,
    {
        self.load_status.set_format(format);
    }

    /// Returns the default trace configuration.
    fn default_trace_config() -> (r: TraceConfig)
        ensures
            r.is_default(),
    {
        TraceConfig::new()
    }

    /// Returns the default prefs format.
    fn default_prefs_format() -> (r: Format)
        ensures
            r == default_prefs_format_spec(),
    {
        Format::Toml
    }

    /// Returns the default prefs file path.
    fn default_prefs_path() -> (r: String)
        ensures
            r@ == DEFAULT_PREFS_PATH@,
    {
        DEFAULT_PREFS_PATH.to_owned()
    }
}

impl Default for Config {
    fn default() -> (r: Self)
        ensures
            r.status() == (LoadStatusView {
                format: Some(default_config_format()),
                ..fresh_status()
            }),
            r.trace_config.is_default(),
            r.prefs_format == default_prefs_format_spec(),
            r.prefs_path@ == DEFAULT_PREFS_PATH@,
    {
        Self::new()
    }
}

} // verus!
