//! Tracing configuration.
use vstd::prelude::*;

verus! {

/// The environment variable read for trace filter directives.
pub const TRACE_ENV_VAR: &'static str = "STALL_TRACE";

/// Default setting for ANSI color usage.
pub const DEFAULT_ANSI_COLORS: bool = true;

/// The default trace filter directive.
pub const DEFAULT_TRACE_FILTER: &'static str = "stall=WARN";

/// Tracing configuration parameters.
#[derive(Clone, Debug)]
pub struct TraceConfig {
    /// Trace level filters.
    pub filters: Vec<String>,
    /// The trace output path. If None, the trace will not be written to file.
    pub trace_output_path: Option<String>,
    /// Whether to write trace output to stdout.
    pub output_stdout: bool,
    /// Whether to use ANSI coloring in the output.
    pub ansi_colors: bool,
}

impl TraceConfig {
    /// The settings are the defaults: the default filter alone, no output
    /// file, no stdout output, ANSI colors on.
    pub open spec fn is_default(&self) -> bool {
        &&& self.filters@.len() == 1
        &&& self.filters@[0]@ == DEFAULT_TRACE_FILTER@
        &&& self.trace_output_path is None
        &&& !self.output_stdout
        &&& self.ansi_colors == DEFAULT_ANSI_COLORS
    }

    /// Returns a new `TraceConfig` with the default settings.
    pub fn new() -> (r: Self)
        ensures
            r.is_default(),
    {
        TraceConfig {
            filters: Self::default_filters(),
            trace_output_path: Self::default_trace_output_path(),
            output_stdout: false,
            ansi_colors: Self::default_ansi_colors(),
        }
    }

    /// Returns the default value for filters.
    fn default_filters() -> (r: Vec<String>)
        ensures
            r@.len() == 1,
            r@[0]@ == DEFAULT_TRACE_FILTER@,
    {
        let mut v = Vec::new();
        v.push(DEFAULT_TRACE_FILTER.to_owned());
        v
    }

    /// Returns the default trace output path.
    fn default_trace_output_path() -> (r: Option<String>)
        ensures
            r is None,
    {
        None
    }

    /// Returns the default setting for ANSI color usage.
    fn default_ansi_colors() -> (r: bool)
        ensures
            r == DEFAULT_ANSI_COLORS,
    {
        DEFAULT_ANSI_COLORS
    }
}

impl Default for TraceConfig {
    fn default() -> (r: Self)
        ensures
            r.is_default(),
    {
        Self::new()
    }
}

} // verus!
