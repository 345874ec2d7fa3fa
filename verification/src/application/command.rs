//! Command line options.
use vstd::prelude::*;
use crate::text::{eq_ignore_ascii_case, eq_ignore_ascii_case_spec};

verus! {

/// Color output options.
#[derive(Debug, Clone, Copy, PartialEq, Eq, Structural)]
pub enum ColorOption {
    /// Color usage is determined from environment variables and TTY usage.
    Auto,
    /// Color output should always be generated.
    Always,
    /// Color output should never be generated.
    Never,
}

/// An error indicating a failure to parse a `ColorOption`.
#[derive(Debug, Clone, Copy, PartialEq, Eq, Structural)]
pub struct ColorOptionParseError;

/// `colored::control::SHOULD_COLORIZE.should_colorize()`: whether the
/// environment and terminal call for colored output. Nothing is claimed of
/// the result, which depends on the process environment.
#[verifier::external_body]
fn environment_wants_color() -> bool {
    colored::control::SHOULD_COLORIZE.should_colorize()
}

impl ColorOption {
    /// Whether colored output is used, given the environment's own decision
    /// `auto_decision` for `Auto`.
    pub fn enabled_given(&self, auto_decision: bool) -> (r: bool)
        ensures
            r == match self {
                ColorOption::Auto => auto_decision,
                ColorOption::Always => true,
                ColorOption::Never => false,
            },
    {
        match self {
            ColorOption::Auto => auto_decision,
            ColorOption::Always => true,
            ColorOption::Never => false,
        }
    }

    /// Returns true if colored output should be used; `Auto` defers to the
    /// environment variables and TTY detection of the `colored` crate.
    pub fn enabled(&self) -> (r: bool)
        ensures
            *self == ColorOption::Always ==> r,
            *self == ColorOption::Never ==> !r,
    {
        match self {
            ColorOption::Auto => self.enabled_given(environment_wants_color()),
            _ => self.enabled_given(false),
        }
    }

    /// Parses a `ColorOption` from its name (`auto`, `always` or `never`) in
    /// any ASCII case.
    pub fn from_str(s: &str) -> (r: Result<Self, ColorOptionParseError>)
        ensures
            r == (if eq_ignore_ascii_case_spec(s@, "auto"@) {
                Ok::<ColorOption, ColorOptionParseError>(ColorOption::Auto)
            } else if eq_ignore_ascii_case_spec(s@, "always"@) {
                Ok(ColorOption::Always)
            } else if eq_ignore_ascii_case_spec(s@, "never"@) {
                Ok(ColorOption::Never)
            } else {
                Err(ColorOptionParseError)
            }),
    {
        if eq_ignore_ascii_case(s, "auto") {
            Ok(ColorOption::Auto)
        } else if eq_ignore_ascii_case(s, "always") {
            Ok(ColorOption::Always)
        } else if eq_ignore_ascii_case(s, "never") {
            Ok(ColorOption::Never)
        } else {
            Err(ColorOptionParseError)
        }
    }
}

/// The base level of trace output.
#[derive(Debug, Clone, Copy, PartialEq, Eq, Structural)]
pub enum TraceLevel {
    /// Everything, down to trace messages.
    Trace,
    /// Informational messages and above.
    Info,
    /// Warnings and errors only.
    Warn,
}

/// Command line interface options.
#[derive(Debug, Clone)]
pub struct CliOpts {
    /// The application configuration file to load.
    pub config: Option<String>,
    /// The user preferences file to load.
    pub prefs: Option<String>,
    /// When to color output.
    pub color: ColorOption,
    /// Provide more detailed messages.
    pub verbose: bool,
    /// Silence all non-error program output.
    pub quiet: bool,
    /// Print trace messages.
    pub trace: bool,
    /// Fail immediately when an input source cannot be processed.
    pub fail_on_error: bool,
    /// Skip processing any non-normal files.
    pub normal_only: bool,
    /// Scan the contents of provided directories for additional input
    /// sources.
    pub expand_directories: bool,
    /// Skip processing of provided directories.
    pub no_expand_directories: bool,
    /// Scan the contents of discovered directories recursively.
    pub expand_recursive: bool,
    /// The input data sources.
    pub files: Vec<String>,
}

impl CliOpts {
    /// Settles the directory options: `no_expand_directories` turns
    /// directory expansion off, and recursion needs directory expansion.
    pub fn resolve_directory_flags(&mut self)
        ensures
            final(self).expand_directories == (old(self).expand_directories
                && !old(self).no_expand_directories),
            final(self).expand_recursive == (old(self).expand_recursive
                && final(self).expand_directories),
            final(self).no_expand_directories == old(self).no_expand_directories,
            final(self).verbose == old(self).verbose,
            final(self).quiet == old(self).quiet,
            final(self).trace == old(self).trace,
            final(self).fail_on_error == old(self).fail_on_error,
            final(self).normal_only == old(self).normal_only,
            final(self).color == old(self).color,
            final(self).config == old(self).config,
            final(self).prefs == old(self).prefs,
            final(self).files == old(self).files,
    {
        if self.no_expand_directories {
            self.expand_directories = false;
        }
        if !self.expand_directories {
            self.expand_recursive = false;
        }
    }

    /// The base trace level: trace when asked for, else warnings when
    /// quiet, else informational messages when verbose, else warnings.
    pub fn base_trace_level(&self) -> (r: TraceLevel)
        ensures
            r == (if self.trace {
                TraceLevel::Trace
            } else if self.quiet {
                TraceLevel::Warn
            } else if self.verbose {
                TraceLevel::Info
            } else {
                TraceLevel::Warn
            }),
    {
        if self.trace {
            TraceLevel::Trace
        } else if self.quiet {
            TraceLevel::Warn
        } else if self.verbose {
            TraceLevel::Info
        } else {
            TraceLevel::Warn
        }
    }
}

} // verus!
