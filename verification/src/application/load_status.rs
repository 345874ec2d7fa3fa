//! File source and modification tracking.
use vstd::prelude::*;

verus! {

/// The loaded file format.
#[derive(Debug, Clone, Copy, PartialEq, Eq, Hash, Structural)]
pub enum Format {
    /// RON format.
    Ron,
    /// TOML format.
    Toml,
}

/// Structure for tracking a file's load status.
#[derive(Debug, Clone)]
pub struct LoadStatus {
    /// The path the data was initially loaded from.
    load_path: Option<String>,
    /// Whether the data has been modified since last save.
    modified: bool,
    /// The loaded file format.
    format: Option<Format>,
}

/// The state of a `LoadStatus`.
pub struct LoadStatusView {
    /// The path the data was loaded from.
    pub load_path: Option<Seq<char>>,
    /// Whether the data has been modified since last save.
    pub modified: bool,
    /// The loaded file format.
    pub format: Option<Format>,
}

impl View for LoadStatus {
    type V = LoadStatusView;

    closed spec fn view(&self) -> LoadStatusView {
        LoadStatusView {
            load_path: match self.load_path {
                Some(p) => Some(p@),
                None => None,
            },
            modified: self.modified,
            format: self.format,
        }
    }
}

/// The state of a new `LoadStatus`: no path, unmodified, no format.
pub open spec fn fresh_status() -> LoadStatusView {
    LoadStatusView { load_path: None, modified: false, format: None }
}

impl Default for LoadStatus {
    fn default() -> (r: Self)
        ensures
            r@ == fresh_status(),
    {
        Self::new()
    }
}

impl LoadStatus {
    /// Constructs a new `LoadStatus`.
    pub fn new() -> (r: Self)
        ensures
            r@ == fresh_status(),
    {
        LoadStatus { load_path: None, modified: false, format: None }
    }

    /// Sets the load path and returns the `LoadStatus`.
    pub fn with_load_path(self, path: &str) -> (r: Self)
        ensures
            r@ == (LoadStatusView { load_path: Some(path@), ..self@ }),
    {
        let mut s = self;
        s.set_load_path(path);
        s
    }

    /// Sets the modification flag and returns the `LoadStatus`.
    pub fn with_modified(self, modified: bool) -> (r: Self)
        ensures
            r@ == (LoadStatusView { modified, ..self@ }),
    {
        let mut s = self;
        s.set_modified(modified);
        s
    }

    /// Sets the format and returns the `LoadStatus`.
    pub fn with_format(self, format: Format) -> (r: Self)
        ensures
            r@ == (LoadStatusView { format: Some(format), ..self@ }),
    {
        let mut s = self;
        s.set_format(format);
        s
    }

    /// Returns the `LoadStatus`'s load path.
    pub fn load_path(&self) -> (r: Option<&str>)
        ensures
            match r {
                Some(p) => self@.load_path == Some(p@),
                None => self@.load_path is None,
            },
    {
        match &self.load_path {
            Some(p) => Some(p.as_str()),
            None => None,
        }
    }

    /// Returns the value of the modification flag.
    pub fn modified(&self) -> (r: bool)
        ensures
            r == self@.modified,
    {
        self.modified
    }

    /// Returns the file format.
    pub fn format(&self) -> (r: Option<Format>)
        ensures
            r == self@.format,
    {
        self.format
    }

    /// Clears the `LoadStatus`'s load path.
    pub fn clear_load_path(&mut self)
        ensures
            final(self)@ == (LoadStatusView { load_path: None, ..old(self)@ }),
    {
        self.load_path = None;
    }

    /// Sets the `LoadStatus`'s load path.
    pub fn set_load_path(&mut self, path: &str)
        ensures
            final(self)@ == (LoadStatusView { load_path: Some(path@), ..old(self)@ }),
    {
        self.load_path = Some(path.to_owned());
    }

    /// Sets the modification flag.
    pub fn set_modified(&mut self, modified: bool)
        ensures
            final(self)@ == (LoadStatusView { modified, ..old(self)@ }),
    {
        self.modified = modified;
    }

    /// Sets the file format.
    pub fn set_format(&mut self, format: Format)
        ensures
            final(self)@ == (LoadStatusView { format: Some(format), ..old(self)@ }),
    {
        self.format = Some(format);
    }
}

} // verus!
