//! User preferences.
use vstd::prelude::*;
use crate::application::load_status::{fresh_status, LoadStatus, LoadStatusView};

verus! {

/// User preferences.
#[derive(Debug, Clone)]
pub struct Prefs {
    /// The Prefs file's load status.
    load_status: LoadStatus,
}

impl Prefs {
    /// The load status of the preferences.
    pub closed spec fn status(&self) -> LoadStatusView {
        self.load_status@
    }

    /// Constructs a new `Prefs` with the default options.
    pub fn new() -> (r: Self)
        ensures
            r.status() == fresh_status(),
    {
        Prefs { load_status: LoadStatus::new() }
    }

    /// Returns the given `Prefs` with the given load path.
    pub fn with_load_path(self, path: &str) -> (r: Self)
        ensures
            r.status() == (LoadStatusView { load_path: Some(path@), ..self.status() }),
    {
        let mut p = self;
        p.set_load_path(path);
        p
    }

    /// Returns the `Prefs`'s load path.
    pub fn load_path(&self) -> (r: Option<&str>)
        ensures
            match r {
                Some(p) => self.status().load_path == Some(p@),
                None => self.status().load_path is None,
            },
    {
        self.load_status.load_path()
    }

    /// Sets the `Prefs`'s load path.
    pub fn set_load_path(&mut self, path: &str)
        ensures
            final(self).status() == (LoadStatusView {
                load_path: Some(path@),
                ..old(self).status()
            }),
    {
        self.load_status.set_load_path(path);
    }

    /// Returns true if the Prefs was modified.
    pub fn modified(&self) -> (r: bool)
        ensures
            r == self.status().modified,
    {
        self.load_status.modified()
    }

    /// Sets the Prefs modification flag.
    pub fn set_modified(&mut self, modified: bool)
        ensures
            final(self).status() == (LoadStatusView { modified, ..old(self).status() }),
    {
        self.load_status.set_modified(modified);
    }
}

impl Default for Prefs {
    fn default() -> (r: Self)
        ensures
            r.status() == fresh_status(),
    {
        Self::new()
    }
}

} // verus!
