//! The order in which input sources are visited, and what is done with each.
//!
//! The walk hands out one item at a time: a path to open, or the report of a
//! directory listing that failed part way. Whoever performs the I/O tells the
//! walk what a directory holds, and asks `path_action` and `failure_action`
//! what to do with what it found.
use vstd::prelude::*;
use crate::application::command::CliOpts;

verus! {

/// What an opened path is.
#[derive(Debug, Clone, Copy, PartialEq, Eq, Structural)]
pub enum PathKind {
    /// A directory.
    Directory,
    /// A normal file.
    File,
    /// Anything else.
    Other,
}

/// What to do with an opened path.
#[derive(Debug, Clone, Copy, PartialEq, Eq, Structural)]
pub enum PathAction {
    /// Visit the entries of the directory.
    ExpandDirectory,
    /// Read the path's contents as an input source.
    ReadFile,
    /// Leave the path alone.
    Skip,
}

/// What to do when an input source cannot be processed.
#[derive(Debug, Clone, Copy, PartialEq, Eq, Structural)]
pub enum FailureAction {
    /// Stop with the failure.
    Abort,
    /// Record the failure and go on.
    Record,
}

/// Decides what to do with an opened path: a directory is expanded when it
/// was named directly and directories are expanded, or when it was found in
/// a directory and expansion is recursive; anything not expanded is read when
/// it is a normal file or when non-normal files are not skipped.
pub fn path_action(opts: &CliOpts, kind: PathKind, in_expanded_dir: bool) -> (r: PathAction)
    ensures
        r == (if kind == PathKind::Directory && ((opts.expand_recursive && in_expanded_dir) || (
        opts.expand_directories && !in_expanded_dir)) {
            PathAction::ExpandDirectory
        } else if kind == PathKind::File || !opts.normal_only {
            PathAction::ReadFile
        } else {
            PathAction::Skip
        }),
{
    if kind == PathKind::Directory && ((opts.expand_recursive && in_expanded_dir) || (
    opts.expand_directories && !in_expanded_dir)) {
        PathAction::ExpandDirectory
    } else if kind == PathKind::File || !opts.normal_only {
        PathAction::ReadFile
    } else {
        PathAction::Skip
    }
}

/// Decides what a failure does: it stops everything when failing on error
/// is asked for, and is recorded otherwise.
pub fn failure_action(opts: &CliOpts) -> (r: FailureAction)
    ensures
        r == (if opts.fail_on_error {
            FailureAction::Abort
        } else {
            FailureAction::Record
        }),
{
    if opts.fail_on_error {
        FailureAction::Abort
    } else {
        FailureAction::Record
    }
}

/// An item of the walk.
#[derive(Debug, Clone)]
pub enum WalkItem {
    /// A path to open; `in_expanded_dir` tells whether it was found in an
    /// expanded directory rather than named directly.
    Source {
        /// The path.
        path: String,
        /// Whether the path was found in an expanded directory.
        in_expanded_dir: bool,
    },
    /// A directory listing stopped on an entry that could not be read.
    ListingFailure,
}

/// A walk item as a value.
pub enum WalkItemView {
    /// A path to open.
    Source {
        /// The path.
        path: Seq<char>,
        /// Whether the path was found in an expanded directory.
        in_expanded_dir: bool,
    },
    /// A directory listing stopped on an entry that could not be read.
    ListingFailure,
}

impl View for WalkItem {
    type V = WalkItemView;

    open spec fn view(&self) -> WalkItemView {
        match self {
            WalkItem::Source { path, in_expanded_dir } => WalkItemView::Source {
                path: path@,
                in_expanded_dir: *in_expanded_dir,
            },
            WalkItem::ListingFailure => WalkItemView::ListingFailure,
        }
    }
}

/// The paths as walk items, found in an expanded directory or not.
pub open spec fn sources_view(paths: Seq<String>, in_expanded_dir: bool) -> Seq<WalkItemView> {
    paths.map_values(
        |p: String| WalkItemView::Source { path: p@, in_expanded_dir: in_expanded_dir },
    )
}

/// A depth-first walk over input sources: the entries of a directory are
/// visited, in the order listed, before whatever followed the directory.
#[derive(Debug, Clone)]
pub struct SourceWalk {
    /// The items still to visit, the next one last.
    pending: Vec<WalkItem>,
}

impl SourceWalk {
    /// The items still to visit, in the order they will come.
    pub closed spec fn queue(&self) -> Seq<WalkItemView> {
        Seq::new(self.pending@.len(), |k: int| self.pending@[self.pending@.len() - 1 - k]@)
    }

    /// A walk over the named paths, in order.
    pub fn new(paths: Vec<String>) -> (r: Self)
        ensures
            r.queue() == sources_view(paths@, false),
    {
        let mut pending: Vec<WalkItem> = Vec::new();
        let mut paths = paths;
        let ghost all = paths@;
        while paths.len() > 0
            invariant
                paths@ == all.take(paths@.len() as int),
                paths@.len() <= all.len(),
                pending@.len() == all.len() - paths@.len(),
                forall|k: int|
                    0 <= k < pending@.len() ==> (#[trigger] pending@[k])@ == (WalkItemView::Source {
                        path: all[all.len() - 1 - k]@,
                        in_expanded_dir: false,
                    }),
            decreases paths@.len(),
        {
            let p = paths.pop().unwrap();
            proof {
                assert(paths@ =~= all.take(paths@.len() as int));
            }
            pending.push(WalkItem::Source { path: p, in_expanded_dir: false });
        }
        let r = SourceWalk { pending };
        assert(r.queue() =~= sources_view(all, false));
        r
    }

    /// Whether the walk is over.
    pub fn is_done(&self) -> (r: bool)
        ensures
            r == (self.queue().len() == 0),
    {
        self.pending.len() == 0
    }

    /// Takes the next item of the walk; `None` when the walk is over.
    pub fn next_item(&mut self) -> (r: Option<WalkItem>)
        ensures
            old(self).queue().len() == 0 ==> r is None && final(self).queue() == old(self).queue(),
            old(self).queue().len() > 0 ==> (r matches Some(item) && item@ == old(self).queue()[0])
                && final(self).queue() == old(self).queue().drop_first(),
    {
        let r = self.pending.pop();
        proof {
            if old(self).pending@.len() > 0 {
                assert(self.queue() =~= old(self).queue().drop_first());
            } else {
                assert(self.queue() =~= old(self).queue());
            }
        }
        r
    }

    /// Puts the entries listed in a directory first in the walk, in order,
    /// followed by the report of a listing that stopped on a failure.
    pub fn push_listing(&mut self, entries: Vec<String>, failed: bool)
        ensures
            final(self).queue() == sources_view(entries@, true) + (if failed {
                seq![WalkItemView::ListingFailure]
            } else {
                Seq::<WalkItemView>::empty()
            }) + old(self).queue(),
    {
        let ghost tail = if failed {
            seq![WalkItemView::ListingFailure]
        } else {
            Seq::<WalkItemView>::empty()
        };
        if failed {
            self.pending.push(WalkItem::ListingFailure);
        }
        proof {
            assert(self.queue() =~= tail + old(self).queue());
        }
        let ghost base = self.queue();
        let mut entries = entries;
        let ghost all = entries@;
        while entries.len() > 0
            invariant
                entries@ == all.take(entries@.len() as int),
                entries@.len() <= all.len(),
                self.queue() == sources_view(all.skip(entries@.len() as int), true) + base,
            decreases entries@.len(),
        {
            let ghost q = self.queue();
            let p = entries.pop().unwrap();
            proof {
                assert(entries@ =~= all.take(entries@.len() as int));
            }
            self.pending.push(WalkItem::Source { path: p, in_expanded_dir: true });
            proof {
                assert(all.skip(entries@.len() as int) =~= seq![all[entries@.len() as int]]
                    + all.skip(entries@.len() as int + 1));
                assert(self.queue() =~= seq![
                    WalkItemView::Source { path: p@, in_expanded_dir: true },
                ] + q);
                assert(sources_view(all.skip(entries@.len() as int), true) =~= seq![
                    WalkItemView::Source { path: p@, in_expanded_dir: true },
                ] + sources_view(all.skip(entries@.len() as int + 1), true));
            }
        }
        proof {
            assert(all.skip(0) =~= all);
        }
    }
}

} // verus!
