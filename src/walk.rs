use vstd::prelude::*;
use crate::filter::{canonical_if_image, get_canonical_path_if_image, EntryInfo};

verus! {

/// What listing one directory gave: the entries read, and whether the listing
/// ran to its end (`false` where opening the directory or reading an entry
/// failed; `entries` then holds those read before the failure).
#[derive(Clone, Debug)]
pub struct DirListing {
    pub entries: Vec<EntryInfo>,
    pub complete: bool,
}

/// The eligible image paths among the entries, in order. Directories are
/// never candidates themselves.
pub open spec fn found_in(entries: Seq<EntryInfo>) -> Seq<String>
    decreases entries.len(),
{
    if entries.len() == 0 {
        Seq::empty()
    } else {
        let prev = found_in(entries.drop_last());
        let e = entries.last();
        if !e.is_dir && canonical_if_image(e) is Some {
            prev.push(canonical_if_image(e)->Some_0)
        } else {
            prev
        }
    }
}

/// The paths of the subdirectories among the entries, in order.
pub open spec fn subdirs_in(entries: Seq<EntryInfo>) -> Seq<String>
    decreases entries.len(),
{
    if entries.len() == 0 {
        Seq::empty()
    } else {
        let prev = subdirs_in(entries.drop_last());
        let e = entries.last();
        if e.is_dir {
            prev.push(e.path)
        } else {
            prev
        }
    }
}

/// Whether an entry is an eligible image file seen by the walk.
pub open spec fn is_found(e: EntryInfo) -> bool {
    !e.is_dir && canonical_if_image(e) is Some
}

/// The images found in a listing are exactly its eligible entries, in
/// order and each once, given by their canonical paths; so their number is
/// the number of eligible entries, whatever else the listing holds.
pub proof fn lemma_found_are_eligible(entries: Seq<EntryInfo>)
    ensures
        found_in(entries) == entries.filter(|e: EntryInfo| is_found(e)).map_values(
            |e: EntryInfo| canonical_if_image(e)->Some_0,
        ),
        found_in(entries).len() == entries.filter(|e: EntryInfo| is_found(e)).len(),
    decreases entries.len(),
{
    reveal(Seq::filter);
    let pred = |e: EntryInfo| is_found(e);
    let f = |e: EntryInfo| canonical_if_image(e)->Some_0;
    if entries.len() > 0 {
        lemma_found_are_eligible(entries.drop_last());
        let sub = entries.drop_last().filter(pred);
        assert(sub.push(entries.last()).map_values(f) =~= sub.map_values(f).push(
            f(entries.last()),
        ));
    }
    assert(found_in(entries) =~= entries.filter(pred).map_values(f));
}

/// Finding images distributes over listings taken in turn.
pub proof fn lemma_found_in_concat(a: Seq<EntryInfo>, b: Seq<EntryInfo>)
    ensures
        found_in(a + b) == found_in(a) + found_in(b),
    decreases b.len(),
{
    if b.len() == 0 {
        assert(a + b =~= a);
        assert(found_in(a) + found_in(b) =~= found_in(a));
    } else {
        lemma_found_in_concat(a, b.drop_last());
        assert((a + b).drop_last() =~= a + b.drop_last());
        assert((a + b).last() == b.last());
        let prev = found_in(a) + found_in(b.drop_last());
        assert(prev.push(canonical_if_image(b.last())->Some_0) =~= found_in(a) + found_in(
            b.drop_last(),
        ).push(canonical_if_image(b.last())->Some_0));
    }
}

/// Each image found is the canonical path of an eligible entry: a regular
/// file with a supported extension whose path resolved.
pub proof fn lemma_found_is_eligible(entries: Seq<EntryInfo>, i: int)
    requires
        0 <= i < found_in(entries).len(),
    ensures
        exists|j: int|
            0 <= j < entries.len() && is_found(#[trigger] entries[j]) && found_in(entries)[i]
                == canonical_if_image(entries[j])->Some_0,
    decreases entries.len(),
{
    let prev = found_in(entries.drop_last());
    if i < prev.len() {
        lemma_found_is_eligible(entries.drop_last(), i);
        let j = choose|j: int|
            0 <= j < entries.drop_last().len() && is_found(#[trigger] entries.drop_last()[j])
                && prev[i] == canonical_if_image(entries.drop_last()[j])->Some_0;
        assert(entries[j] == entries.drop_last()[j]);
    } else {
        assert(entries[entries.len() - 1] == entries.last());
    }
}

/// A depth-first walk of a directory tree. The walk names the directory to
/// list next; the caller lists it and hands the listing back. Failure to list
/// the root is fatal; failure to list any other directory only ends that
/// subtree, and its siblings are still visited. A directory reached through
/// a symbolic link is entered like any other; cycles are not detected.
pub struct MediaWalk {
    pending: Vec<String>,
    found: Vec<String>,
    root_is_dir: bool,
    root_listed: bool,
    root_failed: bool,
    listed: Ghost<Seq<EntryInfo>>,
}

/// Why no index could be built.
#[derive(Clone, Copy, Debug, PartialEq, Eq)]
pub enum BuildError {
    NotADirectory,
    EmptyIndex,
    WalkFailed,
}

impl MediaWalk {
    /// Directories still to be listed; the last one is listed next.
    pub closed spec fn pending(&self) -> Seq<String> {
        self.pending@
    }

    /// Image paths found so far.
    pub closed spec fn found(&self) -> Seq<String> {
        self.found@
    }

    /// Every entry of every listing taken in so far, in order.
    pub closed spec fn listed(&self) -> Seq<EntryInfo> {
        self.listed@
    }

    /// The images found are exactly those among the entries listed.
    pub open spec fn wf(&self) -> bool {
        self.found() == found_in(self.listed())
    }

    pub closed spec fn root_is_dir(&self) -> bool {
        self.root_is_dir
    }

    pub closed spec fn root_listed(&self) -> bool {
        self.root_listed
    }

    pub closed spec fn root_failed(&self) -> bool {
        self.root_failed
    }

    /// Nothing is left to list: the root is no directory, could not be
    /// listed, or every directory reached has been listed.
    pub open spec fn is_done(&self) -> bool {
        !self.root_is_dir() || self.root_failed() || self.pending().len() == 0
    }

    /// Starts a walk at `root`; `root_is_dir` tells whether it is a directory.
    pub fn start(root: String, root_is_dir: bool) -> (w: MediaWalk)
        ensures
            w.pending() == seq![root],
            w.found() == Seq::<String>::empty(),
            w.listed() == Seq::<EntryInfo>::empty(),
            w.wf(),
            w.root_is_dir() == root_is_dir,
            !w.root_listed(),
            !w.root_failed(),
    {
        let mut pending: Vec<String> = Vec::new();
        pending.push(root);
        MediaWalk {
            pending,
            found: Vec::new(),
            root_is_dir,
            root_listed: false,
            root_failed: false,
            listed: Ghost(Seq::empty()),
        }
    }

    /// Whether the walk started at a directory.
    pub fn root_was_directory(&self) -> (r: bool)
        ensures
            r == self.root_is_dir(),
    {
        self.root_is_dir
    }

    /// The directory to list next, or nothing once the walk is done.
    pub fn next_directory(&self) -> (r: Option<String>)
        ensures
            self.is_done() ==> r is None,
            !self.is_done() ==> r == Some(self.pending().last()),
    {
        if !self.root_is_dir || self.root_failed || self.pending.len() == 0 {
            None
        } else {
            Some(self.pending[self.pending.len() - 1].clone())
        }
    }

    /// Takes in the listing of the directory that `next_directory` named:
    /// its eligible images join the result, its subdirectories are listed
    /// next, and an incomplete listing is fatal for the root only. An
    /// unreadable subdirectory leaves the walk running, with every sibling
    /// still pending.
    pub fn record(&mut self, listing: &DirListing)
        requires
            !old(self).is_done(),
            old(self).wf(),
        ensures
            final(self).wf(),
            final(self).listed() == old(self).listed() + listing.entries@,
            final(self).found() == old(self).found() + found_in(listing.entries@),
            final(self).pending() == old(self).pending().drop_last() + subdirs_in(
                listing.entries@,
            ),
            final(self).root_is_dir() == old(self).root_is_dir(),
            final(self).root_listed(),
            final(self).root_failed() == (old(self).root_failed() || (!old(self).root_listed()
                && !listing.complete)),
    {
        let ghost found0 = self.found@;
        let ghost pending0 = self.pending@.drop_last();
        self.pending.pop();
        let n = listing.entries.len();
        let mut i: usize = 0;
        while i < n
            invariant
                n == listing.entries@.len(),
                i <= n,
                self.found@ == found0 + found_in(listing.entries@.take(i as int)),
                self.pending@ == pending0 + subdirs_in(listing.entries@.take(i as int)),
                self.root_is_dir == old(self).root_is_dir,
                self.root_listed == old(self).root_listed,
                self.root_failed == old(self).root_failed,
                self.listed == old(self).listed,
            decreases n - i,
        {
            let entry = &listing.entries[i];
            proof {
                assert(listing.entries@.take(i + 1).drop_last() =~= listing.entries@.take(
                    i as int,
                ));
            }
            if entry.is_dir {
                self.pending.push(entry.path.clone());
                proof {
                    assert(self.pending@ =~= pending0 + subdirs_in(
                        listing.entries@.take(i + 1),
                    ));
                }
            } else {
                match get_canonical_path_if_image(entry) {
                    Some(p) => {
                        self.found.push(p);
                        proof {
                            assert(self.found@ =~= found0 + found_in(
                                listing.entries@.take(i + 1),
                            ));
                        }
                    },
                    None => {},
                }
            }
            i = i + 1;
        }
        proof {
            assert(listing.entries@.take(n as int) =~= listing.entries@);
            lemma_found_in_concat(self.listed@, listing.entries@);
            self.listed = Ghost(self.listed@ + listing.entries@);
        }
        if !self.root_listed && !listing.complete {
            self.root_failed = true;
        }
        self.root_listed = true;
    }
}

/// The image paths that a finished walk found: none where the root is no
/// directory, or `WalkFailed` where the root could not be listed.
pub fn find_absolute_image_path(walk: &MediaWalk) -> (r: Result<Vec<String>, BuildError>)
    requires
        walk.is_done(),
    ensures
        !walk.root_is_dir() ==> r is Ok && r->Ok_0@.len() == 0,
        walk.root_is_dir() && walk.root_failed() ==> r == Err::<Vec<String>, BuildError>(
            BuildError::WalkFailed,
        ),
        walk.root_is_dir() && !walk.root_failed() ==> r is Ok && r->Ok_0@ == walk.found(),
{
    if !walk.root_is_dir {
        Ok(Vec::new())
    } else if walk.root_failed {
        Err(BuildError::WalkFailed)
    } else {
        Ok(walk.found.clone())
    }
}

} // verus!
