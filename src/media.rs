use vstd::prelude::*;
use rand::Rng;
use crate::config::MediaConfig;
use crate::filter::{canonical_if_image, EntryInfo};
use crate::walk::{
    find_absolute_image_path, found_in, is_found, lemma_found_are_eligible,
    lemma_found_is_eligible, BuildError, MediaWalk,
};

verus! {

/// Relies on rand's `thread_rng().gen_range(0..n)`: a value drawn from
/// `[0, n)`; the call panics on an empty range.
#[verifier::external_body]
fn random_below(n: usize) -> (r: usize)
    requires
        n > 0,
    ensures
        r < n,
{
    rand::thread_rng().gen_range(0..n)
}

/// The index of image paths, built once and only read afterwards, with the
/// configuration it was built from. It is never empty.
#[derive(Clone)]
pub struct MediaState {
    media_config: MediaConfig,
    paths: Vec<String>,
    sources: Ghost<Seq<EntryInfo>>,
}

/// The number of eligible image files among the entries.
pub open spec fn eligible_count(entries: Seq<EntryInfo>) -> nat {
    entries.filter(|e: EntryInfo| is_found(e)).len()
}

impl MediaState {
    /// The indexed paths.
    pub closed spec fn paths(&self) -> Seq<String> {
        self.paths@
    }

    pub closed spec fn config(&self) -> MediaConfig {
        self.media_config
    }

    /// The directory entries the index was built from.
    pub closed spec fn sources(&self) -> Seq<EntryInfo> {
        self.sources@
    }

    /// The index is not empty, and it holds exactly the eligible files
    /// among the entries it was built from.
    pub open spec fn wf(&self) -> bool {
        self.paths().len() > 0 && self.paths() == found_in(self.sources())
    }

    /// Builds the index from a finished walk of `media_config.media`: it
    /// holds every eligible file that the walk listed, and fails where the
    /// root is no directory, could not be listed, or held no eligible file.
    pub fn new(media_config: MediaConfig, walk: &MediaWalk) -> (r: Result<MediaState, BuildError>)
        requires
            walk.is_done(),
            walk.wf(),
        ensures
            !walk.root_is_dir() ==> r == Err::<MediaState, BuildError>(BuildError::NotADirectory),
            walk.root_is_dir() && walk.root_failed() ==> r == Err::<MediaState, BuildError>(
                BuildError::WalkFailed,
            ),
            walk.root_is_dir() && !walk.root_failed() && eligible_count(walk.listed()) == 0
                ==> r == Err::<MediaState, BuildError>(BuildError::EmptyIndex),
            walk.root_is_dir() && !walk.root_failed() && eligible_count(walk.listed()) > 0 ==> r is Ok
                && r->Ok_0.paths() == walk.found() && r->Ok_0.sources() == walk.listed()
                && r->Ok_0.paths().len() == eligible_count(walk.listed())
                && r->Ok_0.config() == media_config,
            r is Ok ==> r->Ok_0.wf(),
    {
        proof {
            lemma_found_are_eligible(walk.listed());
        }
        if !walk.root_was_directory() {
            return Err(BuildError::NotADirectory);
        }
        match find_absolute_image_path(walk) {
            Ok(paths) => {
                if paths.len() > 0 {
                    Ok(MediaState { media_config, paths, sources: Ghost(walk.listed()) })
                } else {
                    Err(BuildError::EmptyIndex)
                }
            },
            Err(e) => Err(e),
        }
    }

    /// The configuration the index was built from.
    pub fn media_config(&self) -> (r: &MediaConfig)
        ensures
            *r == self.config(),
    {
        &self.media_config
    }

    /// The number of indexed paths.
    pub fn image_count(&self) -> (r: usize)
        ensures
            r == self.paths().len(),
    {
        self.paths.len()
    }

    /// The indexed path at position `i`.
    pub fn image_at(&self, i: usize) -> (r: &str)
        requires
            i < self.paths().len(),
        ensures
            r@ == self.paths()[i as int]@,
    {
        self.paths[i].as_str()
    }

    /// A path of the index chosen at random, each position equally likely.
    pub fn get_random_image(&self) -> (r: &str)
        requires
            self.wf(),
        ensures
            exists|i: int| 0 <= i < self.paths().len() && r@ == #[trigger] self.paths()[i]@,
    {
        let i = random_below(self.image_count());
        self.image_at(i)
    }
}

/// Every indexed path is the canonical path of an eligible entry: a
/// regular file with a supported extension whose path resolved.
pub proof fn lemma_indexed_paths_are_eligible(s: MediaState, i: int)
    requires
        s.wf(),
        0 <= i < s.paths().len(),
    ensures
        exists|j: int|
            0 <= j < s.sources().len() && is_found(#[trigger] s.sources()[j]) && s.paths()[i]
                == canonical_if_image(s.sources()[j])->Some_0,
{
    lemma_found_is_eligible(s.sources(), i);
}

} // verus!
