//! The result of the last detection, kept for the directory it was made in
//! and everything below it.

use super::path::TreePath;
use crate::pkgm::types::ManagerType;
use vstd::prelude::*;

verus! {

/// The last detection: where it was made and what it found.
#[derive(Debug)]
pub struct CacheEntry {
    pub directory: TreePath,
    pub manager_type: ManagerType,
}

/// Holds at most one detection result. It starts out empty, lives as long as
/// its owner keeps it, and is emptied only by `clear_cache`.
#[derive(Debug)]
pub struct DetectionCache {
    pub entry: Option<CacheEntry>,
}

impl View for DetectionCache {
    type V = Option<(Seq<Seq<char>>, ManagerType)>;

    open spec fn view(&self) -> Option<(Seq<Seq<char>>, ManagerType)> {
        match self.entry {
            Some(entry) => Some((entry.directory@, entry.manager_type)),
            None => None,
        }
    }
}

/// What a cache answers for a directory: the kind it holds, if it holds one
/// for that directory or for one above it.
pub open spec fn cached_for(
    cache: Option<(Seq<Seq<char>>, ManagerType)>,
    current_dir: Seq<Seq<char>>,
) -> Option<ManagerType> {
    match cache {
        Some((directory, manager_type)) => if directory.is_prefix_of(current_dir) {
            Some(manager_type)
        } else {
            None
        },
        None => None,
    }
}

impl DetectionCache {
    /// An empty cache.
    pub fn new() -> (cache: Self)
        ensures
            cache@ is None,
    {
        Self { entry: None }
    }
}

/// The cached kind for the current directory, if the cache holds a result
/// for it or for a directory above it.
pub fn get_cached_manager(cache: &DetectionCache, current_dir: &TreePath) -> (cached: Option<
    ManagerType,
>)
    ensures
        cached == cached_for(cache@, current_dir@),
{
    match &cache.entry {
        Some(entry) => {
            if current_dir.starts_with(&entry.directory) {
                Some(entry.manager_type)
            } else {
                None
            }
        },
        None => None,
    }
}

/// Makes `manager_type` the cached result for the current directory, in
/// place of whatever the cache held.
pub fn set_cached_manager(
    cache: &mut DetectionCache,
    current_dir: &TreePath,
    manager_type: ManagerType,
)
    ensures
        final(cache)@ == Some((current_dir@, manager_type)),
{
    cache.entry = Some(CacheEntry { directory: current_dir.duplicate(), manager_type });
}

/// Empties the cache, so that the next detection starts afresh.
pub fn clear_cache(cache: &mut DetectionCache)
    ensures
        final(cache)@ is None,
{
    cache.entry = None;
}

} // verus!
