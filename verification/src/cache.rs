//! The listing cache: the most recently loaded directory contents,
//! remembered together with the directory they belong to.

use vstd::prelude::*;

use crate::entry::FileEntry;

verus! {

/// Holds at most one directory's listing.
#[derive(Clone)]
pub struct FileCache {
    pub cached_files: Option<(String, Vec<FileEntry>)>,
}

impl FileCache {
    /// An empty cache.
    pub fn new() -> (r: FileCache)
        ensures
            r.cached_files is None,
    {
        FileCache { cached_files: None }
    }

    /// The cached listing, if one is held.
    pub fn get_files(&self) -> (r: Option<&Vec<FileEntry>>)
        ensures
            r is Some <==> self.cached_files is Some,
            r is Some ==> r->0@ == (self.cached_files->0).1@,
    {
        match &self.cached_files {
            Option::Some((_, files)) => Option::Some(files),
            Option::None => Option::None,
        }
    }

    /// Remember `files` as the listing of `path`, replacing whatever
    /// was held.
    pub fn update_cache(&mut self, path: String, files: Vec<FileEntry>)
        ensures
            final(self).cached_files matches Some((p, f)) && p@ == path@ && f@ == files@,
    {
        self.cached_files = Option::Some((path, files));
    }

    /// Forget the cached listing.
    pub fn clear(&mut self)
        ensures
            final(self).cached_files is None,
    {
        self.cached_files = Option::None;
    }
}

} // verus!
