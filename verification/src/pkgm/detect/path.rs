//! Paths as lists of components, and the files that are known to exist.

use crate::text::{copy_all, str_eq, texts};
use vstd::prelude::*;

verus! {

/// An absolute path, held as its components below the root. The root itself
/// has none.
#[derive(Debug)]
pub struct TreePath {
    pub components: Vec<String>,
}

impl View for TreePath {
    type V = Seq<Seq<char>>;

    open spec fn view(&self) -> Seq<Seq<char>> {
        texts(self.components@)
    }
}

impl TreePath {
    pub fn new(components: Vec<String>) -> (path: Self)
        ensures
            path@ == texts(components@),
    {
        Self { components }
    }

    /// A copy of this path.
    pub fn duplicate(&self) -> (copy: Self)
        ensures
            copy@ == self@,
    {
        Self { components: copy_all(self.components.as_slice()) }
    }

    /// This path with one more component at its end.
    pub fn join(&self, name: &str) -> (child: Self)
        ensures
            child@ == self@.push(name@),
    {
        let mut components = copy_all(self.components.as_slice());
        components.push(name.to_owned());
        assert(texts(components@) =~= self@.push(name@));
        Self { components }
    }

    /// Goes up to the parent, and says whether there was one: the root stays
    /// as it is.
    pub fn pop(&mut self) -> (popped: bool)
        ensures
            popped == (old(self)@.len() > 0),
            final(self)@ == if popped {
                old(self)@.drop_last()
            } else {
                old(self)@
            },
    {
        match self.components.pop() {
            Some(_) => {
                assert(self@ =~= old(self)@.drop_last());
                true
            },
            None => false,
        }
    }

    /// Whether this path is `base` or lies below it, component by component.
    pub fn starts_with(&self, base: &TreePath) -> (yes: bool)
        ensures
            yes == base@.is_prefix_of(self@),
    {
        if base.components.len() > self.components.len() {
            return false;
        }
        let mut i: usize = 0;
        while i < base.components.len()
            invariant
                i <= base.components@.len() <= self.components@.len(),
                forall|k: int| 0 <= k < i ==> self@[k] == base@[k],
            decreases base.components@.len() - i,
        {
            if !str_eq(self.components[i].as_str(), base.components[i].as_str()) {
                assert(self@[i as int] != base@[i as int]);
                return false;
            }
            i += 1;
        }
        assert(base@ =~= self@.subrange(0, base@.len() as int));
        true
    }

    /// Whether the two paths have the same components.
    pub fn same_as(&self, other: &TreePath) -> (yes: bool)
        ensures
            yes == (self@ == other@),
    {
        let same = self.components.len() == other.components.len() && self.starts_with(other);
        proof {
            if same {
                assert(self@ =~= other@);
            } else if self@ == other@ {
                assert(self@.len() == other@.len());
                assert(other@ =~= self@.subrange(0, other@.len() as int));
            }
        }
        same
    }
}

/// The paths that are known to exist, for whoever has to decide without
/// touching the file system.
#[derive(Debug)]
pub struct Listing {
    pub paths: Vec<TreePath>,
}

impl View for Listing {
    type V = Set<Seq<Seq<char>>>;

    open spec fn view(&self) -> Set<Seq<Seq<char>>> {
        Set::new(|path: Seq<Seq<char>>| exists|i: int| 0 <= i < self.paths@.len() && #[trigger] self.paths@[i]@ == path)
    }
}

impl Listing {
    pub fn new(paths: Vec<TreePath>) -> (listing: Self)
        ensures
            listing.paths == paths,
    {
        Self { paths }
    }

    /// Whether a path is among those known to exist.
    pub fn has(&self, path: &TreePath) -> (yes: bool)
        ensures
            yes == self@.contains(path@),
    {
        let mut i: usize = 0;
        while i < self.paths.len()
            invariant
                i <= self.paths@.len(),
                forall|k: int| 0 <= k < i ==> #[trigger] self.paths@[k]@ != path@,
            decreases self.paths@.len() - i,
        {
            if self.paths[i].same_as(path) {
                return true;
            }
            i += 1;
        }
        false
    }
}

} // verus!
