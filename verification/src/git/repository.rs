//! A repository handle. Only the path is kept: every background operation
//! opens its own backend handle from the path, so handles never cross
//! threads.

use vstd::prelude::*;

verus! {

#[derive(Debug, PartialEq)]
pub struct Repository {
    path: String,
}

impl View for Repository {
    type V = Seq<char>;

    closed spec fn view(&self) -> Seq<char> {
        self.path@
    }
}

impl Repository {
    /// Wraps an already-validated repository path.
    pub fn from_path(path: String) -> (r: Self)
        ensures
            r@ == path@,
    {
        Repository { path }
    }

    /// The path to the repository.
    pub fn path(&self) -> (r: &str)
        ensures
            r@ == self@,
    {
        self.path.as_str()
    }
}

impl Clone for Repository {
    fn clone(&self) -> (r: Self)
        ensures
            r == *self,
    {
        Repository { path: self.path.clone() }
    }
}

} // verus!
