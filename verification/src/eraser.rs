//! The handle on a scratch file and the rule for releasing it.

use vstd::prelude::*;

verus! {

/// What releasing a handle asks of the filesystem.
#[derive(Clone, Copy, Debug, PartialEq, Eq, Structural)]
pub enum Release {
    /// The path is not there: nothing is to be done.
    Nothing,
    /// The path is there and has to be removed.
    Remove,
}

/// The release that is due for a path, given whether the path is present.
pub open spec fn release_for(present: bool) -> Release {
    if present {
        Release::Remove
    } else {
        Release::Nothing
    }
}

/// The paths present once `release` has been carried out on `path`, in a
/// filesystem that held `files` and does what it is asked.
pub open spec fn files_after(files: Set<Seq<char>>, path: Seq<char>, release: Release) -> Set<
    Seq<char>,
> {
    match release {
        Release::Nothing => files,
        Release::Remove => files.remove(path),
    }
}

/// Owner of one path that is to be gone once its user is done with it.
///
/// Making a handle touches nothing: it only records the path.
#[derive(Debug, PartialEq, Eq)]
pub struct FileEraser {
    path: String,
}

impl View for FileEraser {
    type V = Seq<char>;

    /// The path that the handle owns.
    closed spec fn view(&self) -> Seq<char> {
        self.path@
    }
}

impl FileEraser {
    /// Takes charge of `path`.
    pub fn new(path: &str) -> (eraser: FileEraser)
        ensures
            eraser@ == path@,
    {
        FileEraser { path: path.to_owned() }
    }

    /// The path that the handle owns.
    pub fn path(&self) -> (path: &str)
        ensures
            path@ == self@,
    {
        self.path.as_str()
    }

    /// Decides what the release has to do, once the caller has looked whether
    /// the path is there: a present path is removed, an absent one is left alone.
    pub fn destroy(&self, present: bool) -> (release: Release)
        ensures
            release == release_for(present),
    {
        if present {
            Release::Remove
        } else {
            Release::Nothing
        }
    }
}

/// After a release the path is absent, whether or not it was there before.
pub proof fn release_leaves_path_absent(eraser: FileEraser, files: Set<Seq<char>>)
    ensures
        !files_after(files, eraser@, release_for(files.contains(eraser@))).contains(eraser@),
{
}

} // verus!
