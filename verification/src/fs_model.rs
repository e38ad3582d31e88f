//! An explicit model of the filesystem slice the scaffolder touches: the
//! directories it creates and the files it writes, in order.
//!
//! The model tracks names and contents only: it has no notion of permissions
//! or of a directory hierarchy beyond the paths themselves. Creating a
//! directory fails exactly when a directory of the same path was already
//! created, which is the failure the scaffolder's contract is about; an
//! embedding program replays the recorded operations onto a real filesystem
//! and maps that filesystem's errors the same way. The model therefore
//! accepts path strings a real filesystem refuses (an empty path, a path
//! whose parent does not exist): replaying those surfaces the failure only
//! then, with the path that failed.

use vstd::prelude::*;

verus! {

/// The mathematical content of a filesystem model: directory paths in
/// creation order and `(path, contents)` file entries in write order.
#[verifier::ext_equal]
pub struct FsState {
    pub dirs: Seq<Seq<char>>,
    pub files: Seq<(Seq<char>, Seq<char>)>,
}

impl FsState {
    /// The state with no directories and no files.
    pub open spec fn empty() -> FsState {
        FsState { dirs: Seq::empty(), files: Seq::empty() }
    }

    /// True when a directory `path` has been created.
    pub open spec fn has_dir(self, path: Seq<char>) -> bool {
        self.dirs.contains(path)
    }

    /// The state after creating directory `path`.
    pub open spec fn mkdir(self, path: Seq<char>) -> FsState {
        FsState { dirs: self.dirs.push(path), files: self.files }
    }

    /// The state after writing `contents` to the file at `path`.
    pub open spec fn write(self, path: Seq<char>, contents: Seq<char>) -> FsState {
        FsState { dirs: self.dirs, files: self.files.push((path, contents)) }
    }
}

/// An in-memory filesystem model: the executable counterpart of `FsState`.
pub struct FsModel {
    pub dirs: Vec<String>,
    pub files: Vec<(String, String)>,
}

impl View for FsModel {
    type V = FsState;

    open spec fn view(&self) -> FsState {
        FsState { dirs: self.dirs.deep_view(), files: self.files.deep_view() }
    }
}

impl FsModel {
    /// A model with no directories and no files.
    pub fn new() -> (r: FsModel)
        ensures
            r@ == FsState::empty(),
    {
        let r = FsModel { dirs: Vec::new(), files: Vec::new() };
        proof {
            assert(r.dirs.deep_view() =~= Seq::<Seq<char>>::empty());
            assert(r.files.deep_view() =~= Seq::<(Seq<char>, Seq<char>)>::empty());
            assert(r@ =~= FsState::empty());
        }
        r
    }

    /// True when a directory `path` has been created in this model.
    pub fn contains_dir(&self, path: &String) -> (b: bool)
        ensures
            b == self@.has_dir(path@),
    {
        let n: usize = self.dirs.len();
        let mut i: usize = 0;
        while i < n
            invariant
                n == self.dirs.len(),
                i <= n,
                forall|k: int| 0 <= k < i ==> self.dirs@[k]@ != path@,
            decreases n - i,
        {
            if self.dirs[i] == *path {
                assert(self@.dirs[i as int] == path@);
                return true;
            }
            i += 1;
        }
        assert(!self@.has_dir(path@)) by {
            if self@.dirs.contains(path@) {
                let k = choose|k: int| 0 <= k < self@.dirs.len() && self@.dirs[k] == path@;
                assert(self.dirs@[k]@ == path@);
            }
        }
        false
    }

    /// Create directory `path`: fails, leaving the model unchanged, exactly
    /// when the directory already exists.
    pub fn mkdir(&mut self, path: &String) -> (ok: bool)
        ensures
            ok == !old(self)@.has_dir(path@),
            ok ==> final(self)@ == old(self)@.mkdir(path@),
            !ok ==> final(self)@ == old(self)@,
    {
        if self.contains_dir(path) {
            return false;
        }
        self.dirs.push(path.clone());
        proof {
            assert(self.dirs.deep_view() =~= old(self).dirs.deep_view().push(path@));
            assert(self@ =~= old(self)@.mkdir(path@));
        }
        true
    }

    /// Write `contents` to the file at `path`.
    pub fn write_file(&mut self, path: String, contents: String)
        ensures
            final(self)@ == old(self)@.write(path@, contents@),
    {
        self.files.push((path, contents));
        proof {
            assert(self.files.deep_view() =~= old(self).files.deep_view().push(
                (path@, contents@),
            ));
            assert(self@ =~= old(self)@.write(path@, contents@));
        }
    }
}

} // verus!
