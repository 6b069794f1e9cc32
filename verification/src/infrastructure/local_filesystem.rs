//! Where document files are kept on the local file system.
use vstd::prelude::*;

use crate::domain::{
    Id, document::DocumentFile, is_uuid_v4, lemma_uuid_hyphenated_text_shape, uuid_hyphenated_text,
};
use crate::text::{path_join, path_join_of};

verus! {

/// A path for a new file under `dir`: a fresh random UUID, in its hyphenated
/// form, joined to the directory.
pub fn fresh_file_path(dir: &str) -> (res: String)
    ensures
        exists|u: u128|
            {
                &&& is_uuid_v4(u)
                &&& res@ == path_join_of(dir@, uuid_hyphenated_text(u))
                &&& (dir@.len() > 0 && dir@.last() != '/') ==> res@ == dir@ + "/"@
                    + uuid_hyphenated_text(u)
            },
{
    let id: Id<DocumentFile> = Id::generate();
    let name = id.hyphenated();
    proof {
        lemma_uuid_hyphenated_text_shape(id.value());
    }
    path_join(dir, name.as_str())
}

/// Keeps document files under one directory of the local file system.
#[derive(Debug)]
pub struct LocalFileSystemRepository {
    /// The root directory of the stored files.
    save_dir: String,
}

impl LocalFileSystemRepository {
    pub closed spec fn save_dir_view(&self) -> Seq<char> {
        self.save_dir@
    }

    /// A repository rooted at `save_dir`, a directory that already exists,
    /// given by its canonical path.
    pub fn new(save_dir: String) -> (res: Self)
        ensures
            res.save_dir_view() == save_dir@,
    {
        LocalFileSystemRepository { save_dir }
    }

    /// The root directory of the stored files.
    pub fn save_dir(&self) -> (res: &str)
        ensures
            res@ == self.save_dir_view(),
    {
        self.save_dir.as_str()
    }

    /// Where the next stored file goes: a fresh random UUID under the root
    /// directory.
    pub fn new_file_path(&self) -> (res: String)
        ensures
            exists|u: u128|
                {
                    &&& is_uuid_v4(u)
                    &&& res@ == path_join_of(self.save_dir_view(), uuid_hyphenated_text(u))
                    &&& (self.save_dir_view().len() > 0 && self.save_dir_view().last() != '/')
                        ==> res@ == self.save_dir_view() + "/"@ + uuid_hyphenated_text(u)
                },
    {
        fresh_file_path(self.save_dir.as_str())
    }
}

impl Clone for LocalFileSystemRepository {
    fn clone(&self) -> (res: Self)
        ensures
            res.save_dir_view() == self.save_dir_view(),
    {
        LocalFileSystemRepository { save_dir: self.save_dir.clone() }
    }
}

} // verus!
