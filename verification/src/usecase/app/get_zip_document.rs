//! Packing a document's files into one zip archive.
use vstd::prelude::*;

use crate::domain::{
    Id, is_uuid_v4, uuid_simple_text,
    document::{Document, DocumentFile, DocumentFileView, file_type_extension, file_views},
};
use crate::text::{
    after_last_slash, concat, concat3, ends_in_name, ends_in_parent, path_file_name, path_file_name_of,
};

verus! {

/// Packing a document's files into one zip archive.
#[derive(Debug)]
pub struct GetZipDocumentUseCase<I> {
    repository: I,
}

impl<I> GetZipDocumentUseCase<I> {
    pub closed spec fn spec_repository(&self) -> I {
        self.repository
    }

    pub fn new(repository: I) -> (res: Self)
        ensures
            res.spec_repository() == repository,
    {
        GetZipDocumentUseCase { repository }
    }

    pub fn repository(&self) -> (res: &I)
        ensures
            *res == self.spec_repository(),
    {
        &self.repository
    }
}


/// Which document to pack.
#[derive(Debug)]
pub struct GetZipDocumentInput {
    pub document_id: Id<Document>,
}

/// A packed document: the archive's file name and its bytes.
#[derive(Debug)]
pub struct GetZipDocumentOutput {
    pub name: String,
    pub content: Vec<u8>,
}

/// A stored file whose path has no final component to name its entry after.
#[derive(Clone, Copy, Debug, PartialEq, Eq, Structural)]
pub struct NoFileName;

impl NoFileName {
    /// `document file name terminates in '..'`
    pub fn message(&self) -> (res: &'static str)
        ensures
            res@ == "document file name terminates in '..'"@,
    {
        "document file name terminates in '..'"
    }
}

/// The name of the archive entry for a stored file: the final component of
/// its path with its type's extension added.
pub open spec fn entry_name_of(file: DocumentFileView) -> Option<Seq<char>> {
    match path_file_name_of(file.path) {
        Some(name) => Some(name + "."@ + file_type_extension(file.ty)),
        None => None,
    }
}

/// The entry name of a stored file whose path ends in a plain name: that name
/// with its type's extension added.
pub open spec fn plain_entry_name(file: DocumentFileView) -> Seq<char> {
    after_last_slash(file.path) + "."@ + file_type_extension(file.ty)
}

/// The entry name of a stored file.
pub fn get_file_name(document_file: &DocumentFile) -> (res: Result<String, NoFileName>)
    ensures
        match res {
            Ok(name) => entry_name_of(document_file@) == Some(name@),
            Err(_) => entry_name_of(document_file@).is_none(),
        },
        ends_in_name(document_file@.path) ==> (res matches Ok(name) && name@ == plain_entry_name(
            document_file@,
        )),
        ends_in_parent(document_file@.path) ==> res is Err,
{
    match path_file_name(document_file.path()) {
        Some(name) => Ok(concat3(name.as_str(), ".", document_file.ty().extension())),
        None => Err(NoFileName),
    }
}

/// The name of an archive of a document: a UUID's 32 hex digits and `.zip`.
pub open spec fn archive_name_text(u: u128) -> Seq<char> {
    uuid_simple_text(u) + ".zip"@
}

impl<I> GetZipDocumentUseCase<I> {
    /// The archive name for the UUID `id`.
    pub fn archive_name_of(id: Id<Document>) -> (res: String)
        ensures
            res@ == archive_name_text(id.value()),
    {
        let digits = id.simple();
        concat(digits.as_str(), ".zip")
    }

    /// A fresh archive name, from a new random UUID.
    pub fn archive_name() -> (res: String)
        ensures
            exists|u: u128| is_uuid_v4(u) && res@ == archive_name_text(u),
    {
        let id: Id<Document> = Id::generate();
        Self::archive_name_of(id)
    }

    /// The entry names of every file of `document`, in order, or the first
    /// file whose path has no final component.
    pub fn entry_names(document: &Document) -> (res: Result<Vec<String>, NoFileName>)
        ensures
            match res {
                Ok(names) => {
                    &&& names@.len() == document@.files.len()
                    &&& forall|i: int|
                        0 <= i < names@.len() ==> entry_name_of(document@.files[i]) == Some(
                            #[trigger] names@[i]@,
                        )
                },
                Err(_) => exists|i: int|
                    0 <= i < document@.files.len() && (#[trigger] entry_name_of(
                        document@.files[i],
                    )).is_none(),
            },
            (forall|i: int|
                0 <= i < document@.files.len() ==> ends_in_name(
                    #[trigger] document@.files[i].path,
                )) ==> (res matches Ok(names) && forall|i: int|
                0 <= i < names@.len() ==> (#[trigger] names@[i])@ == plain_entry_name(
                    document@.files[i],
                )),
    {
        let files = document.files();
        let mut names: Vec<String> = Vec::new();
        let mut i: usize = 0;
        while i < files.len()
            invariant
                i <= files@.len(),
                file_views(files@) == document@.files,
                names@.len() == i,
                forall|j: int|
                    0 <= j < i ==> entry_name_of(document@.files[j]) == Some(#[trigger] names@[j]@),
                forall|j: int|
                    0 <= j < i ==> ends_in_name(document@.files[j].path) ==> (#[trigger] names@[j])@
                        == plain_entry_name(document@.files[j]),
            decreases files@.len() - i,
        {
            assert(file_views(files@)[i as int] == files@[i as int]@);
            match get_file_name(&files[i]) {
                Ok(name) => {
                    names.push(name);
                },
                Err(e) => {
                    assert(!ends_in_name(document@.files[i as int].path));
                    return Err(e);
                },
            }
            i = i + 1;
        }
        Ok(names)
    }
}

} // verus!
