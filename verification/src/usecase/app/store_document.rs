//! Storing an uploaded document with its files.
use vstd::prelude::*;

use crate::domain::{
    Id, is_uuid_v4,
    document::{
        Document, DocumentFile, DocumentFileType, DocumentMetadata, EmptyDocumentFiles,
        file_views,
    },
};

verus! {

/// Storing an uploaded document with its files.
#[derive(Debug)]
pub struct StoreDocumentUseCase<I> {
    repository: I,
}

impl<I> StoreDocumentUseCase<I> {
    pub closed spec fn spec_repository(&self) -> I {
        self.repository
    }

    pub fn new(repository: I) -> (res: Self)
        ensures
            res.spec_repository() == repository,
    {
        StoreDocumentUseCase { repository }
    }

    pub fn repository(&self) -> (res: &I)
        ensures
            *res == self.spec_repository(),
    {
        &self.repository
    }
}


/// One uploaded file: its type and its bytes.
#[derive(Debug)]
pub struct StoreDocumentInputFile {
    pub file_type: DocumentFileType,
    pub content: Vec<u8>,
}

/// An uploaded document: its metadata and its files.
#[derive(Debug)]
pub struct StoreDocumentInput {
    pub metadata: DocumentMetadata,
    pub files: Vec<StoreDocumentInputFile>,
}

impl<I> StoreDocumentUseCase<I> {
    /// The document to store, under a new random identifier, once its files
    /// are stored; refused when it has no file.
    pub fn assemble(metadata: DocumentMetadata, files: Vec<DocumentFile>) -> (res: Result<
        Document,
        EmptyDocumentFiles,
    >)
        ensures
            match res {
                Ok(d) => {
                    &&& files@.len() >= 1
                    &&& is_uuid_v4(d@.id)
                    &&& d@.metadata == metadata@
                    &&& d@.files == file_views(files@)
                },
                Err(_) => files@.len() == 0,
            },
    {
        let id: Id<Document> = Id::generate();
        Document::new(id, metadata, files)
    }
}

} // verus!
