//! `GET /docs/{id}`: a document's files as one zip archive.
use vstd::prelude::*;

use super::{
    EndpointError, EndpointResult, STATUS_NOT_FOUND, STATUS_OK, is_unexpected_error,
    unexpected_error,
};
use crate::domain::{Id, document::Document, uuid_hyphenated_text};
use crate::text::{concat, percent_encode_non_alphanumeric, percent_encoded};
use crate::usecase::app::get_zip_document::GetZipDocumentOutput;

verus! {

/// A zip archive to send: the `Content-Disposition` and `Content-Type` header
/// values, and the archive's bytes.
#[derive(Debug)]
pub struct ZipDownload {
    pub content_disposition: String,
    pub content_type: String,
    pub content: Vec<u8>,
}

/// The `Content-Disposition` value that offers a file under `name`: the name
/// percent-encoded as UTF-8 (RFC 5987).
pub open spec fn attachment_disposition(name: Seq<char>) -> Seq<char> {
    "attachment; filename*=UTF-8''"@ + percent_encoded(vstd::utf8::encode_utf8(name))
}

/// The answer to `GET /docs/{id}` once the use case has run: `None` when it
/// failed, `Some(None)` when there is no such document.
pub fn get_document_id_response(
    document_id: Id<Document>,
    outcome: Option<Option<GetZipDocumentOutput>>,
) -> (res: EndpointResult<ZipDownload>)
    ensures
        match outcome {
            None => is_unexpected_error(res),
            Some(None) => {
                &&& res.0 == STATUS_NOT_FOUND
                &&& res.1 matches Err(e) && e.reads(
                    "document does not exist"@,
                    Some("id: "@ + uuid_hyphenated_text(document_id.value())),
                )
            },
            Some(Some(out)) => {
                &&& res.0 == STATUS_OK
                &&& res.1 matches Ok(z) && z.content_disposition@ == attachment_disposition(out.name@)
                    && z.content_type@ == "application/zip"@ && z.content@ == out.content@
            },
        },
{
    match outcome {
        Some(Some(output)) => {
            let encoded = percent_encode_non_alphanumeric(output.name.as_str());
            let disposition = concat("attachment; filename*=UTF-8''", encoded.as_str());
            (
                STATUS_OK,
                Ok(
                    ZipDownload {
                        content_disposition: disposition,
                        content_type: "application/zip".to_owned(),
                        content: output.content,
                    },
                ),
            )
        },
        Some(None) => {
            let id = document_id.hyphenated();
            (
                STATUS_NOT_FOUND,
                Err(EndpointError::new("document does not exist", Some(concat("id: ", id.as_str())))),
            )
        },
        None => unexpected_error(),
    }
}

} // verus!
