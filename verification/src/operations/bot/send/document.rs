//! Sending a document.

use crate::http::request::models::senddocument::{
    request_of, SendDocumentRequestModel, SendDocumentRequestView,
};
use crate::http::request::models::InputFileView;
use crate::io::fidc::digest::ContentDigest;
use crate::io::fidc::resolver::{hit, settle, settled, Resolution};
use crate::io::fidc::store::{CacheStore, FileReferenceId};
use crate::operations::bot::send::SendParams;
use crate::operations::OperationError;
use std::path::PathBuf;
use vstd::prelude::*;

verus! {

/// What the document operation sends.
#[derive(Debug)]
pub struct DocumentParams {
    file: PathBuf,
    thumbnail: Option<PathBuf>,
    message: Option<String>,
}

/// The mathematical value of [`DocumentParams`].
pub struct DocumentParamsView {
    /// The file to send.
    pub file: PathBuf,
    /// The image that stands for the file in the chat.
    pub thumbnail: Option<PathBuf>,
    /// The caption.
    pub message: Option<Seq<char>>,
}

impl View for DocumentParams {
    type V = DocumentParamsView;

    closed spec fn view(&self) -> DocumentParamsView {
        DocumentParamsView {
            file: self.file,
            thumbnail: self.thumbnail,
            message: match self.message {
                Some(message) => Some(message@),
                None => None,
            },
        }
    }
}

impl DocumentParams {
    /// The parameters of a document operation: the file to send, the image
    /// that stands for it in the chat, and the caption.
    pub fn new(file: PathBuf, thumbnail: Option<PathBuf>, message: Option<String>) -> (params: Self)
        ensures
            params@.file == file,
            params@.thumbnail == thumbnail,
            params@.message == match message {
                Some(message) => Some(message@),
                None => None,
            },
    {
        Self { file, thumbnail, message }
    }

    /// The file to send.
    pub fn file(&self) -> (file: &PathBuf)
        ensures
            *file == self@.file,
    {
        &self.file
    }

    /// The image that stands for the file in the chat.
    pub fn thumbnail(&self) -> (thumbnail: Option<&PathBuf>)
        ensures
            match thumbnail {
                Some(path) => self@.thumbnail == Some(*path),
                None => self@.thumbnail is None,
            },
    {
        self.thumbnail.as_ref()
    }

    /// The caption.
    pub fn message(&self) -> (message: Option<&str>)
        ensures
            match message {
                Some(text) => self@.message == Some(text@),
                None => self@.message is None,
            },
    {
        match &self.message {
            Some(text) => Some(text.as_str()),
            None => None,
        }
    }

    /// The file, its thumbnail and the caption, in this order.
    pub fn into_parts(self) -> (parts: (PathBuf, Option<PathBuf>, Option<String>))
        ensures
            parts.0 == self@.file,
            parts.1 == self@.thumbnail,
            self@.message == match parts.2 {
                Some(message) => Some(message@),
                None => None,
            },
    {
        (self.file, self.thumbnail, self.message)
    }
}

/// The operation that sends a document.
#[derive(Debug)]
pub struct SendDocumentOperation {
    params: DocumentParams,
}

impl View for SendDocumentOperation {
    type V = DocumentParamsView;

    /// What the operation sends.
    closed spec fn view(&self) -> DocumentParamsView {
        self.params@
    }
}

impl SendDocumentOperation {
    /// The operation that sends what `params` says.
    pub fn new(params: DocumentParams) -> (operation: Self)
        ensures
            operation@ == params@,
    {
        Self { params }
    }

    /// What the operation sends.
    pub fn params(&self) -> (params: &DocumentParams)
        ensures
            params@ == self@,
    {
        &self.params
    }

    /// The request that the operation makes for the chat and in the manner
    /// that `send` names.
    pub open spec fn request(self, send: SendParams) -> SendDocumentRequestView {
        request_of(
            send.receiver@,
            send.format,
            send.silent,
            self@.file,
            self@.thumbnail,
            self@.message,
        )
    }

    /// Carries the operation out through the cache `store`, for a file
    /// whose content has the digest `digest`.
    ///
    /// Where the cache holds a file reference id for the digest, nothing is
    /// uploaded and the cache stays as it was: the request goes to
    /// `deliver` with the id in place of the file, and what `deliver` says
    /// decides. Otherwise the request goes to `upload` with the file, and
    /// the resolution ends as [`settle`] says: an id that came back is
    /// written to the cache, and an error comes out as it was given, with
    /// the cache as it was.
    pub fn send_with<U, D>(
        self,
        send: SendParams,
        store: &mut CacheStore,
        digest: ContentDigest,
        stamp: u64,
        upload: U,
        deliver: D,
    ) -> (outcome: Result<Resolution, OperationError>) where
        U: FnOnce(SendDocumentRequestModel) -> Result<FileReferenceId, OperationError>,
        D: FnOnce(SendDocumentRequestModel) -> Result<(), OperationError>,

        requires
            forall|model: SendDocumentRequestModel|
                model@ == self.request(send) ==> #[trigger] upload.requires((model,)),
            forall|model: SendDocumentRequestModel| #[trigger] deliver.requires((model,)),
        ensures
            match old(store)@.lookup(digest) {
                Some(reference_id) => {
                    &&& final(store)@ == old(store)@
                    &&& exists|model: SendDocumentRequestModel, delivered: Result<(), OperationError>|
                        {
                            &&& model@ == (SendDocumentRequestView {
                                document: InputFileView::Id(reference_id),
                                ..self.request(send)
                            })
                            &&& #[trigger] deliver.ensures((model,), delivered)
                            &&& match delivered {
                                Ok(_) => outcome matches Ok(resolution) && resolution@ == hit(
                                    reference_id,
                                ),
                                Err(error) => outcome == Err::<Resolution, OperationError>(error),
                            }
                        }
                },
                None => exists|
                    model: SendDocumentRequestModel,
                    uploaded: Result<FileReferenceId, OperationError>,
                |
                    {
                        &&& model@ == self.request(send)
                        &&& #[trigger] upload.ensures((model,), uploaded)
                        &&& settled(old(store)@, final(store)@, digest, stamp, uploaded, outcome)
                    },
            },
    {
        let model = SendDocumentRequestModel::from((send, self.params));
        match store.lookup(digest) {
            Some(reference_id) => {
                let resolution = Resolution::cached(reference_id);
                let by_reference = model.resolved(&resolution);
                match deliver(by_reference) {
                    Ok(_) => Ok(resolution),
                    Err(error) => Err(error),
                }
            },
            None => {
                let uploaded = upload(model);
                settle(store, digest, stamp, uploaded)
            },
        }
    }

    /// What the operation sends, for use in a request.
    pub fn into_params(self) -> (params: DocumentParams)
        ensures
            params@ == self@,
    {
        self.params
    }
}

} // verus!
