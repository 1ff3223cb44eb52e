//! The resolver: reuse the file reference id that the cache holds for a
//! content, or upload the file and remember what the upload returned.

use crate::io::fidc::digest::ContentDigest;
use crate::io::fidc::store::{CacheStore, FileReferenceId, StoreModel, NOT_INITIALIZED};
use crate::operations::{ErrorKind, OperationError, OperationErrorView};
use vstd::prelude::*;

verus! {

/// Where a file reference id came from.
#[derive(Debug, Clone, Copy, PartialEq, Eq, Structural)]
pub enum Origin {
    /// The cache held it: nothing was uploaded.
    Cache,
    /// The file was uploaded.
    Upload,
}

/// A file reference id, ready for use in a request.
#[derive(Debug)]
pub struct Resolution {
    reference_id: FileReferenceId,
    origin: Origin,
    warning: Option<OperationError>,
}

/// The mathematical value of a [`Resolution`].
pub struct ResolutionView {
    /// The token of the file reference id.
    pub reference_id: Seq<char>,
    /// Where the id came from.
    pub origin: Origin,
    /// Why the id could not be written to the cache, if it could not.
    pub warning: Option<OperationErrorView>,
}

impl View for Resolution {
    type V = ResolutionView;

    closed spec fn view(&self) -> ResolutionView {
        ResolutionView {
            reference_id: self.reference_id@,
            origin: self.origin,
            warning: match self.warning {
                Some(error) => Some(error@),
                None => None,
            },
        }
    }
}

impl Resolution {
    /// The resolution of a hit: the id that the cache held.
    pub fn cached(reference_id: FileReferenceId) -> (resolution: Resolution)
        ensures
            resolution@ == hit(reference_id@),
    {
        Resolution { reference_id, origin: Origin::Cache, warning: None }
    }

    /// The file reference id.
    pub fn reference_id(&self) -> (id: &FileReferenceId)
        ensures
            id@ == self@.reference_id,
    {
        &self.reference_id
    }

    /// Where the id came from.
    pub fn origin(&self) -> (origin: Origin)
        ensures
            origin == self@.origin,
    {
        self.origin
    }

    /// Why the id could not be written to the cache, if it could not. The
    /// id is good all the same.
    pub fn warning(&self) -> (warning: Option<&OperationError>)
        ensures
            match warning {
                Some(error) => self@.warning == Some(error@),
                None => self@.warning is None,
            },
    {
        self.warning.as_ref()
    }

    /// The resolution after its id was to be written to the cache's
    /// database. A write that failed does not undo the resolution: its
    /// cause becomes the warning, as a store write error. A write that went
    /// well leaves the resolution as it was.
    pub fn after_write(self, written: Result<(), String>) -> (resolution: Resolution)
        ensures
            resolution@ == (ResolutionView {
                warning: match written {
                    Ok(_) => self@.warning,
                    Err(cause) => Some(
                        OperationErrorView { kind: ErrorKind::StoreWrite, message: cause@ },
                    ),
                },
                ..self@
            }),
    {
        match written {
            Ok(_) => self,
            Err(cause) => Resolution {
                reference_id: self.reference_id,
                origin: self.origin,
                warning: Some(OperationError::new(ErrorKind::StoreWrite, cause.as_str())),
            },
        }
    }
}

/// What a hit in the cache resolves to.
pub open spec fn hit(reference_id: Seq<char>) -> ResolutionView {
    ResolutionView { reference_id, origin: Origin::Cache, warning: None }
}

/// What a finished upload resolves to, given whether the store had its
/// table when the id was to be written.
pub open spec fn fresh(reference_id: Seq<char>, recorded: bool) -> ResolutionView {
    ResolutionView {
        reference_id,
        origin: Origin::Upload,
        warning: if recorded {
            None
        } else {
            Some(OperationErrorView { kind: ErrorKind::StoreWrite, message: NOT_INITIALIZED@ })
        },
    }
}

/// How [`settle`] relates the store before and after, what the upload
/// returned, and what comes out.
pub open spec fn settled(
    before: StoreModel,
    after: StoreModel,
    digest: ContentDigest,
    stamp: u64,
    uploaded: Result<FileReferenceId, OperationError>,
    outcome: Result<Resolution, OperationError>,
) -> bool {
    match uploaded {
        Ok(id) => {
            &&& after == before.upsert(digest, id@, stamp)
            &&& outcome matches Ok(resolution)
            &&& resolution@ == fresh(id@, before.ready)
        },
        Err(error) => {
            &&& after == before
            &&& outcome == Err::<Resolution, OperationError>(error)
        },
    }
}

/// Ends a resolution after the upload was tried. A file reference id that
/// the upload returned is written to the cache for `digest` and handed on;
/// where the cache cannot take it, it is handed on with a warning. A failed
/// upload leaves the cache as it was, and its error is handed on unchanged.
pub fn settle(
    store: &mut CacheStore,
    digest: ContentDigest,
    stamp: u64,
    uploaded: Result<FileReferenceId, OperationError>,
) -> (outcome: Result<Resolution, OperationError>)
    ensures
        settled(old(store)@, final(store)@, digest, stamp, uploaded, outcome),
{
    match uploaded {
        Ok(reference_id) => {
            let warning = match store.upsert(digest, reference_id.clone(), stamp) {
                Ok(()) => None,
                Err(error) => Some(error),
            };
            Ok(Resolution { reference_id, origin: Origin::Upload, warning })
        },
        Err(error) => Err(error),
    }
}

/// Resolves the content with the given digest to a file reference id.
///
/// Where the cache holds an id for `digest`, that id is the result: `upload`
/// is not called and the cache stays as it was. Otherwise `upload` is
/// called, once, and [`settle`] ends the resolution with what it returned.
/// An error can only be one that `upload` gave; it comes out as it was
/// given, and the cache stays as it was.
pub fn resolve<F: FnOnce() -> Result<FileReferenceId, OperationError>>(
    store: &mut CacheStore,
    digest: ContentDigest,
    stamp: u64,
    upload: F,
) -> (outcome: Result<Resolution, OperationError>)
    requires
        upload.requires(()),
    ensures
        match old(store)@.lookup(digest) {
            Some(reference_id) => {
                &&& final(store)@ == old(store)@
                &&& outcome matches Ok(resolution)
                &&& resolution@ == hit(reference_id)
            },
            None => exists|uploaded: Result<FileReferenceId, OperationError>|
                {
                    &&& upload.ensures((), uploaded)
                    &&& settled(old(store)@, final(store)@, digest, stamp, uploaded, outcome)
                },
        },
        outcome matches Err(error) ==> {
            &&& final(store)@ == old(store)@
            &&& old(store)@.lookup(digest) is None
            &&& upload.ensures((), Err::<FileReferenceId, OperationError>(error))
        },
{
    match store.lookup(digest) {
        Some(reference_id) => Ok(Resolution::cached(reference_id)),
        None => {
            let uploaded = upload();
            settle(store, digest, stamp, uploaded)
        },
    }
}

} // verus!
