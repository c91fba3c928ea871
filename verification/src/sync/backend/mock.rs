//! `MockBackend` - an in-memory backend.

use vstd::prelude::*;

use crate::error::Error;
use crate::sync::error::{SyncBackendError, SyncError};

verus! {

/// In-memory blob store.
pub struct MockBackend {
    blob: Option<Vec<u8>>,
}

fn copy_bytes(data: &[u8]) -> (r: Vec<u8>)
    ensures
        r@ == data@,
{
    let mut bytes: Vec<u8> = Vec::new();
    for i in 0..data.len()
        invariant
            bytes@ == data@.take(i as int),
    {
        bytes.push(data[i]);
        assert(bytes@ =~= data@.take(i + 1));
    }
    assert(data@.take(data@.len() as int) =~= data@);
    bytes
}

impl MockBackend {
    /// The blob, if there is one.
    pub closed spec fn view(&self) -> Option<Seq<u8>> {
        match self.blob {
            Some(bytes) => Some(bytes@),
            None => None,
        }
    }

    /// A backend without a blob.
    #[must_use]
    pub fn new() -> (r: Self)
        ensures
            r@ is None,
    {
        MockBackend { blob: None }
    }

    /// Put a blob there (as if it had been pushed before).
    pub fn seed(&mut self, data: &[u8])
        ensures
            final(self)@ == Some(data@),
    {
        self.blob = Some(copy_bytes(data));
    }

    /// Snapshot of the current blob.
    #[must_use]
    pub fn snapshot(&self) -> (r: Option<Vec<u8>>)
        ensures
            match r {
                Some(bytes) => self@ == Some(bytes@),
                None => self@ is None,
            },
    {
        match &self.blob {
            Some(bytes) => Some(copy_bytes(bytes.as_slice())),
            None => None,
        }
    }

    /// Overwrite the blob. There is no history, so the note is ignored.
    pub fn push(&mut self, data: &[u8], message: Option<&str>) -> (r: Result<(), Error>)
        ensures
            r is Ok,
            final(self)@ == Some(data@),
    {
        let _ = message;
        self.blob = Some(copy_bytes(data));
        Ok(())
    }

    /// The blob. `RemoteNotFound` if there is none.
    pub fn pull(&self) -> (r: Result<Vec<u8>, Error>)
        ensures
            match r {
                Ok(bytes) => self@ == Some(bytes@),
                Err(e) => self@ is None && e == Error::Sync(
                    SyncError::Backend(SyncBackendError::RemoteNotFound),
                ),
            },
    {
        match &self.blob {
            Some(bytes) => Ok(copy_bytes(bytes.as_slice())),
            None => Err(Error::Sync(SyncError::Backend(SyncBackendError::RemoteNotFound))),
        }
    }

    /// Whether there is a blob.
    pub fn blob_exists(&self) -> (r: Result<bool, Error>)
        ensures
            r == Ok::<bool, Error>(self@ is Some),
    {
        Ok(self.blob.is_some())
    }
}

impl Default for MockBackend {
    fn default() -> (r: Self)
        ensures
            r@ is None,
    {
        MockBackend::new()
    }
}

} // verus!
