//! A model of a conforming remote service: a store of named byte sequences.
//!
//! The client itself moves bytes unchanged — an upload sends exactly the
//! bytes read from the local file, and `download_body_decision` releases for
//! writing exactly the bytes the service returned. What connects the two ends
//! is the service, which this model captures: upload stores the bytes under
//! the remote name, download returns what is stored, delete removes it. The
//! laws below are what the client is entitled to expect of such a service.

use vstd::prelude::*;

verus! {

/// The remote store: each stored file's bytes, by name.
pub struct ServerModel {
    pub files: Map<Seq<char>, Seq<u8>>,
}

impl ServerModel {
    /// The store after an upload of `content` under `name`.
    pub open spec fn store(self, name: Seq<char>, content: Seq<u8>) -> ServerModel {
        ServerModel { files: self.files.insert(name, content) }
    }

    /// The bytes a download of `name` returns, when the file exists.
    pub open spec fn retrieve(self, name: Seq<char>) -> Option<Seq<u8>> {
        if self.files.contains_key(name) {
            Some(self.files[name])
        } else {
            None
        }
    }

    /// The store after a deletion of `name`.
    pub open spec fn erase(self, name: Seq<char>) -> ServerModel {
        ServerModel { files: self.files.remove(name) }
    }
}

/// Uploading a file and then downloading it under the same remote name
/// yields exactly the bytes that were uploaded.
pub proof fn lemma_upload_download_round_trip(s: ServerModel, name: Seq<char>, content: Seq<u8>)
    ensures
        s.store(name, content).retrieve(name) == Some(content),
{
}

/// An upload disturbs no other stored file.
pub proof fn lemma_upload_preserves_others(
    s: ServerModel,
    name: Seq<char>,
    content: Seq<u8>,
    other: Seq<char>,
)
    requires
        other != name,
    ensures
        s.store(name, content).retrieve(other) == s.retrieve(other),
{
}

/// After a deletion, a download of the same name finds nothing.
pub proof fn lemma_delete_removes(s: ServerModel, name: Seq<char>)
    ensures
        s.erase(name).retrieve(name) is None,
{
}

} // verus!
