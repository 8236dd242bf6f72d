//! Client configuration: the service's base URL and the static session
//! credential, together with the exact URLs and header values each operation
//! sends.
//!
//! The remote API is fixed: listing at `/api/files`, download and delete at
//! `/api/download/{name}` and `/api/delete/{name}`, upload at `/api/upload`,
//! every request authenticated by a `Cookie` header of the form
//! `uuid=<session>`.

use vstd::prelude::*;

verus! {

use crate::text::str_concat;

/// Where the service lives and how the client authenticates to it.
pub struct ClientConfig {
    /// Scheme and host, without a trailing slash, e.g. `https://example.com`.
    pub base_url: String,
    /// The static session value sent as the `uuid` cookie.
    pub session: String,
}

impl ClientConfig {
    pub fn new(base_url: String, session: String) -> (r: ClientConfig)
        ensures
            r.base_url@ == base_url@,
            r.session@ == session@,
    {
        ClientConfig { base_url, session }
    }

    /// The URL the listing request is sent to.
    pub fn list_url(&self) -> (r: String)
        ensures
            r@ == self.base_url@ + "/api/files"@,
    {
        str_concat(self.base_url.as_str(), "/api/files")
    }

    /// The URL a download of `name` is sent to.
    pub fn download_url(&self, name: &str) -> (r: String)
        ensures
            r@ == self.base_url@ + "/api/download/"@ + name@,
    {
        let prefix = str_concat(self.base_url.as_str(), "/api/download/");
        str_concat(prefix.as_str(), name)
    }

    /// The URL an upload is sent to.
    pub fn upload_url(&self) -> (r: String)
        ensures
            r@ == self.base_url@ + "/api/upload"@,
    {
        str_concat(self.base_url.as_str(), "/api/upload")
    }

    /// The URL a deletion of `name` is sent to.
    pub fn delete_url(&self, name: &str) -> (r: String)
        ensures
            r@ == self.base_url@ + "/api/delete/"@ + name@,
    {
        let prefix = str_concat(self.base_url.as_str(), "/api/delete/");
        str_concat(prefix.as_str(), name)
    }

    /// The value of the `Cookie` header sent with every request.
    pub fn cookie_value(&self) -> (r: String)
        ensures
            r@ == "uuid="@ + self.session@,
    {
        str_concat("uuid=", self.session.as_str())
    }
}

} // verus!
