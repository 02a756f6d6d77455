//! What the pipeline is told about the server and about each request.

use vstd::prelude::*;
use crate::text::text_view;

verus! {

/// Configuration fixed at start-up that the pipeline reads.
#[derive(Clone, Debug, PartialEq, Eq)]
pub struct ServerConfig {
    /// The address the server is bound to; response records originate here.
    pub server_addr: String,
}

/// What is known of a request besides its body.
#[derive(Clone, Debug, PartialEq, Eq)]
pub struct RequestMetadata {
    /// The client's address, where it could be resolved.
    pub remote_addr: Option<String>,
    pub path: String,
    pub method: String,
}

pub struct RequestMetadataView {
    pub remote_addr: Option<Seq<char>>,
    pub path: Seq<char>,
    pub method: Seq<char>,
}

impl View for RequestMetadata {
    type V = RequestMetadataView;

    open spec fn view(&self) -> RequestMetadataView {
        RequestMetadataView {
            remote_addr: text_view(self.remote_addr),
            path: self.path@,
            method: self.method@,
        }
    }
}

} // verus!
