//! The registry side of the credential relay: accept a posted bundle or
//! report a key conflict.
//!
//! Binding the HTTP listener and decoding request bodies is the caller's
//! job; the server decides, for each decoded bundle, which status the
//! response carries and how the registry changes.

use vstd::prelude::*;

use crate::creds_registry::CredsRegistry;
use crate::protocol::ForwardCreds;
use crate::relay::{STATUS_CONFLICT, STATUS_OK};

verus! {

/// The status a relay POST is answered with.  A conflict is kept distinct
/// from every other failure: the relay client retries only on conflict.
#[derive(Clone, Copy, Debug, PartialEq, Eq, Structural)]
pub enum ForwardResponse {
    /// The bundle is stored under its key.
    Accepted,
    /// The key is already taken; nothing was stored.
    Conflict,
}

impl ForwardResponse {
    /// The HTTP status code of this response.
    pub fn status_code(&self) -> (c: u16)
        ensures
            self is Accepted <==> c == STATUS_OK,
            self is Conflict <==> c == STATUS_CONFLICT,
    {
        match self {
            ForwardResponse::Accepted => STATUS_OK,
            ForwardResponse::Conflict => STATUS_CONFLICT,
        }
    }
}

/// The relay server: the registry behind the accept endpoint.
pub struct Server {
    pub registry: CredsRegistry,
}

impl Server {
    /// A server over the given registry contents.
    pub fn new(registry: CredsRegistry) -> (s: Self)
        ensures
            s.registry == registry,
    {
        Server { registry }
    }

    /// Answer one posted bundle: store it and accept, or — exactly when
    /// the key is already present — leave the registry as it is and
    /// report the conflict.
    pub fn handle_forward_creds(&mut self, req: ForwardCreds) -> (resp: ForwardResponse)
        ensures
            resp is Accepted <==> !old(self).registry@.contains_key(req.key@),
            resp is Accepted ==> final(self).registry@ == old(self).registry@.insert(
                req.key@,
                req,
            ),
            resp is Conflict ==> final(self).registry@ == old(self).registry@,
    {
        if self.registry.insert(req) {
            ForwardResponse::Accepted
        } else {
            ForwardResponse::Conflict
        }
    }
}

} // verus!
