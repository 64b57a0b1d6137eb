//! Choice of model backend.
//!
//! Two backends stand behind one call signature: a hosted chat-completion
//! API and a locally reachable generation API. A provider identifier string
//! selects between them; an unrecognized identifier falls back to the
//! hosted backend.

use vstd::prelude::*;

use crate::text::bytes_eq;

verus! {

/// The identifier that selects the local generation backend: `ollama`.
pub open spec fn local_backend_id() -> Seq<u8> {
    seq![111u8, 108, 108, 97, 109, 97]
}

/// A model backend.
#[derive(Clone, Copy, Debug, PartialEq, Eq)]
pub enum Provider {
    /// The hosted chat-completion API: the fallback for any identifier
    /// that is not recognized.
    Hosted,
    /// The locally reachable generation API.
    Local,
}

/// Select the backend for a provider identifier.
pub fn select_provider(id: &[u8]) -> (p: Provider)
    ensures
        id@ == local_backend_id() ==> p is Local,
        id@ != local_backend_id() ==> p is Hosted,
{
    let local_id: Vec<u8> = vec![111u8, 108, 108, 97, 109, 97];
    proof {
        assert(local_id@ =~= local_backend_id());
    }
    if bytes_eq(id, local_id.as_slice()) {
        Provider::Local
    } else {
        Provider::Hosted
    }
}

} // verus!
