use crate::auth_data::AuthDataError;
use vstd::prelude::*;

verus! {

/// The library's error taxonomy.
///
/// Resolution failures are fatal to the single request; auth failures are
/// surfaced to the caller; transport failures are distinct from a provider
/// body the adapter cannot understand, so a caller can tell "unreachable"
/// from "spoke something else" from "credential rejected".
#[derive(Debug)]
pub enum Error {
    /// The model name could not be mapped or inferred to a provider.
    ModelNotResolved { model_name: String },
    /// A provider prefix or identifier that no adapter claims.
    UnknownProvider { provider: String },
    /// Auth data could not be resolved into a usable secret.
    Auth(AuthDataError),
    /// The network path failed before a full response was read.
    Transport { message: String },
    /// The provider sent a body the adapter cannot map to the uniform shape.
    ProtocolParse { message: String },
}

} // verus!
