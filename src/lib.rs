//! Message types and decision logic of a passkey + VRF authentication core:
//! authenticator policy, the confirmation step, VRF challenge assembly and the
//! canonical byte framing that binds several fields into one input.
use vstd::prelude::*;

pub mod authenticator;
pub mod confirmation;
pub mod encoding;
pub mod signer;
pub mod vrf;

verus! {

} // verus!
