//! Identity primitives for customer due diligence (CDD): the investor's unique
//! identifier and the CDD Id that links it, blinded, to an identity.

mod bytes;
mod cdd_id;
mod claim;
mod identity_id;

pub use bytes::{fit_to, le_bytes_u128, zero_bytes};
pub use cdd_id::{CddId, InvestorUid};
pub use claim::cdd_commitment;
pub use identity_id::IdentityId;
