//! Verified core of a compressed-NFT provisioning library: address
//! derivation, instruction building with exact byte layouts, and the
//! batch mint sequencing state machine.
use vstd::prelude::*;

pub mod addr;
pub mod batch;
pub mod builders;
pub mod derive;
pub mod encode;
pub mod errors;
pub mod instruction;
pub mod plan;
pub mod programs;
pub mod signer;

pub use addr::Address;
pub use errors::CnftError;
pub use instruction::AccountMeta;
pub use instruction::Instruction;
pub use signer::Signer;
