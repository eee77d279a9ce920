//! Creation of a token mint with its metadata record, as one on-chain
//! instruction: the payload is decoded, the eight accounts are bound to their
//! roles, and three calls into other programs are issued in a fixed order.

pub mod codec;
pub mod error;
pub mod host;
pub mod payload;
pub mod processor;
pub mod rent;
pub mod request;
pub mod roles;
pub mod stage;
pub mod wire;

pub use error::MintError;
pub use payload::CreateTokenArgs;
pub use processor::{create_nft, process_instruction, Run};
