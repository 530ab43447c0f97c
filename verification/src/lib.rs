//! SatsPath: resolution, validation and routing-support logic for signed
//! Bitcoin payment profiles.

pub mod text;
pub mod encoding;
pub mod escrow;
pub mod ffi;
pub mod errors;
pub mod privacy;
pub mod crypto;
pub mod profile;
pub mod validation;
pub mod ark;
pub mod rotation;
pub mod registry;
pub mod codec;
pub mod cli;
pub mod resolver;
pub mod invite;
pub mod transparency;
