//! Byte layout of the v16 portfolio account, as seen by the NFT program, and
//! the token transfer hook that guards ownership changes.

pub mod le_codec;
pub mod slab_types_v16;
pub mod transfer_hook;
