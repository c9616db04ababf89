//! Secret key material held in zero-on-drop containers, with a fixed
//! big-endian wire layout for a private key and a deterministic, illustrative
//! (not cryptographic) derivation of key data from seeds.

pub mod secret;
