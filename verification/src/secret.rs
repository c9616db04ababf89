//! Secret containers, the private key built from them, and its wire format.

pub mod codec;
pub mod container;
pub mod key;
pub mod material;

pub use self::codec::{convert_big_endian_array_to_uint32, convert_uint32_to_big_endian_array};
pub use self::container::{SecretKeyData, SecretSeed};
pub use self::key::{PrivateKey, PrivateKeyView, EXPORT_SIZE};
pub use self::material::{KeyData, Seed, KEY_DATA_SIZE, SEED_SIZE};
