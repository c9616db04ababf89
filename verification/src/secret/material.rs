//! Fixed-size byte values: seeds and key data.
//!
//! Both are plain 32-byte arrays. Each can be wiped in place, and each may be
//! held in a secret container.

use secrecy::{CloneableSecret, DebugSecret, ExposeSecret};
use vstd::prelude::*;
use zeroize::Zeroize;

verus! {

/// Number of bytes in a seed.
pub const SEED_SIZE: usize = 32;

/// Number of bytes in a block of key data.
pub const KEY_DATA_SIZE: usize = 32;

/// The byte that fills a seed made by [`Seed::new`].
pub const SEED_FILL: u8 = 0x5A;

/// The sequence of `len` bytes that are all `byte`.
pub open spec fn filled(byte: u8, len: nat) -> Seq<u8> {
    Seq::new(len, |i: int| byte)
}

/// Calls `zeroize::Zeroize::zeroize` on a byte array. That impl walks the
/// array and overwrites each byte with a volatile write of `0`, in place.
/// The contract claims that every byte is `0` afterwards.
#[verifier::external_body]
fn zeroize_bytes<const N: usize>(bytes: &mut [u8; N])
    ensures
        final(bytes)@ == filled(0, N as nat),
{
    bytes.zeroize()
}

/// A 32-byte value from which key data is derived.
#[derive(Debug)]
pub struct Seed {
    pub s: [u8; SEED_SIZE],
}

impl View for Seed {
    type V = Seq<u8>;

    open spec fn view(&self) -> Seq<u8> {
        self.s@
    }
}

impl Default for Seed {
    /// The all-zero seed.
    fn default() -> (seed: Seed)
        ensures
            seed@ == filled(0, SEED_SIZE as nat),
    {
        let seed = Seed { s: [0; SEED_SIZE] };
        assert(seed@ =~= filled(0, SEED_SIZE as nat));
        seed
    }
}

impl Seed {
    /// A seed whose bytes are all [`SEED_FILL`].
    pub fn new() -> (seed: Self)
        ensures
            seed@ == filled(SEED_FILL, SEED_SIZE as nat),
    {
        let s: [u8; SEED_SIZE] = [SEED_FILL; SEED_SIZE];
        let seed = Self { s };
        assert(seed@ =~= filled(SEED_FILL, SEED_SIZE as nat));
        seed
    }
}

impl Clone for Seed {
    /// An independent copy of the same bytes.
    fn clone(&self) -> (copy: Self)
        ensures
            copy@ == self@,
    {
        Seed { s: self.s }
    }
}

impl Zeroize for Seed {
    /// Overwrites every byte with `0`, in place.
    fn zeroize(&mut self)
        ensures
            final(self)@ == filled(0, SEED_SIZE as nat),
    {
        zeroize_bytes(&mut self.s);
    }
}

/// A seed may be cloned while it is held in a container.
impl CloneableSecret for Seed {}

/// A container that holds a seed prints the seed's type, never its bytes.
impl DebugSecret for Seed {}

impl ExposeSecret<Seed> for Seed {
    /// A bare seed hands out itself.
    fn expose_secret(&self) -> (seed: &Seed)
        ensures
            *seed == *self,
    {
        self
    }
}

/// A 32-byte block of key material, secret or public.
#[derive(Debug)]
pub struct KeyData {
    pub d: [u8; KEY_DATA_SIZE],
}

impl View for KeyData {
    type V = Seq<u8>;

    open spec fn view(&self) -> Seq<u8> {
        self.d@
    }
}

impl Default for KeyData {
    /// The all-zero block.
    fn default() -> (data: KeyData)
        ensures
            data@ == filled(0, KEY_DATA_SIZE as nat),
    {
        let data = KeyData { d: [0; KEY_DATA_SIZE] };
        assert(data@ =~= filled(0, KEY_DATA_SIZE as nat));
        data
    }
}

impl Clone for KeyData {
    /// An independent copy of the same bytes.
    fn clone(&self) -> (copy: Self)
        ensures
            copy@ == self@,
    {
        KeyData { d: self.d }
    }
}

impl Zeroize for KeyData {
    /// Overwrites every byte with `0`, in place.
    fn zeroize(&mut self)
        ensures
            final(self)@ == filled(0, KEY_DATA_SIZE as nat),
    {
        zeroize_bytes(&mut self.d);
    }
}

/// Key data may be cloned while it is held in a container.
impl CloneableSecret for KeyData {}

/// A container that holds key data prints the data's type, never its bytes.
impl DebugSecret for KeyData {}

impl ExposeSecret<KeyData> for KeyData {
    /// A bare block of key data hands out itself.
    fn expose_secret(&self) -> (data: &KeyData)
        ensures
            *data == *self,
    {
        self
    }
}

} // verus!
