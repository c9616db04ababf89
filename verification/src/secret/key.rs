//! The private key: an object identifier, two seeds and the key data derived
//! from them, with a fixed 68-byte wire layout.
//!
//! | offset | length | field                |
//! |--------|--------|----------------------|
//! | 0      | 4      | `oid`, big-endian    |
//! | 4      | 32     | `sk_data`            |
//! | 36     | 32     | `pk_data`            |
//!
//! The derivation of key data from seeds is a placeholder with no
//! cryptographic strength. It must not be used to protect anything.

use super::codec::{
    be_bytes_of_u32, convert_big_endian_array_to_uint32, convert_uint32_to_big_endian_array,
    lemma_bytes_round_trip, lemma_u32_round_trip, u32_of_be_bytes, U32_SIZE,
};
use super::container::{SecretKeyData, SecretSeed};
use super::material::{filled, KeyData, Seed, KEY_DATA_SIZE, SEED_SIZE};
use secrecy::ExposeSecret;
use vstd::prelude::*;
use zeroize::Zeroize;

verus! {

/// Number of bytes in an exported key: the identifier and two blocks of key
/// data.
pub const EXPORT_SIZE: usize = U32_SIZE + KEY_DATA_SIZE + KEY_DATA_SIZE;

/// Each byte `b` of `bytes` replaced by `0xFF - b`.
pub open spec fn complement(bytes: Seq<u8>) -> Seq<u8> {
    Seq::new(bytes.len(), |i: int| (0xFF - bytes[i]) as u8)
}

/// Each byte `b` of `bytes` replaced by `b + 1` modulo 256.
pub open spec fn successor(bytes: Seq<u8>) -> Seq<u8> {
    Seq::new(bytes.len(), |i: int| ((bytes[i] + 1) % 256) as u8)
}

/// A private key.
///
/// The secret seed and the secret key data live in containers that wipe them
/// on drop; the public seed and the public key data are plain values.
#[derive(Debug)]
pub struct PrivateKey {
    pub oid: u32,
    pub sk_seed: SecretSeed,
    pub sk_data: SecretKeyData,
    pub pk_seed: Seed,
    pub pk_data: KeyData,
}

/// What a private key holds, as plain values.
pub struct PrivateKeyView {
    pub oid: u32,
    pub sk_seed: Seq<u8>,
    pub sk_data: Seq<u8>,
    pub pk_seed: Seq<u8>,
    pub pk_data: Seq<u8>,
}

impl PrivateKeyView {
    /// The key before anything was derived or imported: all zero.
    pub open spec fn uninitialized() -> PrivateKeyView {
        PrivateKeyView {
            oid: 0,
            sk_seed: filled(0, SEED_SIZE as nat),
            sk_data: filled(0, KEY_DATA_SIZE as nat),
            pk_seed: filled(0, SEED_SIZE as nat),
            pk_data: filled(0, KEY_DATA_SIZE as nat),
        }
    }

    /// Every seed and every block of key data has its fixed length.
    pub open spec fn wf(self) -> bool {
        &&& self.sk_seed.len() == SEED_SIZE
        &&& self.sk_data.len() == KEY_DATA_SIZE
        &&& self.pk_seed.len() == SEED_SIZE
        &&& self.pk_data.len() == KEY_DATA_SIZE
    }

    /// The key data is what derivation makes of the seeds.
    pub open spec fn consistent(self) -> bool {
        &&& self.sk_data == complement(self.sk_seed)
        &&& self.pk_data == successor(self.pk_seed)
    }

    /// The key after derivation from the two seeds. The identifier stays.
    pub open spec fn derived(self, sk_seed: Seq<u8>, pk_seed: Seq<u8>) -> PrivateKeyView {
        PrivateKeyView {
            oid: self.oid,
            sk_seed,
            sk_data: complement(sk_seed),
            pk_seed,
            pk_data: successor(pk_seed),
        }
    }

    /// The wire form of the key: identifier, secret key data, public key data.
    pub open spec fn encoding(self) -> Seq<u8> {
        be_bytes_of_u32(self.oid) + self.sk_data + self.pk_data
    }

    /// The key after reading the wire form `data`. The seeds stay.
    pub open spec fn imported(self, data: Seq<u8>) -> PrivateKeyView
        recommends
            data.len() == EXPORT_SIZE,
    {
        PrivateKeyView {
            oid: u32_of_be_bytes(data.subrange(0, U32_SIZE as int)) as u32,
            sk_seed: self.sk_seed,
            sk_data: data.subrange(U32_SIZE as int, U32_SIZE + KEY_DATA_SIZE),
            pk_seed: self.pk_seed,
            pk_data: data.subrange(U32_SIZE + KEY_DATA_SIZE, EXPORT_SIZE as int),
        }
    }
}

impl View for PrivateKey {
    type V = PrivateKeyView;

    open spec fn view(&self) -> PrivateKeyView {
        PrivateKeyView {
            oid: self.oid,
            sk_seed: self.sk_seed@,
            sk_data: self.sk_data@,
            pk_seed: self.pk_seed@,
            pk_data: self.pk_data@,
        }
    }
}

impl Default for PrivateKey {
    /// The uninitialized key.
    fn default() -> (key: PrivateKey)
        ensures
            key@ == PrivateKeyView::uninitialized(),
    {
        PrivateKey {
            oid: 0,
            sk_seed: SecretSeed::new(Seed::default()),
            sk_data: SecretKeyData::new(KeyData::default()),
            pk_seed: Seed::default(),
            pk_data: KeyData::default(),
        }
    }
}

impl Clone for PrivateKey {
    /// A key with the same contents, in containers of its own.
    fn clone(&self) -> (copy: PrivateKey)
        ensures
            copy@ == self@,
    {
        PrivateKey {
            oid: self.oid,
            sk_seed: self.sk_seed.clone(),
            sk_data: self.sk_data.clone(),
            pk_seed: self.pk_seed.clone(),
            pk_data: self.pk_data.clone(),
        }
    }
}

/// Copies `src` over `dst`, byte by byte.
fn copy_bytes(dst: &mut [u8], src: &[u8])
    requires
        old(dst)@.len() == src@.len(),
    ensures
        final(dst)@ == src@,
{
    let n: usize = src.len();
    let mut i: usize = 0;
    while i < n
        invariant
            n == src@.len(),
            dst@.len() == n,
            i <= n,
            forall|j: int| 0 <= j < i ==> dst@[j] == src@[j],
        decreases n - i,
    {
        dst[i] = src[i];
        i += 1;
    }
    assert(dst@ =~= src@);
}

/// Puts a copy of `scratch` into a fresh container, then wipes `scratch`, so
/// that the container holds the only copy of the bytes.
fn seal_and_wipe(scratch: &mut KeyData) -> (secret: SecretKeyData)
    ensures
        secret@ == old(scratch)@,
        final(scratch)@ == filled(0, KEY_DATA_SIZE as nat),
{
    let secret = SecretKeyData::new(scratch.clone());
    scratch.zeroize();
    secret
}

impl PrivateKey {
    /// Writes the wire form of the key into `data`, which must be exactly
    /// [`EXPORT_SIZE`] bytes long. On any other length nothing is written and
    /// `false` is returned. The seeds are never written.
    pub fn export(&self, data: &mut [u8]) -> (ok: bool)
        ensures
            ok <==> old(data)@.len() == EXPORT_SIZE,
            ok ==> final(data)@ == self@.encoding(),
            !ok ==> final(data)@ == old(data)@,
    {
        if data.len() != EXPORT_SIZE {
            return false;
        }
        let (head, body) = data.split_at_mut(U32_SIZE);
        convert_uint32_to_big_endian_array(head, self.oid);
        let (sk, pk) = body.split_at_mut(KEY_DATA_SIZE);
        copy_bytes(sk, &self.sk_data.expose_secret().d);
        copy_bytes(pk, &self.pk_data.d);
        true
    }

    /// Reads the identifier and both blocks of key data from the wire form
    /// `data`, which must be exactly [`EXPORT_SIZE`] bytes long. On any other
    /// length the key is left as it was and `false` is returned. The seeds
    /// are not part of the wire form and are never touched.
    pub fn import(&mut self, data: &[u8]) -> (ok: bool)
        ensures
            ok <==> data@.len() == EXPORT_SIZE,
            ok ==> final(self)@ == old(self)@.imported(data@),
            ok ==> final(self).sk_seed == old(self).sk_seed,
            ok ==> final(self).pk_seed == old(self).pk_seed,
            !ok ==> *final(self) == *old(self),
    {
        if data.len() != EXPORT_SIZE {
            return false;
        }
        proof {
            lemma_bytes_round_trip(data@.subrange(0, U32_SIZE as int));
        }
        self.oid = convert_big_endian_array_to_uint32(&data[0..U32_SIZE]);
        let mut temp: KeyData = KeyData::default();
        copy_bytes(&mut temp.d, &data[U32_SIZE..U32_SIZE + KEY_DATA_SIZE]);
        self.sk_data = SecretKeyData::new(temp);
        copy_bytes(&mut self.pk_data.d, &data[U32_SIZE + KEY_DATA_SIZE..EXPORT_SIZE]);
        true
    }

    /// Stores the two seeds and derives both blocks of key data from them:
    /// each byte of the secret key data is `0xFF` minus the byte of the secret
    /// seed, each byte of the public key data is the byte of the public seed
    /// plus one, modulo 256. The identifier is left as it was.
    ///
    /// This transform only exercises the handling of secrets. It is not a key
    /// derivation function.
    pub fn private_keygen(&mut self, sk_seed: &SecretSeed, pk_seed: &Seed)
        ensures
            final(self)@ == old(self)@.derived(sk_seed@, pk_seed@),
            final(self)@.consistent(),
            forall|i: int|
                0 <= i < KEY_DATA_SIZE ==> #[trigger] final(self).sk_data@[i] == 0xFF - sk_seed@[i],
            forall|i: int|
                0 <= i < KEY_DATA_SIZE ==> #[trigger] final(self).pk_data@[i] == (pk_seed@[i] + 1)
                    % 256,
    {
        self.sk_seed = sk_seed.clone();
        self.pk_seed = pk_seed.clone();

        // The scratch buffer for the secret bytes lives on the heap, where it
        // stays put until it is wiped.
        let mut sk_data = Box::new(KeyData::default());
        let seed = self.sk_seed.expose_secret();
        let mut i: usize = 0;
        while i < SEED_SIZE
            invariant
                i <= SEED_SIZE,
                seed@ == sk_seed@,
                forall|j: int| 0 <= j < i ==> sk_data.d@[j] == 0xFF - sk_seed@[j],
            decreases SEED_SIZE - i,
        {
            let byte: u8 = 0xff_u8 - seed.s[i];
            sk_data.d[i] = byte;
            i += 1;
        }
        assert(sk_data@ =~= complement(sk_seed@));
        self.sk_data = seal_and_wipe(&mut *sk_data);

        let mut pk_data: KeyData = KeyData::default();
        let mut i: usize = 0;
        while i < SEED_SIZE
            invariant
                i <= SEED_SIZE,
                self.pk_seed@ == pk_seed@,
                forall|j: int| 0 <= j < i ==> pk_data.d@[j] == (pk_seed@[j] + 1) % 256,
            decreases SEED_SIZE - i,
        {
            let byte: u8 = self.pk_seed.s[i].wrapping_add(1);
            pk_data.d[i] = byte;
            i += 1;
        }
        assert(pk_data@ =~= successor(pk_seed@));
        self.pk_data = pk_data;
    }
}

/// Whatever a key holds, its seeds and its key data have their fixed lengths.
pub proof fn lemma_key_is_well_formed(key: &PrivateKey)
    ensures
        key@.wf(),
{
}

/// A key read from a 68-byte buffer and written out again gives back the
/// buffer, byte for byte, whatever the key held before.
pub proof fn lemma_import_then_export(key: PrivateKeyView, data: Seq<u8>)
    requires
        data.len() == EXPORT_SIZE,
    ensures
        key.imported(data).encoding() == data,
{
    lemma_bytes_round_trip(data.subrange(0, U32_SIZE as int));
    assert(key.imported(data).encoding() =~= data);
}

/// A key written out and read back, into any key, gives back the
/// identifier and both blocks of key data; the seeds of the reading key stay.
pub proof fn lemma_export_then_import(key: PrivateKeyView, into: PrivateKeyView)
    requires
        key.wf(),
    ensures
        key.encoding().len() == EXPORT_SIZE,
        into.imported(key.encoding()) == (PrivateKeyView {
            oid: key.oid,
            sk_seed: into.sk_seed,
            sk_data: key.sk_data,
            pk_seed: into.pk_seed,
            pk_data: key.pk_data,
        }),
{
    lemma_u32_round_trip(key.oid);
    let wire = key.encoding();
    assert(wire.subrange(0, U32_SIZE as int) =~= be_bytes_of_u32(key.oid));
    assert(wire.subrange(U32_SIZE as int, U32_SIZE + KEY_DATA_SIZE) =~= key.sk_data);
    assert(wire.subrange(U32_SIZE + KEY_DATA_SIZE, EXPORT_SIZE as int) =~= key.pk_data);
}

/// Derivation depends on the seeds alone: two keys derived from the same
/// seeds hold the same seeds and the same key data, whatever they held before.
pub proof fn lemma_derivation_deterministic(
    a: PrivateKeyView,
    b: PrivateKeyView,
    sk_seed: Seq<u8>,
    pk_seed: Seq<u8>,
)
    ensures
        a.derived(sk_seed, pk_seed).sk_data == b.derived(sk_seed, pk_seed).sk_data,
        a.derived(sk_seed, pk_seed).pk_data == b.derived(sk_seed, pk_seed).pk_data,
        a.derived(sk_seed, pk_seed).sk_seed == b.derived(sk_seed, pk_seed).sk_seed,
        a.derived(sk_seed, pk_seed).pk_seed == b.derived(sk_seed, pk_seed).pk_seed,
{
}

/// Derivation can be undone: the seeds are found again from the key data, so
/// two pairs of seeds that derive the same key data are the same seeds.
pub proof fn lemma_derivation_invertible(key: PrivateKeyView, other: PrivateKeyView)
    requires
        key.consistent(),
        other.consistent(),
        key.sk_data == other.sk_data,
        key.pk_data == other.pk_data,
    ensures
        key.sk_seed == complement(key.sk_data),
        key.sk_seed == other.sk_seed,
        key.pk_seed == other.pk_seed,
{
    assert(key.sk_seed =~= complement(complement(key.sk_seed)));
    assert(other.sk_seed =~= complement(complement(other.sk_seed)));
    assert(key.pk_seed.len() == successor(key.pk_seed).len());
    assert(other.pk_seed.len() == successor(other.pk_seed).len());
    assert forall|i: int| 0 <= i < key.pk_seed.len() implies key.pk_seed[i] == other.pk_seed[i] by {
        assert(successor(key.pk_seed)[i] == successor(other.pk_seed)[i]);
    }
    assert(key.pk_seed =~= other.pk_seed);
}

} // verus!
