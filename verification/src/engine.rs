//! The homomorphic arithmetic engine.
//!
//! This module wraps the external encryption scheme (the `tfhe` crate).
//! A live ciphertext is modelled as the plaintext it encrypts, carried as a
//! ghost value beside the opaque scheme ciphertext; an at-rest ciphertext is
//! the compressed, serialized byte form of the same value. Every operation
//! is tied to a [`SchemeContext`], the capability that holds the scheme's
//! key pair, so that ciphertexts of different key pairs cannot be mixed in
//! verified code. The scheme evaluates under a thread-local server key;
//! every operation that needs it installs the context's key first.

use vstd::prelude::*;

use crate::LedgerError;
use crate::wrap_add;
use crate::wrap_sub;
use tfhe::prelude::FheDecrypt;
use tfhe::prelude::FheEncrypt;
use tfhe::prelude::FheOrd;
use tfhe::prelude::IfThenElse;

verus! {

/// An opaque live ciphertext of the scheme. The scheme's unsigned-integer
/// ciphertext type cannot be declared to the verifier (its generic bound is
/// not publicly nameable), so it is held opaquely here.
#[verifier::external_body]
pub struct LiveUint64 {
    inner: tfhe::FheUint64,
}

#[verifier::external_type_specification]
#[verifier::external_body]
pub struct ExFheBool(tfhe::FheBool);

#[verifier::external_type_specification]
#[verifier::external_body]
pub struct ExClientKey(tfhe::ClientKey);

#[verifier::external_type_specification]
#[verifier::external_body]
pub struct ExServerKey(tfhe::ServerKey);

/// The capability needed to run engine operations: the client and server
/// keys of the active scheme, together with the (ghost) identity of the
/// key pair they form. The scheme keeps its evaluation key in thread-local
/// state and must have it initialized on every thread that evaluates, so
/// each engine operation that needs it installs this context's server key
/// for the calling thread before it runs.
pub struct SchemeContext {
    client_key: tfhe::ClientKey,
    server_key: tfhe::ServerKey,
    key_pair: Ghost<int>,
    compression: Ghost<bool>,
}

/// A live encrypted balance: an unsigned 64-bit integer under the scheme,
/// decompressed and ready for arithmetic. Its view is the plaintext it
/// encrypts under the client key of the context identified by `key_id`.
pub struct EncryptedBalance {
    ct: LiveUint64,
    plain: Ghost<u64>,
    under: Ghost<int>,
}

/// A live encrypted boolean, as produced by the homomorphic comparison.
/// Its view is the truth value it encrypts.
pub struct EncryptedFlag {
    ct: tfhe::FheBool,
    plain: Ghost<bool>,
    under: Ghost<int>,
}

/// An at-rest encrypted balance: the compressed, serialized byte form.
/// Its view is the plaintext of the ciphertext the bytes decode to.
pub struct StoredCiphertext {
    bytes: Vec<u8>,
    plain: Ghost<u64>,
    under: Ghost<int>,
    packed: Ghost<bool>,
}

impl View for EncryptedBalance {
    type V = u64;

    closed spec fn view(&self) -> u64 {
        self.plain@
    }
}

impl View for EncryptedFlag {
    type V = bool;

    closed spec fn view(&self) -> bool {
        self.plain@
    }
}

impl View for StoredCiphertext {
    type V = u64;

    closed spec fn view(&self) -> u64 {
        self.plain@
    }
}

impl SchemeContext {
    /// The (ghost) identity of the key pair this context was built from.
    pub closed spec fn id(&self) -> int {
        self.key_pair@
    }

    /// Whether this context's server key carries the compression and
    /// decompression keys, so that packing to and preparing from the
    /// at-rest form succeed.
    pub closed spec fn compression_ready(&self) -> bool {
        self.compression@
    }

    /// Generates a fresh key pair with ciphertext compression enabled.
    ///
    /// Relies on `tfhe::generate_keys` producing a matching client/server
    /// key pair, with compression enabled in the config, so the server key
    /// carries the compression and decompression keys; the server key is
    /// kept in the context, and the operations that evaluate under it
    /// install it per thread themselves.
    #[verifier::external_body]
    pub fn generate() -> (r: SchemeContext)
        ensures
            r.compression_ready(),
    {
        let config = tfhe::ConfigBuilder::default()
            .enable_compression(
                tfhe::shortint::parameters::COMP_PARAM_MESSAGE_2_CARRY_2_KS_PBS,
            )
            .build();
        let (client_key, server_key) = tfhe::generate_keys(config);
        SchemeContext { client_key, server_key, key_pair: Ghost(0), compression: Ghost(true) }
    }

    /// Builds a context from externally provisioned key material.
    ///
    /// Relies on the caller (the key provisioning layer) supplying a
    /// `server_key` that was generated from `client_key`: the pairing
    /// cannot be checked here, and with a mismatched pair the scheme's
    /// results are unspecified.
    #[verifier::external_body]
    pub fn from_key_pair(client_key: tfhe::ClientKey, server_key: tfhe::ServerKey) -> (r:
        SchemeContext) {
        SchemeContext { client_key, server_key, key_pair: Ghost(0), compression: Ghost(false) }
    }
}

impl EncryptedBalance {
    /// The (ghost) identity of the key pair this ciphertext lives under.
    pub closed spec fn key_id(&self) -> int {
        self.under@
    }
}

impl EncryptedFlag {
    /// The (ghost) identity of the key pair this ciphertext lives under.
    pub closed spec fn key_id(&self) -> int {
        self.under@
    }
}

impl StoredCiphertext {
    /// The (ghost) identity of the key pair this blob was produced under.
    pub closed spec fn key_id(&self) -> int {
        self.under@
    }

    /// Whether this blob was packed by this library's own serializer, so
    /// that preparing it back to the live form follows the scheme's
    /// deterministic round trip.
    pub closed spec fn is_packed(&self) -> bool {
        self.packed@
    }

    /// The serialized byte string this blob consists of.
    pub closed spec fn spec_bytes(&self) -> Seq<u8> {
        self.bytes@
    }

    /// The serialized bytes, as stored and transmitted.
    pub fn as_bytes(&self) -> (r: &Vec<u8>)
        ensures
            r@ == self.spec_bytes(),
    {
        &self.bytes
    }

    /// Gives up the blob, leaving only the serialized bytes.
    pub fn into_bytes(self) -> (r: Vec<u8>)
        ensures
            r@ == self.spec_bytes(),
    {
        self.bytes
    }

    /// Wraps caller-supplied at-rest bytes, as received from outside the
    /// process. Nothing is known of the value inside, nor of the key pair
    /// it may have been produced under, so no contract mentions either.
    pub fn from_raw_bytes(bytes: Vec<u8>) -> (r: StoredCiphertext)
        ensures
            r.spec_bytes() == bytes@,
    {
        StoredCiphertext {
            bytes,
            plain: Ghost(vstd::pervasive::arbitrary()),
            under: Ghost(vstd::pervasive::arbitrary()),
            packed: Ghost(vstd::pervasive::arbitrary()),
        }
    }
}

/// Encrypts a plaintext under the context's client key.
///
/// Relies on `tfhe`'s `FheEncrypt` for `FheUint64`: the ciphertext decrypts
/// back to `v` under the same client key.
#[verifier::external_body]
pub(crate) fn encrypt(v: u64, ctx: &SchemeContext) -> (r: EncryptedBalance)
    ensures
        r@ == v,
        r.key_id() == ctx.id(),
{
    let ct = tfhe::FheUint64::encrypt(v, &ctx.client_key);
    EncryptedBalance { ct: LiveUint64 { inner: ct }, plain: Ghost(0), under: Ghost(0) }
}

/// Decrypts a live ciphertext under the context's client key.
///
/// Relies on `tfhe`'s `FheDecrypt` for `FheUint64`: decryption under the
/// client key of the pair the ciphertext was produced under returns its
/// plaintext.
#[verifier::external_body]
pub(crate) fn decrypt(c: &EncryptedBalance, ctx: &SchemeContext) -> (r: u64)
    requires
        c.key_id() == ctx.id(),
    ensures
        r == c@,
{
    c.ct.inner.decrypt(&ctx.client_key)
}

/// Homomorphic comparison: evaluates `a >= b` without decrypting either side.
///
/// Relies on `tfhe`'s `FheOrd::ge` for `FheUint64`, run after
/// `tfhe::set_server_key` has installed the context's evaluation key for
/// the calling thread (the scheme keeps that key in thread-local state).
#[verifier::external_body]
pub(crate) fn compare_ge(a: &EncryptedBalance, b: &EncryptedBalance, ctx: &SchemeContext) -> (r:
    EncryptedFlag)
    requires
        a.key_id() == ctx.id(),
        b.key_id() == ctx.id(),
    ensures
        r@ == (a@ >= b@),
        r.key_id() == ctx.id(),
{
    tfhe::set_server_key(ctx.server_key.clone());
    EncryptedFlag { ct: a.ct.inner.ge(&b.ct.inner), plain: Ghost(false), under: Ghost(0) }
}

/// Homomorphic ternary: returns `if_true` where `cond` holds, `if_false`
/// otherwise, without decrypting the condition.
///
/// Relies on `tfhe`'s `IfThenElse::if_then_else` for `FheBool`, run after
/// `tfhe::set_server_key` has installed the context's evaluation key for
/// the calling thread.
#[verifier::external_body]
pub(crate) fn select(
    cond: &EncryptedFlag,
    if_true: &EncryptedBalance,
    if_false: &EncryptedBalance,
    ctx: &SchemeContext,
) -> (r: EncryptedBalance)
    requires
        cond.key_id() == ctx.id(),
        if_true.key_id() == ctx.id(),
        if_false.key_id() == ctx.id(),
    ensures
        r@ == if cond@ {
            if_true@
        } else {
            if_false@
        },
        r.key_id() == ctx.id(),
{
    tfhe::set_server_key(ctx.server_key.clone());
    let ct = cond.ct.if_then_else(&if_true.ct.inner, &if_false.ct.inner);
    EncryptedBalance { ct: LiveUint64 { inner: ct }, plain: Ghost(0), under: Ghost(0) }
}

/// Homomorphic addition, modulo 2^64.
///
/// Relies on `tfhe`'s `Add` impl for `FheUint64`, whose arithmetic is
/// modular, run after `tfhe::set_server_key` has installed the context's
/// evaluation key for the calling thread.
#[verifier::external_body]
pub(crate) fn enc_add(a: &EncryptedBalance, b: &EncryptedBalance, ctx: &SchemeContext) -> (r:
    EncryptedBalance)
    requires
        a.key_id() == ctx.id(),
        b.key_id() == ctx.id(),
    ensures
        r@ == wrap_add(a@, b@),
        r.key_id() == ctx.id(),
{
    tfhe::set_server_key(ctx.server_key.clone());
    let ct = &a.ct.inner + &b.ct.inner;
    EncryptedBalance { ct: LiveUint64 { inner: ct }, plain: Ghost(0), under: Ghost(0) }
}

/// Homomorphic subtraction, modulo 2^64.
///
/// Relies on `tfhe`'s `Sub` impl for `FheUint64`, whose arithmetic is
/// modular, run after `tfhe::set_server_key` has installed the context's
/// evaluation key for the calling thread.
#[verifier::external_body]
pub(crate) fn enc_sub(a: &EncryptedBalance, b: &EncryptedBalance, ctx: &SchemeContext) -> (r:
    EncryptedBalance)
    requires
        a.key_id() == ctx.id(),
        b.key_id() == ctx.id(),
    ensures
        r@ == wrap_sub(a@, b@),
        r.key_id() == ctx.id(),
{
    tfhe::set_server_key(ctx.server_key.clone());
    let ct = &a.ct.inner - &b.ct.inner;
    EncryptedBalance { ct: LiveUint64 { inner: ct }, plain: Ghost(0), under: Ghost(0) }
}

/// Packs a live ciphertext into the scheme's compressed container and
/// serializes it to the at-rest byte form.
///
/// Relies on `tfhe`'s `CompressedCiphertextListBuilder` and on
/// `bincode::serialize`: the container holds exactly the given ciphertext,
/// so the at-rest form decodes back to the same plaintext. The builder
/// compresses under the calling thread's server key, so the context's key
/// is installed first; its only failure is the absence of a compression
/// key in that server key, and serializing the container into a byte
/// vector does not fail, so a compression-ready context is promised
/// success.
#[verifier::external_body]
pub(crate) fn compress_serialize(c: &EncryptedBalance, ctx: &SchemeContext) -> (r: Result<
    StoredCiphertext,
    LedgerError,
>)
    requires
        c.key_id() == ctx.id(),
    ensures
        r matches Ok(b) ==> b@ == c@ && b.key_id() == ctx.id() && b.is_packed(),
        r matches Err(e) ==> e == LedgerError::OperationError,
        ctx.compression_ready() ==> r is Ok,
{
    tfhe::set_server_key(ctx.server_key.clone());
    let list = match tfhe::CompressedCiphertextListBuilder::new().push(c.ct.inner.clone()).build() {
        Ok(l) => l,
        Err(_) => {
            return Err(LedgerError::OperationError);
        },
    };
    match bincode::serialize(&list) {
        Ok(bytes) => Ok(
            StoredCiphertext { bytes, plain: Ghost(0), under: Ghost(0), packed: Ghost(false) },
        ),
        Err(_) => Err(LedgerError::OperationError),
    }
}

/// Deserializes an at-rest blob produced under this context and decompresses
/// it back to the live form.
///
/// Relies on `bincode::deserialize` and on `tfhe`'s
/// `CompressedCiphertextList::get`: on the bytes written by
/// [`compress_serialize`] — the only blobs the `requires` admits — they
/// reproduce a ciphertext of the same plaintext, deterministically and
/// without failure as long as the server key carries the decompression
/// key, which a compression-ready context's does. Decompression runs under
/// the calling thread's server key, so the context's key is installed
/// first.
#[verifier::external_body]
pub(crate) fn prepare_stored(b: &StoredCiphertext, ctx: &SchemeContext) -> (r: Result<
    EncryptedBalance,
    LedgerError,
>)
    requires
        b.key_id() == ctx.id(),
        b.is_packed(),
    ensures
        r matches Ok(c) ==> c@ == b@ && c.key_id() == ctx.id(),
        r matches Err(e) ==> e == LedgerError::DecodeError,
        ctx.compression_ready() ==> r is Ok,
{
    tfhe::set_server_key(ctx.server_key.clone());
    let list: tfhe::CompressedCiphertextList = match bincode::deserialize(&b.bytes) {
        Ok(l) => l,
        Err(_) => {
            return Err(LedgerError::DecodeError);
        },
    };
    match list.get::<tfhe::FheUint64>(0) {
        Ok(Some(ct)) => Ok(
            EncryptedBalance { ct: LiveUint64 { inner: ct }, plain: Ghost(0), under: Ghost(0) },
        ),
        _ => Err(LedgerError::DecodeError),
    }
}

/// The clamped debit: the transfer amount where the balance covers it, the
/// fallback (the ledger's encrypted zero) where it does not.
pub open spec fn clamped(balance: u64, amount: u64, fallback: u64) -> u64 {
    if balance >= amount {
        amount
    } else {
        fallback
    }
}

/// Clamps a debit to the available balance, entirely under encryption: a
/// homomorphic comparison decides between the requested amount and the
/// fallback, and the decision never leaves ciphertext form.
pub fn clamp_debit(
    balance: &EncryptedBalance,
    amount: &EncryptedBalance,
    fallback: &EncryptedBalance,
    ctx: &SchemeContext,
) -> (r: EncryptedBalance)
    requires
        balance.key_id() == ctx.id(),
        amount.key_id() == ctx.id(),
        fallback.key_id() == ctx.id(),
    ensures
        r@ == clamped(balance@, amount@, fallback@),
        r.key_id() == ctx.id(),
{
    let cond = compare_ge(balance, amount, ctx);
    select(&cond, amount, fallback, ctx)
}

/// The full codec round trip: encrypt a value, pack it to the at-rest form,
/// prepare it back to a live ciphertext, and decrypt. Whenever the scheme
/// completes all four steps the value comes back unchanged, and under a
/// compression-ready context all four steps succeed.
pub fn codec_round_trip(v: u64, ctx: &SchemeContext) -> (r: Result<u64, LedgerError>)
    ensures
        r matches Ok(x) ==> x == v,
        ctx.compression_ready() ==> r is Ok,
{
    let live = encrypt(v, ctx);
    let at_rest = match compress_serialize(&live, ctx) {
        Ok(b) => b,
        Err(e) => {
            return Err(e);
        },
    };
    let again = match prepare_stored(&at_rest, ctx) {
        Ok(c) => c,
        Err(e) => {
            return Err(e);
        },
    };
    Ok(decrypt(&again, ctx))
}

} // verus!
