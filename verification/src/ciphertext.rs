//! Ciphertexts of 32-bit unsigned integers and the operations on them. The
//! cryptography is `tfhe`'s and the byte form is `bincode`'s; every function in
//! this module that reaches into them is trusted, and its doc comment says what
//! is taken on trust. Nothing here hands a key to `tfhe` that is not sound.

use crate::artifact::Artifact;
use crate::artifact::PipelineError;
use crate::keys::evaluation_key_is_sound;
use crate::keys::secret_key_is_sound;
use crate::keys::sound_evaluation_key;
use crate::keys::sound_secret_key;
use tfhe::integer::IntegerCiphertext;
use tfhe::prelude::FheDecrypt;
use tfhe::prelude::FheEncrypt;
use tfhe::prelude::ParameterSetConformant;
use vstd::prelude::*;
use vstd::slice::slice_subrange;
use vstd::slice::slice_to_vec;

verus! {

/// An encrypted 32-bit unsigned integer: a sequence of blocks, least
/// significant first. The blocks are `tfhe`'s; the verifier sees them only
/// through [`ciphertext_data`]. `tfhe` does not export the trait that bounds
/// the parameter of its ciphertext type, so that type cannot be declared to
/// the verifier and is held inside this one instead.
#[verifier::external_body]
pub struct Ciphertext {
    inner: tfhe::FheUint32,
}

/// The raw numbers of one ciphertext block: the mask coefficients and the body.
#[derive(Debug, PartialEq, Eq)]
pub struct LweBlock {
    pub mask: Vec<u64>,
    pub body: u64,
}

impl View for LweBlock {
    type V = (Seq<u64>, u64);

    open spec fn view(&self) -> (Seq<u64>, u64) {
        (self.mask@, self.body)
    }
}

/// The views of a vector of blocks, in order.
pub open spec fn block_views(blocks: Seq<LweBlock>) -> Seq<(Seq<u64>, u64)> {
    blocks.map_values(|b: LweBlock| b@)
}

/// The views of a vector of vectors of numbers, in order.
pub open spec fn data_views(data: Seq<Vec<u64>>) -> Seq<Seq<u64>> {
    data.map_values(|numbers: Vec<u64>| numbers@)
}

/// What a ciphertext holds: for each block, the numbers of its LWE
/// ciphertext, which are the mask coefficients and, last, the body.
pub uninterp spec fn ciphertext_data(ct: Ciphertext) -> Seq<Seq<u64>>;

/// Whether every block holds at least one number, which is then its body.
pub open spec fn has_bodies(data: Seq<Seq<u64>>) -> bool {
    forall|i: int| 0 <= i < data.len() ==> (#[trigger] data[i]).len() >= 1
}

/// The mask and the body of a block, from its numbers: the body is the last
/// number, the mask all that come before it.
pub open spec fn block_of(numbers: Seq<u64>) -> (Seq<u64>, u64)
    recommends
        numbers.len() >= 1,
{
    (numbers.drop_last(), numbers.last())
}

/// The masks and bodies of the blocks of a ciphertext, from what it holds.
pub open spec fn blocks_of(data: Seq<Seq<u64>>) -> Seq<(Seq<u64>, u64)> {
    data.map_values(|numbers: Seq<u64>| block_of(numbers))
}

/// Whether `tfhe` finds a ciphertext well formed for the default parameters
/// of the scheme: the block count and every block's shape, moduli, order,
/// degree and noise level are those of a fresh ciphertext. Every sound key
/// holds the default parameters, so the verdict is the same whichever sound
/// key it is asked of.
pub uninterp spec fn conforms(ct: Ciphertext) -> bool;

/// The value that a ciphertext decrypts to under a secret key.
pub uninterp spec fn plaintext_of(ct: Ciphertext, key: tfhe::ClientKey) -> u32;

/// The bytes of a ciphertext.
pub uninterp spec fn encoded_ciphertext(ct: Ciphertext) -> Seq<u8>;

/// The ciphertext that bytes decode to, or `None` where they do not decode.
pub uninterp spec fn decoded_ciphertext(bytes: Seq<u8>) -> Option<Ciphertext>;

/// The layout of a ciphertext of the default parameters: sixteen blocks of
/// two bits each, every block with 2048 mask coefficients and a body.
pub open spec fn default_layout(data: Seq<Seq<u64>>) -> bool {
    &&& data.len() == 16
    &&& forall|i: int| 0 <= i < data.len() ==> (#[trigger] data[i]).len() == 2049
}

/// Two ciphertexts have the same layout when they have as many blocks and, block
/// by block, as many numbers.
pub open spec fn same_layout(a: Seq<Seq<u64>>, b: Seq<Seq<u64>>) -> bool {
    &&& a.len() == b.len()
    &&& forall|i: int| 0 <= i < a.len() ==> (#[trigger] a[i]).len() == b[i].len()
}

/// Trusted: `FheUint32::encrypt` under a sound secret key. Encryption is
/// randomized, so the ciphertext itself is not claimed. Claimed of every
/// outcome: it is well formed for the default parameters, and it decrypts
/// under the key to the value that was encrypted.
#[verifier::external_body]
pub(crate) fn encrypt_u32(value: u32, key: &tfhe::ClientKey) -> (ct: Ciphertext)
    requires
        sound_secret_key(*key),
    ensures
        conforms(ct),
        plaintext_of(ct, *key) == value,
{
    Ciphertext { inner: tfhe::FheUint32::encrypt(value, key) }
}

/// Trusted: `FheUint32::is_conformant` against the parameters that
/// `FheUint32ConformanceParams::from` reads off a sound evaluation key, which
/// are the default ones. The result is `tfhe`'s verdict, named [`conforms`].
/// Claimed of a ciphertext that passes: it has the default layout, since
/// `tfhe` compares the block count with sixteen and the count of every
/// block's numbers with the dimension 2048 plus one.
#[verifier::external_body]
pub(crate) fn conforms_to_evaluation_key(ct: &Ciphertext, key: &tfhe::ServerKey) -> (ok: bool)
    requires
        sound_evaluation_key(*key),
    ensures
        ok == conforms(*ct),
        ok ==> default_layout(ciphertext_data(*ct)),
{
    ct.inner.is_conformant(&tfhe::FheUint32ConformanceParams::from(key))
}

/// Trusted: `FheUint32::is_conformant` against the parameters that
/// `tfhe::integer::ClientKey::parameters` gives for a sound secret key, which
/// are the default ones. The result is `tfhe`'s verdict, named [`conforms`],
/// with the same claim of a ciphertext that passes.
#[verifier::external_body]
pub(crate) fn conforms_to_secret_key(ct: &Ciphertext, key: &tfhe::ClientKey) -> (ok: bool)
    requires
        sound_secret_key(*key),
    ensures
        ok == conforms(*ct),
        ok ==> default_layout(ciphertext_data(*ct)),
{
    let integer_key: &tfhe::integer::ClientKey = key.as_ref();
    ct.inner.is_conformant(&tfhe::FheUint32ConformanceParams::from(integer_key.parameters()))
}

/// Trusted: `tfhe::set_server_key` followed by `&a + &b` on `FheUint32`. The
/// evaluation key is installed here, so the addition never runs without one.
/// The key must be sound and both operands well formed. Claimed of the sum:
/// it is well formed again, since every block of it comes out of a message
/// extraction, which leaves the degree and the noise level of a fresh block;
/// and it has the layout of the operands, since `tfhe` computes it in place
/// on a copy of the left one. What it decrypts to is not claimed: the scheme
/// gives the sum modulo 2^32 up to the probability that a bootstrapping
/// fails, which `tfhe` puts at 2^-40 for its default parameters, not on every
/// outcome.
#[verifier::external_body]
pub(crate) fn add_ciphertexts(key: &tfhe::ServerKey, a: &Ciphertext, b: &Ciphertext) -> (sum:
    Ciphertext)
    requires
        sound_evaluation_key(*key),
        conforms(*a),
        conforms(*b),
    ensures
        conforms(sum),
        same_layout(ciphertext_data(sum), ciphertext_data(*a)),
{
    tfhe::set_server_key(key.clone());
    Ciphertext { inner: &a.inner + &b.inner }
}

/// Trusted: `FheUint32::decrypt` to `u32`. The key must be sound and the
/// ciphertext well formed. The value is a function of ciphertext and key,
/// named [`plaintext_of`].
#[verifier::external_body]
pub(crate) fn decrypt_u32(ct: &Ciphertext, key: &tfhe::ClientKey) -> (value: u32)
    requires
        sound_secret_key(*key),
        conforms(*ct),
    ensures
        value == plaintext_of(*ct, *key),
{
    ct.inner.decrypt(key)
}

/// Trusted: `FheUint32::into_raw_parts`, then for each block of the radix
/// ciphertext the numbers of its LWE ciphertext, copied out. The result is
/// what the ciphertext holds.
#[verifier::external_body]
pub(crate) fn raw_data(ct: Ciphertext) -> (data: Vec<Vec<u64>>)
    ensures
        data_views(data@) == ciphertext_data(ct),
{
    let (radix, _id) = ct.inner.into_raw_parts();
    radix.blocks().iter().map(
        |block| {
            let numbers: &[u64] = block.ct.as_ref();
            numbers.to_vec()
        },
    ).collect()
}

/// Trusted: `bincode::serialize` on the ciphertext. It never fails: `bincode`
/// writes into memory without a limit, and its only other error is a
/// sequence of unknown length, which no part of a ciphertext is. The result
/// is a function of the ciphertext, named [`encoded_ciphertext`]. Claimed of
/// the bytes: they start with the count of the blocks, which takes eight
/// bytes, and they decode to the same ciphertext again.
#[verifier::external_body]
pub(crate) fn encode_ciphertext(ct: &Ciphertext) -> (r: Result<Vec<u8>, Box<bincode::ErrorKind>>)
    ensures
        r is Ok,
        r->Ok_0@ == encoded_ciphertext(*ct),
        r->Ok_0@.len() >= 8,
        decoded_ciphertext(r->Ok_0@) == Some(*ct),
{
    bincode::serialize(&ct.inner)
}

/// Trusted: `bincode::deserialize` to a ciphertext. Whether it succeeds, and
/// with what ciphertext, is a function of the bytes, named
/// [`decoded_ciphertext`]; bytes after the ciphertext are ignored.
#[verifier::external_body]
pub(crate) fn decode_ciphertext(bytes: &[u8]) -> (r: Result<Ciphertext, Box<bincode::ErrorKind>>)
    ensures
        match r {
            Ok(ct) => decoded_ciphertext(bytes@) == Some(ct),
            Err(_) => decoded_ciphertext(bytes@) is None,
        },
{
    match bincode::deserialize(bytes) {
        Ok(inner) => Ok(Ciphertext { inner }),
        Err(e) => Err(e),
    }
}

/// The first reason, if any, for which two ciphertexts cannot be added under
/// an evaluation key: the key is not sound, or an operand is not well formed,
/// the left one first.
pub open spec fn operand_mismatch(
    evaluation: tfhe::ServerKey,
    a: Ciphertext,
    b: Ciphertext,
) -> Option<PipelineError> {
    if !sound_evaluation_key(evaluation) {
        Some(PipelineError::Incompatible(Artifact::EvaluationKey))
    } else if !conforms(a) {
        Some(PipelineError::Incompatible(Artifact::InputA))
    } else if !conforms(b) {
        Some(PipelineError::Incompatible(Artifact::InputB))
    } else {
        None
    }
}

/// Whether a ciphertext can be decrypted under a secret key: the key is sound
/// and the ciphertext well formed.
pub open spec fn decryptable(ct: Ciphertext, secret: tfhe::ClientKey) -> bool {
    sound_secret_key(secret) && conforms(ct)
}

/// Encrypts a 32-bit unsigned integer under a sound secret key; a key that is
/// not sound is refused. Encryption is randomized: the same value gives
/// another ciphertext at every call. Every one of them is well formed and
/// decrypts to the value.
pub fn encrypt(value: u32, secret: &tfhe::ClientKey) -> (r: Result<Ciphertext, PipelineError>)
    ensures
        match r {
            Ok(ct) => decryptable(ct, *secret) && plaintext_of(ct, *secret) == value,
            Err(e) => !sound_secret_key(*secret) && e == PipelineError::Incompatible(
                Artifact::SecretKey,
            ),
        },
{
    if secret_key_is_sound(secret) {
        Ok(encrypt_u32(value, secret))
    } else {
        Err(PipelineError::Incompatible(Artifact::SecretKey))
    }
}

/// Decrypts a well-formed ciphertext under a sound secret key; anything else
/// is refused as incompatible with the key.
pub fn decrypt(ct: &Ciphertext, secret: &tfhe::ClientKey) -> (r: Result<u32, PipelineError>)
    ensures
        decryptable(*ct, *secret) ==> r == Ok::<u32, PipelineError>(plaintext_of(*ct, *secret)),
        !decryptable(*ct, *secret) ==> r == Err::<u32, PipelineError>(
            PipelineError::Incompatible(Artifact::SecretKey),
        ),
{
    if secret_key_is_sound(secret) && conforms_to_secret_key(ct, secret) {
        Ok(decrypt_u32(ct, secret))
    } else {
        Err(PipelineError::Incompatible(Artifact::SecretKey))
    }
}

/// Checks that two ciphertexts can be added under an evaluation key: gives
/// the first reason for which they cannot, or `None`. Operands that can be
/// added have the default layout.
pub fn check_operands(evaluation: &tfhe::ServerKey, a: &Ciphertext, b: &Ciphertext) -> (r: Option<
    PipelineError,
>)
    ensures
        r == operand_mismatch(*evaluation, *a, *b),
        r is None ==> default_layout(ciphertext_data(*a)) && default_layout(ciphertext_data(*b)),
{
    if !evaluation_key_is_sound(evaluation) {
        Some(PipelineError::Incompatible(Artifact::EvaluationKey))
    } else if !conforms_to_evaluation_key(a, evaluation) {
        Some(PipelineError::Incompatible(Artifact::InputA))
    } else if !conforms_to_evaluation_key(b, evaluation) {
        Some(PipelineError::Incompatible(Artifact::InputB))
    } else {
        None
    }
}

/// Adds two ciphertexts under an evaluation key, which is handed over
/// explicitly. A key that is not sound and an operand that is not well formed
/// are refused; otherwise the addition succeeds. The sum is a new ciphertext,
/// well formed and of the default layout; neither operand changes. What the
/// sum decrypts to is the scheme's promise, not this contract's: see
/// [`add_ciphertexts`].
pub fn homomorphic_add(evaluation: &tfhe::ServerKey, a: &Ciphertext, b: &Ciphertext) -> (r: Result<
    Ciphertext,
    PipelineError,
>)
    ensures
        match r {
            Ok(sum) => {
                &&& operand_mismatch(*evaluation, *a, *b) is None
                &&& conforms(sum)
                &&& default_layout(ciphertext_data(sum))
            },
            Err(e) => operand_mismatch(*evaluation, *a, *b) == Some(e),
        },
{
    match check_operands(evaluation, a, b) {
        Some(e) => Err(e),
        None => {
            let sum = add_ciphertexts(evaluation, a, b);
            assert(default_layout(ciphertext_data(sum)));
            Ok(sum)
        },
    }
}

/// Splits the numbers of one block into mask and body. A block without
/// numbers has neither.
pub fn split_block(numbers: &Vec<u64>) -> (r: Option<LweBlock>)
    ensures
        numbers@.len() == 0 ==> r is None,
        numbers@.len() >= 1 ==> r is Some && r->Some_0@ == block_of(numbers@),
{
    let n: usize = numbers.len();
    if n == 0 {
        None
    } else {
        let mask = slice_to_vec(slice_subrange(numbers.as_slice(), 0, n - 1));
        assert(mask@ =~= numbers@.drop_last());
        Some(LweBlock { mask, body: numbers[n - 1] })
    }
}

/// The mask and the body of every block of a ciphertext, least significant
/// block first; `None` where a block holds no number at all, as no ciphertext
/// does that the scheme made or computed.
pub fn blocks(ct: Ciphertext) -> (r: Option<Vec<LweBlock>>)
    ensures
        has_bodies(ciphertext_data(ct)) ==> r is Some && block_views(r->Some_0@) == blocks_of(
            ciphertext_data(ct),
        ),
        !has_bodies(ciphertext_data(ct)) ==> r is None,
{
    let data = raw_data(ct);
    let mut blocks: Vec<LweBlock> = Vec::new();
    let mut i: usize = 0;
    while i < data.len()
        invariant
            i <= data.len(),
            data_views(data@) == ciphertext_data(ct),
            blocks@.len() == i,
            forall|j: int| 0 <= j < i ==> (#[trigger] ciphertext_data(ct)[j]).len() >= 1,
            forall|j: int|
                0 <= j < i ==> (#[trigger] blocks@[j])@ == block_of(ciphertext_data(ct)[j]),
        decreases data.len() - i,
    {
        assert(data_views(data@)[i as int] == data@[i as int]@);
        match split_block(&data[i]) {
            Some(block) => {
                blocks.push(block);
            },
            None => {
                assert(ciphertext_data(ct)[i as int].len() == 0);
                return None;
            },
        }
        i = i + 1;
    }
    assert(block_views(blocks@) =~= blocks_of(ciphertext_data(ct)));
    Some(blocks)
}

/// The bytes of a ciphertext, as they are persisted. They decode to the same
/// ciphertext again.
pub fn ciphertext_to_bytes(ct: &Ciphertext) -> (bytes: Vec<u8>)
    ensures
        bytes@ == encoded_ciphertext(*ct),
        bytes@.len() >= 8,
        decoded_ciphertext(bytes@) == Some(*ct),
{
    encode_ciphertext(ct).unwrap()
}

/// The ciphertext that persisted bytes hold. `artifact` says which
/// ciphertext it is, for the error.
pub fn ciphertext_from_bytes(bytes: &[u8], artifact: Artifact) -> (r: Result<
    Ciphertext,
    PipelineError,
>)
    ensures
        match r {
            Ok(ct) => decoded_ciphertext(bytes@) == Some(ct),
            Err(e) => decoded_ciphertext(bytes@) is None && e == PipelineError::Undecodable(
                artifact,
            ),
        },
{
    match decode_ciphertext(bytes) {
        Ok(ct) => Ok(ct),
        Err(_) => Err(PipelineError::Undecodable(artifact)),
    }
}

} // verus!
