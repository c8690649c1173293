//! The parameters and the two keys of the scheme, and the byte form of the
//! keys. The secret key encrypts and decrypts; the evaluation key computes on
//! ciphertexts. All of them are `tfhe`'s, and the bytes are `bincode`'s: what
//! reaches into those crates is trusted, and its doc comment says what is
//! taken on trust.
//!
//! Bytes can decode to a key that `tfhe` cannot work with: its decoders do not
//! compare what they read with anything. So a key is used only once it is
//! known to be sound: every parameter and every length in it is that of a key
//! which `tfhe` makes for the default parameters of the scheme, and an
//! evaluation key carries nothing beside what the addition needs. A sound key
//! differs from such a key in its numbers at most, and no step of the scheme
//! depends on those.

use crate::artifact::Artifact;
use crate::artifact::PipelineError;
use vstd::prelude::*;

verus! {

/// The secret key: it encrypts and decrypts. Opaque to the verifier.
#[verifier::external_type_specification]
#[verifier::external_body]
pub struct ExSecretKey(tfhe::ClientKey);

/// The evaluation key: it computes on ciphertexts and cannot decrypt. Opaque
/// to the verifier.
#[verifier::external_type_specification]
#[verifier::external_body]
pub struct ExEvaluationKey(tfhe::ServerKey);

/// What went wrong inside `bincode`. Opaque to the verifier.
#[verifier::external_type_specification]
#[verifier::external_body]
pub struct ExCodecError(bincode::ErrorKind);

/// How many numbers a secret key stores: those of its large key, the
/// polynomial size recorded with them, and those of its small key.
#[derive(Clone, Copy, Debug, PartialEq, Eq, Structural)]
pub struct SecretKeyLengths {
    pub large_numbers: usize,
    pub polynomial_size: usize,
    pub small_numbers: usize,
}

/// The fields of an evaluation key beside its two inner keys.
#[derive(Clone, Copy, Debug, PartialEq, Eq, Structural)]
pub struct EvaluationFields {
    pub message_modulus: usize,
    pub carry_modulus: usize,
    pub max_degree: usize,
    pub max_noise_level: usize,
    pub native_modulus: bool,
    pub key_switch_first: bool,
}

/// The shape of the key switching key inside an evaluation key.
#[derive(Clone, Copy, Debug, PartialEq, Eq, Structural)]
pub struct KeySwitchShape {
    pub numbers: usize,
    pub base_log: usize,
    pub levels: usize,
    pub output_size: usize,
    pub native_modulus: bool,
}

/// The shape of the bootstrapping key inside an evaluation key.
#[derive(Clone, Copy, Debug, PartialEq, Eq, Structural)]
pub struct BootstrapShape {
    pub numbers: usize,
    pub polynomial_size: usize,
    pub input_dimension: usize,
    pub glwe_size: usize,
    pub base_log: usize,
    pub levels: usize,
}

/// Whether the parameters inside a secret key are the default parameters of
/// the scheme.
pub uninterp spec fn has_default_parameters(key: tfhe::ClientKey) -> bool;

/// The lengths that a secret key stores.
pub uninterp spec fn secret_key_lengths(key: tfhe::ClientKey) -> SecretKeyLengths;

/// The fields of an evaluation key beside its two inner keys.
pub uninterp spec fn evaluation_fields(key: tfhe::ServerKey) -> EvaluationFields;

/// The shape of the key switching key inside an evaluation key.
pub uninterp spec fn key_switch_shape(key: tfhe::ServerKey) -> KeySwitchShape;

/// The shape of the bootstrapping key inside an evaluation key, or `None`
/// where it is not of the classic kind.
pub uninterp spec fn bootstrap_shape(key: tfhe::ServerKey) -> Option<BootstrapShape>;

/// Whether an evaluation key carries a second key, for evaluating functions
/// without bootstrapping, beside the one that the addition needs.
pub uninterp spec fn has_second_key(key: tfhe::ServerKey) -> bool;

/// The bytes of an evaluation key.
pub uninterp spec fn encoded_evaluation_key(key: tfhe::ServerKey) -> Seq<u8>;

/// The bytes of a secret key.
pub uninterp spec fn encoded_secret_key(key: tfhe::ClientKey) -> Seq<u8>;

/// The evaluation key that bytes decode to, or `None` where they do not
/// decode.
pub uninterp spec fn decoded_evaluation_key(bytes: Seq<u8>) -> Option<tfhe::ServerKey>;

/// The secret key that bytes decode to, or `None` where they do not decode.
pub uninterp spec fn decoded_secret_key(bytes: Seq<u8>) -> Option<tfhe::ClientKey>;

/// The lengths in a secret key of the default parameters: one polynomial of
/// 2048 coefficients, and a small key of dimension 761.
pub open spec fn default_secret_lengths() -> SecretKeyLengths {
    SecretKeyLengths { large_numbers: 2048, polynomial_size: 2048, small_numbers: 761 }
}

/// The fields of an evaluation key of the default parameters: two bits of
/// message and two of carry in a block, key switching before bootstrapping.
pub open spec fn default_evaluation_fields() -> EvaluationFields {
    EvaluationFields {
        message_modulus: 4,
        carry_modulus: 4,
        max_degree: 12,
        max_noise_level: 5,
        native_modulus: true,
        key_switch_first: true,
    }
}

/// The key switching key of the default parameters: from dimension 2048 to
/// 761 in five levels, which are 2048 * 5 * 762 numbers.
pub open spec fn default_key_switch() -> KeySwitchShape {
    KeySwitchShape {
        numbers: 7_802_880,
        base_log: 3,
        levels: 5,
        output_size: 762,
        native_modulus: true,
    }
}

/// The bootstrapping key of the default parameters: 761 * 2 * 2 polynomials
/// of 1024 numbers in the Fourier domain.
pub open spec fn default_bootstrap() -> BootstrapShape {
    BootstrapShape {
        numbers: 3_117_056,
        polynomial_size: 2048,
        input_dimension: 761,
        glwe_size: 2,
        base_log: 23,
        levels: 1,
    }
}

/// A secret key is sound when its parameters are the default ones and it
/// stores as many numbers as they ask for.
pub open spec fn sound_secret_key(key: tfhe::ClientKey) -> bool {
    has_default_parameters(key) && secret_key_lengths(key) == default_secret_lengths()
}

/// An evaluation key is sound when every field and every length in it is that
/// of an evaluation key of the default parameters, and it carries no second
/// key.
pub open spec fn sound_evaluation_key(key: tfhe::ServerKey) -> bool {
    &&& !has_second_key(key)
    &&& evaluation_fields(key) == default_evaluation_fields()
    &&& key_switch_shape(key) == default_key_switch()
    &&& bootstrap_shape(key) == Some(default_bootstrap())
}

/// Where the numbers of the key switching key end in the bytes of an
/// evaluation key of the default parameters: behind their count and
/// themselves, eight bytes each.
pub const KEY_SWITCH_END: usize = 62_423_048;

/// Where the header of the Fourier data starts: behind the five fields of the
/// key switching key, which take 48 bytes, and the tag of the kind of
/// bootstrapping key, which takes four.
pub const FOURIER_HEADER: usize = 62_423_100;

/// How many bytes an evaluation key of the default parameters takes. Behind
/// the header of the Fourier data stand 3044 polynomials, each as a count and
/// 1024 numbers of sixteen bytes, then 92 bytes of fields, and last the tag
/// that says whether a second key follows.
pub const EVALUATION_KEY_BYTES: usize = 112_320_465;

/// Whether the eight bytes at `at` hold `value` with the low byte first.
pub open spec fn word_at(bytes: Seq<u8>, at: int, value: nat) -> bool
    recommends
        value < 0x100_0000,
{
    &&& 0 <= at && at + 8 <= bytes.len()
    &&& bytes[at] == value % 256
    &&& bytes[at + 1] == (value / 256) % 256
    &&& bytes[at + 2] == (value / 65536) % 256
    &&& forall|i: int| 3 <= i < 8 ==> #[trigger] bytes[at + i] == 0
}

/// Whether bytes are framed as an evaluation key of the default parameters:
/// the count of the key switching key's numbers, the tag of a classic
/// bootstrapping key, the header of its Fourier data, which is the count of
/// what follows, the polynomial size and the count of polynomials, and the
/// tag that says that no second key follows, each stand where `bincode` looks
/// for them and hold the default values.
pub open spec fn evaluation_key_framed(bytes: Seq<u8>) -> bool {
    &&& bytes.len() >= EVALUATION_KEY_BYTES
    &&& bytes[EVALUATION_KEY_BYTES - 1] == 0
    &&& word_at(bytes, 0, 7_802_880)
    &&& forall|i: int| FOURIER_HEADER - 4 <= i < FOURIER_HEADER ==> #[trigger] bytes[i] == 0
    &&& word_at(bytes, FOURIER_HEADER as int, 3046)
    &&& word_at(bytes, FOURIER_HEADER + 8, 2048)
    &&& word_at(bytes, FOURIER_HEADER + 16, 3044)
}

/// Trusted: `tfhe::generate_keys` on the configuration that
/// `ConfigBuilder::default().build()` gives. The keys are freshly random, so
/// the keys themselves are not claimed. Claimed of every outcome: both are
/// sound, being what `tfhe` makes for the default parameters. `tfhe` draws
/// the randomness from the machine, from `/dev/random` or the processor's
/// `rdseed`.
#[verifier::external_body]
pub(crate) fn generate_key_pair() -> (keys: (tfhe::ClientKey, tfhe::ServerKey))
    ensures
        sound_secret_key(keys.0),
        sound_evaluation_key(keys.1),
{
    tfhe::generate_keys(tfhe::ConfigBuilder::default().build())
}

/// Trusted: `==` of `tfhe` between the parameter set inside the secret key and
/// the one made from `PARAM_MESSAGE_2_CARRY_2_KS_PBS`, which is what the
/// default configuration holds. The result is named
/// [`has_default_parameters`].
#[verifier::external_body]
fn read_has_default_parameters(key: &tfhe::ClientKey) -> (same: bool)
    ensures
        same == has_default_parameters(*key),
{
    let integer_key: &tfhe::integer::ClientKey = key.as_ref();
    let block_key: &tfhe::shortint::ClientKey = integer_key.as_ref();
    block_key.parameters == tfhe::shortint::PBSParameters::from(
        tfhe::shortint::parameters::PARAM_MESSAGE_2_CARRY_2_KS_PBS,
    ).into()
}

/// Trusted: `ClientKey::into_raw_parts` on a copy of the block key inside the
/// secret key, then the length of each part and the polynomial size stored
/// with the large one. The result is named [`secret_key_lengths`].
#[verifier::external_body]
fn read_secret_key_lengths(key: &tfhe::ClientKey) -> (lengths: SecretKeyLengths)
    ensures
        lengths == secret_key_lengths(*key),
{
    let integer_key: &tfhe::integer::ClientKey = key.as_ref();
    let block_key: &tfhe::shortint::ClientKey = integer_key.as_ref();
    let (large, small, _parameters) = block_key.clone().into_raw_parts();
    SecretKeyLengths {
        large_numbers: large.as_ref().len(),
        polynomial_size: large.polynomial_size().0,
        small_numbers: small.as_ref().len(),
    }
}

/// Trusted: `ServerKey::into_raw_parts` on a copy of the evaluation key, and
/// whether its second part is there. The result is named
/// [`has_second_key`].
#[verifier::external_body]
fn read_has_second_key(key: &tfhe::ServerKey) -> (has: bool)
    ensures
        has == has_second_key(*key),
{
    key.clone().into_raw_parts().1.is_some()
}

/// Trusted: the public fields of the block key inside the evaluation key,
/// each as a plain value. The result is named [`evaluation_fields`].
#[verifier::external_body]
fn read_evaluation_fields(key: &tfhe::ServerKey) -> (fields: EvaluationFields)
    ensures
        fields == evaluation_fields(*key),
{
    let integer_key: &tfhe::integer::ServerKey = key.as_ref();
    let block_key: &tfhe::shortint::ServerKey = integer_key.as_ref();
    EvaluationFields {
        message_modulus: block_key.message_modulus.0,
        carry_modulus: block_key.carry_modulus.0,
        max_degree: block_key.max_degree.get(),
        max_noise_level: block_key.max_noise_level.get(),
        native_modulus: block_key.ciphertext_modulus.is_native_modulus(),
        key_switch_first: matches!(block_key.pbs_order, tfhe::shortint::PBSOrder::KeyswitchBootstrap),
    }
}

/// Trusted: what the key switching key inside the evaluation key stores: the
/// length of its numbers and its four fields. The result is named
/// [`key_switch_shape`].
#[verifier::external_body]
fn read_key_switch_shape(key: &tfhe::ServerKey) -> (shape: KeySwitchShape)
    ensures
        shape == key_switch_shape(*key),
{
    let integer_key: &tfhe::integer::ServerKey = key.as_ref();
    let block_key: &tfhe::shortint::ServerKey = integer_key.as_ref();
    let inner = &block_key.key_switching_key;
    KeySwitchShape {
        numbers: inner.as_ref().len(),
        base_log: inner.decomposition_base_log().0,
        levels: inner.decomposition_level_count().0,
        output_size: inner.output_lwe_size().0,
        native_modulus: inner.ciphertext_modulus().is_native_modulus(),
    }
}

/// Trusted: what a classic bootstrapping key inside the evaluation key
/// stores: the length of its numbers and its five fields; `None` for a key of
/// another kind. The result is named [`bootstrap_shape`].
#[verifier::external_body]
fn read_bootstrap_shape(key: &tfhe::ServerKey) -> (shape: Option<BootstrapShape>)
    ensures
        shape == bootstrap_shape(*key),
{
    let integer_key: &tfhe::integer::ServerKey = key.as_ref();
    let block_key: &tfhe::shortint::ServerKey = integer_key.as_ref();
    match &block_key.bootstrapping_key {
        tfhe::shortint::server_key::ShortintBootstrappingKey::Classic(inner) => Some(
            BootstrapShape {
                numbers: inner.as_view().data().len(),
                polynomial_size: inner.polynomial_size().0,
                input_dimension: inner.input_lwe_dimension().0,
                glwe_size: inner.glwe_size().0,
                base_log: inner.decomposition_base_log().0,
                levels: inner.decomposition_level_count().0,
            },
        ),
        _ => None,
    }
}

/// Trusted: `bincode::serialize` on a sound evaluation key; on another one
/// `tfhe`'s encoder can stop the program, as it prepares a transform for the
/// polynomial size that a key records. It never fails: `bincode` writes into
/// memory without a limit, and its only other error is a sequence of unknown
/// length, which no part of a key is. The result is a function of the key,
/// named [`encoded_evaluation_key`]. Claimed of the bytes: they are framed as
/// an evaluation key of the default parameters, and they decode to the same
/// key again.
#[verifier::external_body]
pub(crate) fn encode_evaluation_key(key: &tfhe::ServerKey) -> (r: Result<
    Vec<u8>,
    Box<bincode::ErrorKind>,
>)
    requires
        sound_evaluation_key(*key),
    ensures
        r is Ok,
        r->Ok_0@ == encoded_evaluation_key(*key),
        evaluation_key_framed(r->Ok_0@),
        decoded_evaluation_key(r->Ok_0@) == Some(*key),
{
    bincode::serialize(key)
}

/// Trusted: `bincode::serialize` on the secret key. It never fails, for the
/// reason given for the evaluation key. The result is a function of the key,
/// named [`encoded_secret_key`]. Claimed of the bytes: they start with a
/// count of eight bytes, and they decode to the same key again.
#[verifier::external_body]
pub(crate) fn encode_secret_key(key: &tfhe::ClientKey) -> (r: Result<
    Vec<u8>,
    Box<bincode::ErrorKind>,
>)
    ensures
        r is Ok,
        r->Ok_0@ == encoded_secret_key(*key),
        r->Ok_0@.len() >= 8,
        decoded_secret_key(r->Ok_0@) == Some(*key),
{
    bincode::serialize(key)
}

/// Trusted: `bincode::deserialize` to an evaluation key. On other bytes than
/// framed ones `tfhe`'s decoder can stop the program: it prepares a transform
/// for whatever polynomial size the bytes give, and allocates for whatever
/// count of polynomials. On framed bytes both are the default ones, and no
/// second key is read, whose bytes would hold such sizes too: the decoder
/// comes to the tag of the second key only past 3044 polynomials of 1024
/// numbers, and fails on any other count before it. Whether
/// it succeeds, and with what key, is a function of the bytes, named
/// [`decoded_evaluation_key`]; bytes after the key are ignored.
#[verifier::external_body]
pub(crate) fn decode_evaluation_key(bytes: &[u8]) -> (r: Result<
    tfhe::ServerKey,
    Box<bincode::ErrorKind>,
>)
    requires
        evaluation_key_framed(bytes@),
    ensures
        match r {
            Ok(key) => decoded_evaluation_key(bytes@) == Some(key),
            Err(_) => decoded_evaluation_key(bytes@) is None,
        },
{
    bincode::deserialize(bytes)
}

/// Trusted: `bincode::deserialize` to a secret key. Whether it succeeds, and
/// with what key, is a function of the bytes, named [`decoded_secret_key`];
/// bytes after the key are ignored.
#[verifier::external_body]
pub(crate) fn decode_secret_key(bytes: &[u8]) -> (r: Result<
    tfhe::ClientKey,
    Box<bincode::ErrorKind>,
>)
    ensures
        match r {
            Ok(key) => decoded_secret_key(bytes@) == Some(key),
            Err(_) => decoded_secret_key(bytes@) is None,
        },
{
    bincode::deserialize(bytes)
}

/// The parameter set of the scheme, as far as this library reads it: how many
/// values the message and the carry of one block can take. It is made once
/// for a generating run and not persisted; the keys carry what a later run
/// needs of it. The only parameters on offer are the scheme's defaults, so no
/// configuration is malformed.
pub struct SchemeConfig {
    message_modulus: usize,
    carry_modulus: usize,
}

impl SchemeConfig {
    /// How many values the message of one block can take.
    pub closed spec fn message_values(self) -> nat {
        self.message_modulus as nat
    }

    /// How many values the carry of one block can take.
    pub closed spec fn carry_values(self) -> nat {
        self.carry_modulus as nat
    }

    /// The default parameters of the scheme: two bits of message and two of
    /// carry in a block, as a sound evaluation key records them.
    pub fn default_parameters() -> (config: SchemeConfig)
        ensures
            config.message_values() == default_evaluation_fields().message_modulus,
            config.carry_values() == default_evaluation_fields().carry_modulus,
    {
        SchemeConfig { message_modulus: 4, carry_modulus: 4 }
    }
}

/// A secret key and the evaluation key that belongs to it.
pub struct KeyPair {
    pub secret: tfhe::ClientKey,
    pub evaluation: tfhe::ServerKey,
}

/// Generates a fresh key pair for the parameters of the scheme. No two calls
/// give the same keys; the two keys of every pair are sound.
pub fn generate_keys(config: &SchemeConfig) -> (pair: KeyPair)
    ensures
        sound_secret_key(pair.secret),
        sound_evaluation_key(pair.evaluation),
{
    let keys = generate_key_pair();
    KeyPair { secret: keys.0, evaluation: keys.1 }
}

/// Whether a secret key is sound: its parameters and lengths are those of a
/// secret key of the default parameters.
pub fn secret_key_is_sound(key: &tfhe::ClientKey) -> (sound: bool)
    ensures
        sound == sound_secret_key(*key),
{
    if !read_has_default_parameters(key) {
        return false;
    }
    let lengths = read_secret_key_lengths(key);
    lengths.large_numbers == 2048 && lengths.polynomial_size == 2048 && lengths.small_numbers
        == 761
}

/// Whether an evaluation key is sound: its fields and lengths are those of an
/// evaluation key of the default parameters.
pub fn evaluation_key_is_sound(key: &tfhe::ServerKey) -> (sound: bool)
    ensures
        sound == sound_evaluation_key(*key),
{
    if read_has_second_key(key) {
        return false;
    }
    let fields = read_evaluation_fields(key);
    let switch = read_key_switch_shape(key);
    let fields_fit = fields.message_modulus == 4 && fields.carry_modulus == 4 && fields.max_degree
        == 12 && fields.max_noise_level == 5 && fields.native_modulus && fields.key_switch_first;
    let switch_fits = switch.numbers == 7_802_880 && switch.base_log == 3 && switch.levels == 5
        && switch.output_size == 762 && switch.native_modulus;
    match read_bootstrap_shape(key) {
        Some(shape) => fields_fit && switch_fits && shape.numbers == 3_117_056
            && shape.polynomial_size == 2048 && shape.input_dimension == 761 && shape.glwe_size
            == 2 && shape.base_log == 23 && shape.levels == 1,
        None => false,
    }
}

/// Whether the eight bytes at `at` hold `value` with the low byte first.
fn has_word_at(bytes: &[u8], at: usize, value: u32) -> (has: bool)
    requires
        value < 0x100_0000,
        at + 8 <= bytes.len(),
    ensures
        has == word_at(bytes@, at as int, value as nat),
{
    if bytes[at] as u32 != value % 256 || bytes[at + 1] as u32 != (value / 256) % 256 || bytes[at
        + 2] as u32 != (value / 65536) % 256 {
        return false;
    }
    let mut i: usize = 3;
    while i < 8
        invariant
            3 <= i <= 8,
            at + 8 <= bytes.len(),
            forall|j: int| 3 <= j < i ==> #[trigger] bytes@[at + j] == 0,
        decreases 8 - i,
    {
        if bytes[at + i] != 0 {
            return false;
        }
        i = i + 1;
    }
    true
}

/// Whether bytes are framed as an evaluation key of the default parameters.
pub fn is_framed_evaluation_key(bytes: &[u8]) -> (framed: bool)
    ensures
        framed == evaluation_key_framed(bytes@),
{
    if bytes.len() < EVALUATION_KEY_BYTES || bytes[EVALUATION_KEY_BYTES - 1] != 0 {
        return false;
    }
    let mut i: usize = FOURIER_HEADER - 4;
    while i < FOURIER_HEADER
        invariant
            FOURIER_HEADER - 4 <= i <= FOURIER_HEADER,
            bytes.len() >= EVALUATION_KEY_BYTES,
            bytes@[EVALUATION_KEY_BYTES - 1] == 0,
            forall|j: int| FOURIER_HEADER - 4 <= j < i ==> #[trigger] bytes@[j] == 0,
        decreases FOURIER_HEADER - i,
    {
        if bytes[i] != 0 {
            return false;
        }
        i = i + 1;
    }
    has_word_at(bytes, 0, 7_802_880) && has_word_at(bytes, FOURIER_HEADER, 3046) && has_word_at(
        bytes,
        FOURIER_HEADER + 8,
        2048,
    ) && has_word_at(bytes, FOURIER_HEADER + 16, 3044)
}

/// What loading an evaluation key from bytes gives: the key that sound, framed
/// bytes decode to; bytes that are not framed or do not decode are refused as
/// undecodable, and a key that is not sound as incompatible.
pub open spec fn loaded_evaluation_key(bytes: Seq<u8>) -> Result<tfhe::ServerKey, PipelineError> {
    if !evaluation_key_framed(bytes) {
        Err(PipelineError::Undecodable(Artifact::EvaluationKey))
    } else {
        match decoded_evaluation_key(bytes) {
            None => Err(PipelineError::Undecodable(Artifact::EvaluationKey)),
            Some(key) => if sound_evaluation_key(key) {
                Ok(key)
            } else {
                Err(PipelineError::Incompatible(Artifact::EvaluationKey))
            },
        }
    }
}

/// What loading a secret key from bytes gives: the key that bytes decode to
/// where it is sound; bytes that do not decode are refused as undecodable,
/// and a key that is not sound as incompatible.
pub open spec fn loaded_secret_key(bytes: Seq<u8>) -> Result<tfhe::ClientKey, PipelineError> {
    match decoded_secret_key(bytes) {
        None => Err(PipelineError::Undecodable(Artifact::SecretKey)),
        Some(key) => if sound_secret_key(key) {
            Ok(key)
        } else {
            Err(PipelineError::Incompatible(Artifact::SecretKey))
        },
    }
}

/// What saving an evaluation key gives: the bytes of a sound key; a key that
/// is not sound is refused as incompatible.
pub open spec fn saved_evaluation_key(key: tfhe::ServerKey) -> Result<Seq<u8>, PipelineError> {
    if sound_evaluation_key(key) {
        Ok(encoded_evaluation_key(key))
    } else {
        Err(PipelineError::Incompatible(Artifact::EvaluationKey))
    }
}

/// The bytes of a sound evaluation key, as they are persisted. They load as
/// the same key again.
pub fn evaluation_key_to_bytes(key: &tfhe::ServerKey) -> (r: Result<Vec<u8>, PipelineError>)
    ensures
        match r {
            Ok(bytes) => saved_evaluation_key(*key) == Ok::<Seq<u8>, PipelineError>(bytes@)
                && loaded_evaluation_key(bytes@) == Ok::<tfhe::ServerKey, PipelineError>(*key),
            Err(e) => saved_evaluation_key(*key) == Err::<Seq<u8>, PipelineError>(e),
        },
{
    if evaluation_key_is_sound(key) {
        Ok(encode_evaluation_key(key).unwrap())
    } else {
        Err(PipelineError::Incompatible(Artifact::EvaluationKey))
    }
}

/// The bytes of a secret key, as they are persisted. They decode to the same
/// key again.
pub fn secret_key_to_bytes(key: &tfhe::ClientKey) -> (bytes: Vec<u8>)
    ensures
        bytes@ == encoded_secret_key(*key),
        bytes@.len() >= 8,
        decoded_secret_key(bytes@) == Some(*key),
{
    encode_secret_key(key).unwrap()
}

/// The evaluation key that persisted bytes hold. Only a sound key is handed
/// out.
pub fn evaluation_key_from_bytes(bytes: &[u8]) -> (r: Result<tfhe::ServerKey, PipelineError>)
    ensures
        r == loaded_evaluation_key(bytes@),
{
    if !is_framed_evaluation_key(bytes) {
        return Err(PipelineError::Undecodable(Artifact::EvaluationKey));
    }
    match decode_evaluation_key(bytes) {
        Ok(key) => if evaluation_key_is_sound(&key) {
            Ok(key)
        } else {
            Err(PipelineError::Incompatible(Artifact::EvaluationKey))
        },
        Err(_) => Err(PipelineError::Undecodable(Artifact::EvaluationKey)),
    }
}

/// The secret key that persisted bytes hold. Only a sound key is handed out.
pub fn secret_key_from_bytes(bytes: &[u8]) -> (r: Result<tfhe::ClientKey, PipelineError>)
    ensures
        r == loaded_secret_key(bytes@),
{
    match decode_secret_key(bytes) {
        Ok(key) => if secret_key_is_sound(&key) {
            Ok(key)
        } else {
            Err(PipelineError::Incompatible(Artifact::SecretKey))
        },
        Err(_) => Err(PipelineError::Undecodable(Artifact::SecretKey)),
    }
}

} // verus!
