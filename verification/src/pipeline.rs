//! The two branches of the pipeline. Each computes everything that its run
//! persists and prints, and hands it back as plain values: reading and
//! writing the files is the caller's part.

use crate::artifact::input_artifacts;
use crate::artifact::Artifact;
use crate::artifact::PipelineError;
use crate::blob::base64_bytes;
use crate::ciphertext::block_views;
use crate::ciphertext::blocks;
use crate::ciphertext::blocks_of;
use crate::ciphertext::ciphertext_data;
use crate::ciphertext::ciphertext_from_bytes;
use crate::ciphertext::ciphertext_to_bytes;
use crate::ciphertext::conforms;
use crate::ciphertext::conforms_to_secret_key;
use crate::ciphertext::decoded_ciphertext;
use crate::ciphertext::decrypt_u32;
use crate::ciphertext::default_layout;
use crate::ciphertext::encoded_ciphertext;
use crate::ciphertext::encrypt;
use crate::ciphertext::has_bodies;
use crate::ciphertext::homomorphic_add;
use crate::ciphertext::operand_mismatch;
use crate::ciphertext::plaintext_of;
use crate::ciphertext::Ciphertext;
use crate::ciphertext::LweBlock;
use crate::encoder::dump_text;
use crate::encoder::lemma_dump_shape;
use crate::encoder::lemma_encoded_blob_reads_back;
use crate::encoder::line_views;
use crate::encoder::output_text;
use crate::encoder::render_output;
use crate::keys::decoded_secret_key;
use crate::keys::encoded_evaluation_key;
use crate::keys::encoded_secret_key;
use crate::keys::evaluation_key_from_bytes;
use crate::keys::evaluation_key_to_bytes;
use crate::keys::generate_keys;
use crate::keys::loaded_evaluation_key;
use crate::keys::loaded_secret_key;
use crate::keys::secret_key_from_bytes;
use crate::keys::secret_key_is_sound;
use crate::keys::secret_key_to_bytes;
use crate::keys::sound_evaluation_key;
use crate::keys::sound_secret_key;
use crate::keys::SchemeConfig;
use crate::mode::OutputMode;
use crate::verification::verify_sum;
use crate::verification::Verification;
use crate::verification::EXPECTED_SUM;
use crate::verification::PLAINTEXT_A;
use crate::verification::PLAINTEXT_B;
use vstd::prelude::*;

verus! {

/// The bytes of one artifact, to be written to the artifact's path.
#[derive(Debug, PartialEq, Eq)]
pub struct ArtifactFile {
    pub artifact: Artifact,
    pub bytes: Vec<u8>,
}

/// What a generating run hands back: the outcome of its verification, to be
/// reported, and the files to write, in order.
#[derive(Debug, PartialEq, Eq)]
pub struct Generated {
    pub verification: Verification,
    pub files: Vec<ArtifactFile>,
}

/// What a computing run hands back: the outcome of its verification, to be
/// reported; the file of the sum, to be written; and the lines for standard
/// output, to be printed once the file is written.
#[derive(Debug, PartialEq, Eq)]
pub struct Computed {
    pub verification: Verification,
    pub sum: ArtifactFile,
    pub output: Vec<String>,
}

/// The artifacts of a list of files, in order.
pub open spec fn artifacts_of(files: Seq<ArtifactFile>) -> Seq<Artifact> {
    files.map_values(|file: ArtifactFile| file.artifact)
}

/// Whether files are those of these keys and ciphertexts: the evaluation
/// key, the secret key and the two inputs, in the order of writing, each with
/// the bytes that it encodes to, which are not empty and load as the same
/// again.
pub open spec fn files_of(
    files: Seq<ArtifactFile>,
    evaluation: tfhe::ServerKey,
    secret: tfhe::ClientKey,
    a: Ciphertext,
    b: Ciphertext,
) -> bool {
    &&& files.len() == 4
    &&& artifacts_of(files) == input_artifacts()
    &&& files[0].bytes@ == encoded_evaluation_key(evaluation)
    &&& files[1].bytes@ == encoded_secret_key(secret)
    &&& files[2].bytes@ == encoded_ciphertext(a)
    &&& files[3].bytes@ == encoded_ciphertext(b)
    &&& loaded_evaluation_key(files[0].bytes@) == Ok::<tfhe::ServerKey, PipelineError>(evaluation)
    &&& decoded_secret_key(files[1].bytes@) == Some(secret)
    &&& decoded_ciphertext(files[2].bytes@) == Some(a)
    &&& decoded_ciphertext(files[3].bytes@) == Some(b)
    &&& forall|i: int| 0 <= i < 4 ==> (#[trigger] files[i]).bytes@.len() > 0
}

impl Generated {
    /// What holds of everything that a generating run hands back. The
    /// verification was made against the expected sum. The files are those of
    /// two sound keys and two well-formed ciphertexts, which decrypt under
    /// the secret key to the first and the second plaintext; every file
    /// loads again as what it was made from, and none is empty.
    pub open spec fn well_formed(self) -> bool {
        &&& self.verification.expected == EXPECTED_SUM
        &&& self.files@.len() == 4
        &&& loaded_evaluation_key(self.files@[0].bytes@) matches Ok(evaluation)
        &&& loaded_secret_key(self.files@[1].bytes@) matches Ok(secret)
        &&& decoded_ciphertext(self.files@[2].bytes@) matches Some(a)
        &&& decoded_ciphertext(self.files@[3].bytes@) matches Some(b)
        &&& files_of(self.files@, evaluation, secret, a, b)
        &&& conforms(a) && plaintext_of(a, secret) == PLAINTEXT_A
        &&& conforms(b) && plaintext_of(b, secret) == PLAINTEXT_B
    }
}

/// The first reason, if any, for which the sum of two ciphertexts cannot be
/// computed under an evaluation key and then decrypted under a secret key: a
/// key that is not sound, the secret one first, or an operand that is not
/// well formed.
pub open spec fn key_mismatch(
    evaluation: tfhe::ServerKey,
    secret: tfhe::ClientKey,
    a: Ciphertext,
    b: Ciphertext,
) -> Option<PipelineError> {
    if !sound_secret_key(secret) {
        Some(PipelineError::Incompatible(Artifact::SecretKey))
    } else {
        operand_mismatch(evaluation, a, b)
    }
}

/// The reason, if any, for which an artifact cannot be loaded from bytes: a
/// key that does not decode or is not sound, a ciphertext that does not
/// decode.
pub open spec fn artifact_failure(artifact: Artifact, bytes: Seq<u8>) -> Option<PipelineError> {
    match artifact {
        Artifact::EvaluationKey => match loaded_evaluation_key(bytes) {
            Ok(_) => None,
            Err(e) => Some(e),
        },
        Artifact::SecretKey => match loaded_secret_key(bytes) {
            Ok(_) => None,
            Err(e) => Some(e),
        },
        _ => if decoded_ciphertext(bytes) is None {
            Some(PipelineError::Undecodable(artifact))
        } else {
            None
        },
    }
}

/// The first reason, in the order of loading, for which an artifact cannot be
/// loaded from its bytes.
pub open spec fn load_failure(
    evaluation: Seq<u8>,
    secret: Seq<u8>,
    input_a: Seq<u8>,
    input_b: Seq<u8>,
) -> Option<PipelineError> {
    if artifact_failure(Artifact::EvaluationKey, evaluation) is Some {
        artifact_failure(Artifact::EvaluationKey, evaluation)
    } else if artifact_failure(Artifact::SecretKey, secret) is Some {
        artifact_failure(Artifact::SecretKey, secret)
    } else if artifact_failure(Artifact::InputA, input_a) is Some {
        artifact_failure(Artifact::InputA, input_a)
    } else {
        artifact_failure(Artifact::InputB, input_b)
    }
}

/// What holds of what a computing run hands back for a sum and a secret key.
/// The file of the sum holds the bytes that the sum encodes to, which are not
/// empty and decode to the sum again. The sum is well formed and has the
/// default layout. The verification was made against the expected sum and
/// reports what the sum decrypts to under the secret key. The output is that
/// of the sum: the base64 text of the file's bytes, or the dump of its
/// blocks.
pub open spec fn computed_from(
    c: Computed,
    sum: Ciphertext,
    secret: tfhe::ClientKey,
    mode: OutputMode,
) -> bool {
    &&& c.sum.artifact == Artifact::Sum
    &&& c.sum.bytes@ == encoded_ciphertext(sum)
    &&& c.sum.bytes@.len() > 0
    &&& decoded_ciphertext(c.sum.bytes@) == Some(sum)
    &&& conforms(sum)
    &&& default_layout(ciphertext_data(sum))
    &&& c.verification == (Verification { expected: EXPECTED_SUM, got: plaintext_of(sum, secret) })
    &&& line_views(c.output@) == output_text(mode, blocks_of(ciphertext_data(sum)), c.sum.bytes@)
}

/// Checks that an artifact loads from the bytes of its file, right after the
/// file is read: gives the reason for which it does not, or `None`.
pub fn check_artifact(artifact: Artifact, bytes: &[u8]) -> (r: Option<PipelineError>)
    ensures
        r == artifact_failure(artifact, bytes@),
{
    match artifact {
        Artifact::EvaluationKey => match evaluation_key_from_bytes(bytes) {
            Ok(_) => None,
            Err(e) => Some(e),
        },
        Artifact::SecretKey => match secret_key_from_bytes(bytes) {
            Ok(_) => None,
            Err(e) => Some(e),
        },
        _ => match ciphertext_from_bytes(bytes, artifact) {
            Ok(_) => None,
            Err(e) => Some(e),
        },
    }
}

/// Decrypts a sum under the secret key and compares it with the value that
/// the pipeline expects. A sum that decrypts to another value is reported in
/// the outcome, never refused. Refused is only what cannot be decrypted: a
/// sum that is not well formed, or a key that is not sound.
pub fn report_sum(sum: Ciphertext, secret: &tfhe::ClientKey) -> (r: Result<
    (Ciphertext, Verification),
    PipelineError,
>)
    ensures
        sound_secret_key(*secret) && conforms(sum) ==> r == Ok::<
            (Ciphertext, Verification),
            PipelineError,
        >((sum, Verification { expected: EXPECTED_SUM, got: plaintext_of(sum, *secret) })),
        !(sound_secret_key(*secret) && conforms(sum)) ==> r == Err::<
            (Ciphertext, Verification),
            PipelineError,
        >(PipelineError::Incompatible(Artifact::Sum)),
{
    if secret_key_is_sound(secret) && conforms_to_secret_key(&sum, secret) {
        let got = decrypt_u32(&sum, secret);
        Ok((sum, verify_sum(got)))
    } else {
        Err(PipelineError::Incompatible(Artifact::Sum))
    }
}

/// Adds two ciphertexts under the evaluation key, decrypts the sum under the
/// secret key and compares it with the value that the pipeline expects. A
/// sum that decrypts to another value is reported in the outcome, never
/// refused. Refused, before anything is computed, are keys that are not
/// sound and operands that are not well formed; everything else is added and
/// reported.
pub fn add_and_verify(
    evaluation: &tfhe::ServerKey,
    secret: &tfhe::ClientKey,
    a: &Ciphertext,
    b: &Ciphertext,
) -> (r: Result<(Ciphertext, Verification), PipelineError>)
    ensures
        match key_mismatch(*evaluation, *secret, *a, *b) {
            Some(e) => r == Err::<(Ciphertext, Verification), PipelineError>(e),
            None => {
                &&& r matches Ok((sum, outcome))
                &&& conforms(sum)
                &&& default_layout(ciphertext_data(sum))
                &&& outcome == (Verification {
                    expected: EXPECTED_SUM,
                    got: plaintext_of(sum, *secret),
                })
            },
        },
{
    if !secret_key_is_sound(secret) {
        return Err(PipelineError::Incompatible(Artifact::SecretKey));
    }
    match homomorphic_add(evaluation, a, b) {
        Ok(sum) => report_sum(sum, secret),
        Err(e) => Err(e),
    }
}

/// Encodes what a generating run persists and puts it together with the
/// outcome of the verification: the four files in the order in which they
/// are written. Refused is an evaluation key that is not sound.
pub fn encode_generated(
    verification: Verification,
    evaluation: &tfhe::ServerKey,
    secret: &tfhe::ClientKey,
    a: &Ciphertext,
    b: &Ciphertext,
) -> (r: Result<Generated, PipelineError>)
    ensures
        !sound_evaluation_key(*evaluation) ==> r == Err::<Generated, PipelineError>(
            PipelineError::Incompatible(Artifact::EvaluationKey),
        ),
        sound_evaluation_key(*evaluation) ==> ({
            &&& r matches Ok(g)
            &&& g.verification == verification
            &&& files_of(g.files@, *evaluation, *secret, *a, *b)
        }),
{
    let evaluation_key = match evaluation_key_to_bytes(evaluation) {
        Ok(bytes) => bytes,
        Err(e) => {
            return Err(e);
        },
    };
    let secret_key = secret_key_to_bytes(secret);
    let input_a = ciphertext_to_bytes(a);
    let input_b = ciphertext_to_bytes(b);
    Ok(generated(verification, evaluation_key, secret_key, input_a, input_b))
}

/// Puts together what a generating run hands back: the four files in the
/// order in which they are written.
pub fn generated(
    verification: Verification,
    evaluation_key: Vec<u8>,
    secret_key: Vec<u8>,
    input_a: Vec<u8>,
    input_b: Vec<u8>,
) -> (g: Generated)
    ensures
        g.verification == verification,
        artifacts_of(g.files@) == input_artifacts(),
        g.files@.len() == 4,
        g.files@[0].bytes == evaluation_key,
        g.files@[1].bytes == secret_key,
        g.files@[2].bytes == input_a,
        g.files@[3].bytes == input_b,
{
    let mut files: Vec<ArtifactFile> = Vec::new();
    files.push(ArtifactFile { artifact: Artifact::EvaluationKey, bytes: evaluation_key });
    files.push(ArtifactFile { artifact: Artifact::SecretKey, bytes: secret_key });
    files.push(ArtifactFile { artifact: Artifact::InputA, bytes: input_a });
    files.push(ArtifactFile { artifact: Artifact::InputB, bytes: input_b });
    assert(artifacts_of(files@) =~= input_artifacts());
    Generated { verification, files }
}

/// The generating branch: makes a key pair for the default parameters of the
/// scheme, encrypts the two plaintexts, adds the ciphertexts and verifies the
/// sum, which is then dropped, and encodes the evaluation key, the secret key
/// and the two input ciphertexts.
///
/// The caller reports the verification, creates the data directory and writes
/// the files in order. Keys and ciphertexts are random, so the bytes differ
/// from run to run; what the files hold is told by [`Generated::well_formed`].
/// Nothing in this branch can fail but the reading and writing, which are the
/// caller's.
pub fn gen_and_save() -> (g: Generated)
    ensures
        g.well_formed(),
{
    let config = SchemeConfig::default_parameters();
    let keys = generate_keys(&config);
    let ct_a = encrypt(PLAINTEXT_A, &keys.secret).unwrap();
    let ct_b = encrypt(PLAINTEXT_B, &keys.secret).unwrap();
    let checked = add_and_verify(&keys.evaluation, &keys.secret, &ct_a, &ct_b).unwrap();
    encode_generated(checked.1, &keys.evaluation, &keys.secret, &ct_a, &ct_b).unwrap()
}

/// What a generating run writes, a computing run can load and add: no
/// artifact fails to load when the four files are read back unchanged, and
/// the keys and inputs in them fit each other.
pub proof fn lemma_generated_files_load(g: Generated)
    requires
        g.well_formed(),
    ensures
        load_failure(g.files@[0].bytes@, g.files@[1].bytes@, g.files@[2].bytes@, g.files@[3].bytes@)
            is None,
        key_mismatch(
            loaded_evaluation_key(g.files@[0].bytes@)->Ok_0,
            loaded_secret_key(g.files@[1].bytes@)->Ok_0,
            decoded_ciphertext(g.files@[2].bytes@)->Some_0,
            decoded_ciphertext(g.files@[3].bytes@)->Some_0,
        ) is None,
{
}

/// Puts together what a computing run hands back, from the outcome of the
/// verification, the bytes of the sum and the blocks of the sum: the file of
/// the sum and the output in the given mode. Blocks are read only in
/// diagnostic mode, bytes only in encoded-blob mode.
pub fn computed(
    verification: Verification,
    sum_bytes: Vec<u8>,
    sum_blocks: &Vec<LweBlock>,
    mode: OutputMode,
) -> (c: Computed)
    ensures
        c.verification == verification,
        c.sum.artifact == Artifact::Sum,
        c.sum.bytes == sum_bytes,
        line_views(c.output@) == output_text(mode, block_views(sum_blocks@), sum_bytes@),
{
    let output = render_output(mode, sum_blocks, sum_bytes.as_slice());
    Computed {
        verification,
        sum: ArtifactFile { artifact: Artifact::Sum, bytes: sum_bytes },
        output,
    }
}

/// Encodes a sum and renders it in the given output mode, and puts both
/// together with the outcome of the verification. Refused is only a sum with
/// a block that holds no number, in diagnostic mode, where the blocks are
/// read.
pub fn finish_sum(sum: Ciphertext, verification: Verification, mode: OutputMode) -> (r: Result<
    Computed,
    PipelineError,
>)
    ensures
        mode == OutputMode::Diagnostic && !has_bodies(ciphertext_data(sum)) ==> r == Err::<
            Computed,
            PipelineError,
        >(PipelineError::Incompatible(Artifact::Sum)),
        mode == OutputMode::EncodedBlob || has_bodies(ciphertext_data(sum)) ==> ({
            &&& r matches Ok(c)
            &&& c.verification == verification
            &&& c.sum.artifact == Artifact::Sum
            &&& c.sum.bytes@ == encoded_ciphertext(sum)
            &&& c.sum.bytes@.len() > 0
            &&& decoded_ciphertext(c.sum.bytes@) == Some(sum)
            &&& line_views(c.output@) == output_text(
                mode,
                blocks_of(ciphertext_data(sum)),
                c.sum.bytes@,
            )
        }),
{
    let sum_bytes = ciphertext_to_bytes(&sum);
    let sum_blocks = match mode {
        OutputMode::Diagnostic => match blocks(sum) {
            Some(blocks) => blocks,
            None => {
                return Err(PipelineError::Incompatible(Artifact::Sum));
            },
        },
        OutputMode::EncodedBlob => Vec::new(),
    };
    Ok(computed(verification, sum_bytes, &sum_blocks, mode))
}

/// What is printed in encoded-blob mode reads back as the bytes of the sum's
/// file, and those decode to a ciphertext that decrypts under the secret key
/// to the value that the verification reports.
pub proof fn lemma_encoded_output_decrypts_alike(c: Computed, sum: Ciphertext, secret: tfhe::ClientKey)
    requires
        computed_from(c, sum, secret, OutputMode::EncodedBlob),
    ensures
        line_views(c.output@).len() == 1,
        base64_bytes(line_views(c.output@)[0]) == Some(c.sum.bytes@),
        decoded_ciphertext(c.sum.bytes@) is Some,
        plaintext_of(decoded_ciphertext(c.sum.bytes@)->Some_0, secret) == c.verification.got,
{
    lemma_encoded_blob_reads_back(blocks_of(ciphertext_data(sum)), c.sum.bytes@);
}

/// What is printed in diagnostic mode is the dump of the sixteen blocks of
/// the sum: a header and three lines for each block, 49 lines in all.
pub proof fn lemma_diagnostic_output_shape(c: Computed, sum: Ciphertext, secret: tfhe::ClientKey)
    requires
        computed_from(c, sum, secret, OutputMode::Diagnostic),
    ensures
        line_views(c.output@) == dump_text(blocks_of(ciphertext_data(sum))),
        line_views(c.output@).len() == 49,
{
    lemma_dump_shape(blocks_of(ciphertext_data(sum)), c.sum.bytes@);
}

/// The computing branch: loads the evaluation key, the secret key and the
/// two input ciphertexts from their persisted bytes, adds the ciphertexts
/// under the evaluation key, verifies the sum, encodes it, and renders it in
/// the given output mode.
///
/// The caller reports the verification, creates the data directory, writes
/// the file of the sum and then prints the output. The first artifact that
/// does not load ends the run with an error that names it, and so does the
/// first input that is not well formed; there is no fallback. Everything
/// else is added, verified and handed back, whatever the sum decrypts to.
pub fn output_sum(
    evaluation_key: &[u8],
    secret_key: &[u8],
    input_a: &[u8],
    input_b: &[u8],
    mode: OutputMode,
) -> (r: Result<Computed, PipelineError>)
    ensures
        load_failure(evaluation_key@, secret_key@, input_a@, input_b@) matches Some(e) ==> r
            == Err::<Computed, PipelineError>(e),
        load_failure(evaluation_key@, secret_key@, input_a@, input_b@) is None ==> ({
            let evaluation = loaded_evaluation_key(evaluation_key@)->Ok_0;
            let secret = loaded_secret_key(secret_key@)->Ok_0;
            let a = decoded_ciphertext(input_a@)->Some_0;
            let b = decoded_ciphertext(input_b@)->Some_0;
            match operand_mismatch(evaluation, a, b) {
                Some(e) => r == Err::<Computed, PipelineError>(e),
                None => r matches Ok(c) && exists|sum: Ciphertext| #[trigger]
                    computed_from(c, sum, secret, mode),
            }
        }),
{
    let evaluation = match evaluation_key_from_bytes(evaluation_key) {
        Ok(key) => key,
        Err(e) => {
            return Err(e);
        },
    };
    let secret = match secret_key_from_bytes(secret_key) {
        Ok(key) => key,
        Err(e) => {
            return Err(e);
        },
    };
    let ct_a = match ciphertext_from_bytes(input_a, Artifact::InputA) {
        Ok(ct) => ct,
        Err(e) => {
            return Err(e);
        },
    };
    let ct_b = match ciphertext_from_bytes(input_b, Artifact::InputB) {
        Ok(ct) => ct,
        Err(e) => {
            return Err(e);
        },
    };
    let (sum, verification) = match add_and_verify(&evaluation, &secret, &ct_a, &ct_b) {
        Ok(checked) => checked,
        Err(e) => {
            return Err(e);
        },
    };
    let r = finish_sum(sum, verification, mode);
    proof {
        if r is Ok {
            assert(computed_from(r->Ok_0, sum, secret, mode));
        }
    }
    r
}

} // verus!
