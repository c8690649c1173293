use base64::Engine;
use fhe_sum::artifact::Artifact;
use fhe_sum::artifact::PipelineError;
use fhe_sum::ciphertext::blocks;
use fhe_sum::ciphertext::check_operands;
use fhe_sum::ciphertext::ciphertext_from_bytes;
use fhe_sum::ciphertext::ciphertext_to_bytes;
use fhe_sum::ciphertext::decrypt;
use fhe_sum::ciphertext::encrypt;
use fhe_sum::ciphertext::homomorphic_add;
use fhe_sum::encoder::encode_blob;
use fhe_sum::keys::evaluation_key_from_bytes;
use fhe_sum::keys::evaluation_key_to_bytes;
use fhe_sum::keys::generate_keys;
use fhe_sum::keys::secret_key_from_bytes;
use fhe_sum::keys::evaluation_key_is_sound;
use fhe_sum::keys::is_framed_evaluation_key;
use fhe_sum::keys::secret_key_is_sound;
use fhe_sum::keys::secret_key_to_bytes;
use fhe_sum::keys::SchemeConfig;
use fhe_sum::mode::OutputMode;
use fhe_sum::pipeline::add_and_verify;
use fhe_sum::pipeline::encode_generated;
use fhe_sum::pipeline::finish_sum;
use fhe_sum::pipeline::output_sum;
use fhe_sum::pipeline::report_sum;
use fhe_sum::verification::verify_sum;
use fhe_sum::verification::Stage;
use tfhe::integer::IntegerCiphertext;
use tfhe::prelude::FheEncrypt;

fn secret_key() -> tfhe::ClientKey {
    tfhe::ClientKey::generate(tfhe::ConfigBuilder::default().build())
}

fn other_secret_key() -> tfhe::ClientKey {
    tfhe::ClientKey::generate(tfhe::ConfigBuilder::default_with_small_encryption().build())
}

#[test]
fn encrypt_then_decrypt_gives_the_value_back() {
    let secret = secret_key();
    for value in [0u32, 1, 123, 456, 579, 0x8000_0000, u32::MAX] {
        assert_eq!(decrypt(&encrypt(value, &secret).unwrap(), &secret), Ok(value));
    }
}

#[test]
fn encryption_is_randomized() {
    let secret = secret_key();
    let one = ciphertext_to_bytes(&encrypt(123, &secret).unwrap());
    let two = ciphertext_to_bytes(&encrypt(123, &secret).unwrap());
    assert_ne!(one, two);
}

#[test]
fn ciphertext_survives_a_round_trip() {
    let secret = secret_key();
    let ct = encrypt(456, &secret).unwrap();
    let bytes = ciphertext_to_bytes(&ct);
    let back = ciphertext_from_bytes(&bytes, Artifact::InputB).unwrap();
    assert_eq!(decrypt(&back, &secret), Ok(456));
    assert_eq!(ciphertext_to_bytes(&back), bytes);
    let kept = blocks(back).unwrap();
    assert_eq!(kept.len(), 16);
    assert_eq!(Some(kept), blocks(ct));
}

#[test]
fn ciphertext_bytes_are_plain_bincode() {
    let secret = secret_key();
    let ct = encrypt(123, &secret).unwrap();
    let bytes = ciphertext_to_bytes(&ct);
    let theirs: tfhe::FheUint32 = bincode::deserialize(&bytes).unwrap();
    assert_eq!(bincode::serialize(&theirs).unwrap(), bytes);
    let mut file: Vec<u8> = Vec::new();
    bincode::serialize_into(&mut file, &theirs).unwrap();
    assert_eq!(file, bytes);
}

#[test]
fn ciphertext_decoding_ignores_what_follows() {
    let secret = secret_key();
    let mut bytes = ciphertext_to_bytes(&encrypt(7, &secret).unwrap());
    bytes.extend_from_slice(&[1, 2, 3]);
    let back = ciphertext_from_bytes(&bytes, Artifact::InputA).unwrap();
    assert_eq!(decrypt(&back, &secret), Ok(7));
}

#[test]
fn secret_key_survives_a_round_trip() {
    let secret = secret_key();
    let ct = encrypt(579, &secret).unwrap();
    let bytes = secret_key_to_bytes(&secret);
    let back = secret_key_from_bytes(&bytes).unwrap();
    assert_eq!(decrypt(&ct, &back), Ok(579));
    assert_eq!(secret_key_to_bytes(&back), bytes);
}

#[test]
fn blocks_are_those_of_the_ciphertext() {
    let secret = secret_key();
    let ct = encrypt(123, &secret).unwrap();
    let bytes = ciphertext_to_bytes(&ct);
    let mine = blocks(ct).unwrap();
    let theirs: tfhe::FheUint32 = bincode::deserialize(&bytes).unwrap();
    let (radix, _id) = theirs.into_raw_parts();
    assert_eq!(mine.len(), 16);
    assert_eq!(mine.len(), radix.blocks().len());
    for (block, raw) in mine.iter().zip(radix.blocks().iter()) {
        assert_eq!(block.mask.len(), 2048);
        assert_eq!(block.mask[..], *raw.ct.get_mask().as_ref());
        assert_eq!(block.body, *raw.ct.get_body().data);
    }
}

#[test]
fn encoded_blob_decodes_to_a_ciphertext_of_the_same_value() {
    let secret = secret_key();
    let ct = encrypt(579, &secret).unwrap();
    let direct = decrypt(&ct, &secret);
    let bytes = ciphertext_to_bytes(&ct);
    let text = encode_blob(&bytes);
    assert!(!text.contains('\n'));
    let decoded = base64::engine::general_purpose::STANDARD.decode(&text).unwrap();
    assert_eq!(decoded, bytes);
    let back = ciphertext_from_bytes(&decoded, Artifact::Sum).unwrap();
    assert_eq!(decrypt(&back, &secret), direct);
    assert_eq!(direct, Ok(579));
}

#[test]
fn bytes_that_do_not_decode_are_refused() {
    assert_eq!(
        ciphertext_from_bytes(b"", Artifact::InputA).err(),
        Some(PipelineError::Undecodable(Artifact::InputA))
    );
    assert_eq!(
        ciphertext_from_bytes(&[7; 9], Artifact::InputB).err(),
        Some(PipelineError::Undecodable(Artifact::InputB))
    );
    assert_eq!(
        secret_key_from_bytes(b"not a key").err(),
        Some(PipelineError::Undecodable(Artifact::SecretKey))
    );
    assert_eq!(
        evaluation_key_from_bytes(b"").err(),
        Some(PipelineError::Undecodable(Artifact::EvaluationKey))
    );
    assert_eq!(
        evaluation_key_from_bytes(&[0; 4096]).err(),
        Some(PipelineError::Undecodable(Artifact::EvaluationKey))
    );
}

#[test]
fn truncated_ciphertext_is_refused() {
    let secret = secret_key();
    let bytes = ciphertext_to_bytes(&encrypt(1, &secret).unwrap());
    assert_eq!(
        ciphertext_from_bytes(&bytes[..bytes.len() - 1], Artifact::InputA).err(),
        Some(PipelineError::Undecodable(Artifact::InputA))
    );
}

#[test]
fn ciphertext_of_other_parameters_does_not_fit_the_secret_key() {
    let secret = secret_key();
    let other = other_secret_key();
    let theirs = tfhe::FheUint32::encrypt(5u32, &other);
    let bytes = bincode::serialize(&theirs).unwrap();
    let ct = ciphertext_from_bytes(&bytes, Artifact::InputA).unwrap();
    assert_eq!(decrypt(&ct, &secret), Err(PipelineError::Incompatible(Artifact::SecretKey)));
    assert_eq!(decrypt(&ct, &other), Err(PipelineError::Incompatible(Artifact::SecretKey)));
    assert_eq!(encrypt(5, &other).err(), Some(PipelineError::Incompatible(Artifact::SecretKey)));
}

#[test]
fn output_sum_names_the_first_artifact_that_does_not_decode() {
    assert_eq!(
        output_sum(b"", b"", b"", b"", OutputMode::EncodedBlob).err(),
        Some(PipelineError::Undecodable(Artifact::EvaluationKey))
    );
    assert_eq!(
        output_sum(&[0; 64], b"", b"", b"", OutputMode::Diagnostic).err(),
        Some(PipelineError::Undecodable(Artifact::EvaluationKey))
    );
}

#[test]
fn fresh_ciphertexts_fit_the_evaluation_key() {
    let keys = generate_keys(&SchemeConfig::default_parameters());
    let a = encrypt(123, &keys.secret).unwrap();
    let b = encrypt(456, &keys.secret).unwrap();
    assert_eq!(check_operands(&keys.evaluation, &a, &b), None);
    assert_eq!(decrypt(&a, &keys.secret), Ok(123));
}

#[test]
fn operands_of_other_parameters_are_refused() {
    let keys = generate_keys(&SchemeConfig::default_parameters());
    let good = encrypt(1, &keys.secret).unwrap();
    let theirs = tfhe::FheUint32::encrypt(5u32, &other_secret_key());
    let bad = ciphertext_from_bytes(&bincode::serialize(&theirs).unwrap(), Artifact::InputA).unwrap();
    assert_eq!(
        check_operands(&keys.evaluation, &bad, &good),
        Some(PipelineError::Incompatible(Artifact::InputA))
    );
    assert_eq!(
        check_operands(&keys.evaluation, &good, &bad),
        Some(PipelineError::Incompatible(Artifact::InputB))
    );
    assert_eq!(
        check_operands(&keys.evaluation, &bad, &bad),
        Some(PipelineError::Incompatible(Artifact::InputA))
    );
}

#[test]
fn evaluation_key_survives_a_round_trip() {
    let keys = generate_keys(&SchemeConfig::default_parameters());
    let bytes = evaluation_key_to_bytes(&keys.evaluation).unwrap();
    let back = evaluation_key_from_bytes(&bytes).unwrap();
    let a = encrypt(123, &keys.secret).unwrap();
    assert_eq!(check_operands(&back, &a, &a), None);
}

#[test]
fn output_sum_refuses_a_secret_key_that_does_not_decode() {
    let keys = generate_keys(&SchemeConfig::default_parameters());
    let evaluation = evaluation_key_to_bytes(&keys.evaluation).unwrap();
    assert_eq!(
        output_sum(&evaluation, b"", b"", b"", OutputMode::EncodedBlob).err(),
        Some(PipelineError::Undecodable(Artifact::SecretKey))
    );
}

#[test]
fn output_sum_refuses_a_missing_second_input() {
    let keys = generate_keys(&SchemeConfig::default_parameters());
    let evaluation = evaluation_key_to_bytes(&keys.evaluation).unwrap();
    let secret = secret_key_to_bytes(&keys.secret);
    let input_a = ciphertext_to_bytes(&encrypt(123, &keys.secret).unwrap());
    let failure = output_sum(&evaluation, &secret, &input_a, b"", OutputMode::EncodedBlob).err();
    assert_eq!(failure, Some(PipelineError::Undecodable(Artifact::InputB)));
    assert!(failure.unwrap().message().contains("data/ct_b.bin"));
}

#[test]
fn output_sum_refuses_inputs_of_other_parameters() {
    let keys = generate_keys(&SchemeConfig::default_parameters());
    let evaluation = evaluation_key_to_bytes(&keys.evaluation).unwrap();
    let secret = secret_key_to_bytes(&keys.secret);
    let good = ciphertext_to_bytes(&encrypt(123, &keys.secret).unwrap());
    let bad = bincode::serialize(&tfhe::FheUint32::encrypt(5u32, &other_secret_key())).unwrap();
    assert_eq!(
        output_sum(&evaluation, &secret, &good, &bad, OutputMode::Diagnostic).err(),
        Some(PipelineError::Incompatible(Artifact::InputB))
    );
}

#[test]
fn output_sum_refuses_a_secret_key_of_other_parameters() {
    let keys = generate_keys(&SchemeConfig::default_parameters());
    let evaluation = evaluation_key_to_bytes(&keys.evaluation).unwrap();
    let secret = secret_key_to_bytes(&other_secret_key());
    let input_a = ciphertext_to_bytes(&encrypt(123, &keys.secret).unwrap());
    let input_b = ciphertext_to_bytes(&encrypt(456, &keys.secret).unwrap());
    assert_eq!(
        output_sum(&evaluation, &secret, &input_a, &input_b, OutputMode::EncodedBlob).err(),
        Some(PipelineError::Incompatible(Artifact::SecretKey))
    );
}

#[test]
fn homomorphic_add_refuses_operands_of_other_parameters() {
    let keys = generate_keys(&SchemeConfig::default_parameters());
    let good = encrypt(1, &keys.secret).unwrap();
    let theirs = tfhe::FheUint32::encrypt(5u32, &other_secret_key());
    let bad = ciphertext_from_bytes(&bincode::serialize(&theirs).unwrap(), Artifact::InputA).unwrap();
    assert_eq!(
        homomorphic_add(&keys.evaluation, &bad, &good).err(),
        Some(PipelineError::Incompatible(Artifact::InputA))
    );
    assert_eq!(
        homomorphic_add(&keys.evaluation, &good, &bad).err(),
        Some(PipelineError::Incompatible(Artifact::InputB))
    );
    assert_eq!(
        add_and_verify(&keys.evaluation, &keys.secret, &good, &bad).err(),
        Some(PipelineError::Incompatible(Artifact::InputB))
    );
    assert_eq!(
        add_and_verify(&keys.evaluation, &other_secret_key(), &good, &good).err(),
        Some(PipelineError::Incompatible(Artifact::SecretKey))
    );
}

#[test]
fn generated_keys_belong_together() {
    let keys = generate_keys(&SchemeConfig::default_parameters());
    let fresh = encrypt(123, &keys.secret).unwrap();
    assert_eq!(decrypt(&fresh, &keys.secret), Ok(123));
    assert_eq!(check_operands(&keys.evaluation, &fresh, &fresh), None);
    let theirs = tfhe::FheUint32::encrypt(5u32, &other_secret_key());
    let other = ciphertext_from_bytes(&bincode::serialize(&theirs).unwrap(), Artifact::InputA).unwrap();
    assert_eq!(decrypt(&other, &keys.secret), Err(PipelineError::Incompatible(Artifact::SecretKey)));
    assert_eq!(
        check_operands(&keys.evaluation, &other, &other),
        Some(PipelineError::Incompatible(Artifact::InputA))
    );
}

#[test]
fn fresh_keys_are_sound() {
    let keys = generate_keys(&SchemeConfig::default_parameters());
    assert!(secret_key_is_sound(&keys.secret));
    assert!(evaluation_key_is_sound(&keys.evaluation));
    assert!(secret_key_is_sound(&secret_key()));
}

#[test]
fn secret_key_of_other_parameters_is_not_sound() {
    let other = other_secret_key();
    assert!(!secret_key_is_sound(&other));
    let bytes = bincode::serialize(&other).unwrap();
    assert_eq!(
        secret_key_from_bytes(&bytes).err(),
        Some(PipelineError::Incompatible(Artifact::SecretKey))
    );
}

#[test]
fn secret_key_with_a_number_too_many_is_not_sound() {
    let mut bytes = secret_key_to_bytes(&secret_key());
    let count_at = 8 + 2048 * 8 + 8;
    assert_eq!(bytes[count_at..count_at + 8], 761u64.to_le_bytes());
    bytes[count_at..count_at + 8].copy_from_slice(&762u64.to_le_bytes());
    let end = count_at + 8 + 761 * 8;
    let tail = bytes.split_off(end);
    bytes.extend_from_slice(&[1, 0, 0, 0, 0, 0, 0, 0]);
    bytes.extend_from_slice(&tail);
    let crafted: tfhe::ClientKey = bincode::deserialize(&bytes).unwrap();
    assert!(!secret_key_is_sound(&crafted));
    assert_eq!(encrypt(5, &crafted).err(), Some(PipelineError::Incompatible(Artifact::SecretKey)));
    assert_eq!(
        secret_key_from_bytes(&bytes).err(),
        Some(PipelineError::Incompatible(Artifact::SecretKey))
    );
}

#[test]
fn bytes_of_a_fresh_evaluation_key_are_framed() {
    let keys = generate_keys(&SchemeConfig::default_parameters());
    let bytes = evaluation_key_to_bytes(&keys.evaluation).unwrap();
    assert!(is_framed_evaluation_key(&bytes));
    assert!(!is_framed_evaluation_key(&bytes[..62_423_123]));
    assert!(!is_framed_evaluation_key(&bytes[1..]));
}

#[test]
fn evaluation_key_bytes_with_another_polynomial_size_are_refused() {
    let keys = generate_keys(&SchemeConfig::default_parameters());
    let mut bytes = evaluation_key_to_bytes(&keys.evaluation).unwrap();
    assert_eq!(bytes[62_423_108..62_423_116], 2048u64.to_le_bytes());
    bytes[62_423_108..62_423_116].copy_from_slice(&3u64.to_le_bytes());
    assert!(!is_framed_evaluation_key(&bytes));
    assert_eq!(
        evaluation_key_from_bytes(&bytes).err(),
        Some(PipelineError::Undecodable(Artifact::EvaluationKey))
    );
    bytes[62_423_108..62_423_116].copy_from_slice(&2048u64.to_le_bytes());
    bytes[62_423_116..62_423_124].copy_from_slice(&u64::MAX.to_le_bytes());
    assert_eq!(
        evaluation_key_from_bytes(&bytes).err(),
        Some(PipelineError::Undecodable(Artifact::EvaluationKey))
    );
    bytes[0] = 1;
    assert!(!is_framed_evaluation_key(&bytes));
}

#[test]
fn check_artifact_accepts_what_was_saved() {
    let secret = secret_key();
    let key_bytes = secret_key_to_bytes(&secret);
    let input = ciphertext_to_bytes(&encrypt(123, &secret).unwrap());
    assert_eq!(fhe_sum::pipeline::check_artifact(Artifact::SecretKey, &key_bytes), None);
    assert_eq!(fhe_sum::pipeline::check_artifact(Artifact::InputA, &input), None);
    assert!(fhe_sum::pipeline::check_artifact(Artifact::SecretKey, &input).is_some());
    assert!(fhe_sum::pipeline::check_artifact(Artifact::InputA, &key_bytes[..64]).is_some());
}

#[test]
fn evaluation_key_bytes_that_announce_a_second_key_are_refused() {
    let keys = generate_keys(&SchemeConfig::default_parameters());
    let mut bytes = evaluation_key_to_bytes(&keys.evaluation).unwrap();
    assert_eq!(bytes.len(), 112_320_465);
    assert_eq!(bytes[112_320_464], 0);
    bytes[112_320_464] = 1;
    bytes.extend_from_slice(&[0; 64]);
    assert!(!is_framed_evaluation_key(&bytes));
    assert_eq!(
        evaluation_key_from_bytes(&bytes).err(),
        Some(PipelineError::Undecodable(Artifact::EvaluationKey))
    );
}

#[test]
fn a_fresh_ciphertext_has_sixteen_blocks_and_dumps_in_49_lines() {
    let secret = secret_key();
    let ct = encrypt(579, &secret).unwrap();
    let (ct, outcome) = report_sum(ct, &secret).unwrap();
    let c = finish_sum(ct, outcome, OutputMode::Diagnostic).unwrap();
    assert_eq!(c.output.len(), 49);
    assert_eq!(c.output[0], "FheUint32 has 16 blocks");
    assert_eq!(c.output[1], "--- block #0 ---");
    assert!(c.output[2].starts_with("A = ["));
    assert_eq!(c.output[2].matches(", ").count(), 2047);
    assert!(c.output[3].starts_with("b        = "));
    assert_eq!(c.output[46], "--- block #15 ---");
    let back = ciphertext_from_bytes(&c.sum.bytes, Artifact::Sum).unwrap();
    assert_eq!(blocks(back).unwrap().len(), 16);
}

#[test]
fn a_value_that_matches_is_reported_ok() {
    let secret = secret_key();
    let (_ct, outcome) = report_sum(encrypt(579, &secret).unwrap(), &secret).unwrap();
    assert!(outcome.passed());
    assert!(outcome.message(Stage::Reload).ends_with("expected 579, got 579 -> OK"));
}

#[test]
fn a_value_that_does_not_match_is_reported_and_still_saved_and_emitted() {
    let secret = secret_key();
    let (ct, outcome) = report_sum(encrypt(3, &secret).unwrap(), &secret).unwrap();
    assert!(!outcome.passed());
    assert_eq!(
        outcome.message(Stage::Reload),
        "Reload verification: expected 579, got 3 -> FAILED"
    );
    let c = finish_sum(ct, outcome, OutputMode::EncodedBlob).unwrap();
    assert_eq!(c.verification, outcome);
    assert_eq!(c.sum.artifact, Artifact::Sum);
    assert_eq!(c.output.len(), 1);
    let decoded = base64::engine::general_purpose::STANDARD.decode(&c.output[0]).unwrap();
    assert_eq!(decoded, c.sum.bytes);
    let back = ciphertext_from_bytes(&decoded, Artifact::Sum).unwrap();
    assert_eq!(decrypt(&back, &secret), Ok(3));
}

#[test]
fn report_sum_refuses_what_cannot_be_decrypted() {
    let secret = secret_key();
    let theirs = tfhe::FheUint32::encrypt(5u32, &other_secret_key());
    let other = ciphertext_from_bytes(&bincode::serialize(&theirs).unwrap(), Artifact::Sum).unwrap();
    assert_eq!(report_sum(other, &secret).err(), Some(PipelineError::Incompatible(Artifact::Sum)));
    let ct = encrypt(1, &secret).unwrap();
    assert_eq!(
        report_sum(ct, &other_secret_key()).err(),
        Some(PipelineError::Incompatible(Artifact::Sum))
    );
}

#[test]
fn encode_generated_gives_four_files_that_load_again() {
    let keys = generate_keys(&SchemeConfig::default_parameters());
    let a = encrypt(123, &keys.secret).unwrap();
    let b = encrypt(456, &keys.secret).unwrap();
    let g = encode_generated(verify_sum(579), &keys.evaluation, &keys.secret, &a, &b).unwrap();
    assert_eq!(g.files.len(), 4);
    assert_eq!(g.files[0].artifact, Artifact::EvaluationKey);
    assert_eq!(g.files[3].artifact, Artifact::InputB);
    assert!(g.files.iter().all(|file| !file.bytes.is_empty()));
    let secret = secret_key_from_bytes(&g.files[1].bytes).unwrap();
    let first = ciphertext_from_bytes(&g.files[2].bytes, Artifact::InputA).unwrap();
    let second = ciphertext_from_bytes(&g.files[3].bytes, Artifact::InputB).unwrap();
    assert_eq!(decrypt(&first, &secret), Ok(123));
    assert_eq!(decrypt(&second, &secret), Ok(456));
    assert!(is_framed_evaluation_key(&g.files[0].bytes));
}
