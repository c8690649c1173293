use fhe_sum::mode::PipelineMode;
use fhe_sum::report::output_flag;
use fhe_sum::report::saved_message;
use fhe_sum::report::start_message;

#[test]
fn output_flag_defaults_to_base64() {
    assert_eq!(output_flag(None), "base64");
    assert_eq!(output_flag(Some("int64")), "int64");
    assert_eq!(output_flag(Some("")), "");
}

#[test]
fn start_message_of_the_generating_branch() {
    assert_eq!(
        start_message(PipelineMode::Generate, "base64"),
        "SAVE=true: generating keys & ciphertexts (123, 456), verifying 579, saving all files."
    );
}

#[test]
fn start_message_of_the_computing_branch() {
    assert_eq!(
        start_message(PipelineMode::LoadAndCompute, "int64"),
        "SAVE=false: loading keys/ciphertexts, performing addition, verifying 579, output in 'int64' mode."
    );
    assert_eq!(
        start_message(PipelineMode::LoadAndCompute, output_flag(None)),
        "SAVE=false: loading keys/ciphertexts, performing addition, verifying 579, output in 'base64' mode."
    );
}

#[test]
fn saved_message_lists_the_four_paths() {
    assert_eq!(
        saved_message(),
        "Saved: data/server_key.bin, data/client_key.bin, data/ct_a.bin, data/ct_b.bin"
    );
}
