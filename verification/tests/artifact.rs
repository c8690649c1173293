use fhe_sum::artifact::data_dir;
use fhe_sum::artifact::Artifact;
use fhe_sum::artifact::PipelineError;

#[test]
fn artifact_paths() {
    assert_eq!(data_dir(), "data");
    assert_eq!(Artifact::EvaluationKey.path(), "data/server_key.bin");
    assert_eq!(Artifact::SecretKey.path(), "data/client_key.bin");
    assert_eq!(Artifact::InputA.path(), "data/ct_a.bin");
    assert_eq!(Artifact::InputB.path(), "data/ct_b.bin");
    assert_eq!(Artifact::Sum.path(), "data/sum.bin");
}

#[test]
fn artifact_paths_lie_under_the_data_dir_and_differ() {
    let all = [
        Artifact::EvaluationKey,
        Artifact::SecretKey,
        Artifact::InputA,
        Artifact::InputB,
        Artifact::Sum,
    ];
    for (i, a) in all.iter().enumerate() {
        assert!(a.path().starts_with("data/"));
        assert!(!a.path()["data/".len()..].contains('/'));
        for (j, b) in all.iter().enumerate() {
            assert_eq!(a.path() == b.path(), i == j);
        }
    }
}

#[test]
fn artifact_labels() {
    assert_eq!(Artifact::EvaluationKey.label(), "evaluation key");
    assert_eq!(Artifact::SecretKey.label(), "secret key");
    assert_eq!(Artifact::InputA.label(), "input ciphertext A");
    assert_eq!(Artifact::InputB.label(), "input ciphertext B");
    assert_eq!(Artifact::Sum.label(), "sum ciphertext");
}

#[test]
fn error_messages_name_artifact_and_path() {
    assert_eq!(
        PipelineError::Undecodable(Artifact::InputB).message(),
        "cannot decode the input ciphertext B (data/ct_b.bin)"
    );
    assert_eq!(
        PipelineError::Incompatible(Artifact::SecretKey).message(),
        "incompatible secret key (data/client_key.bin)"
    );
}

#[test]
fn error_artifact() {
    assert_eq!(PipelineError::Undecodable(Artifact::InputA).artifact(), Artifact::InputA);
    assert_eq!(PipelineError::Incompatible(Artifact::InputB).artifact(), Artifact::InputB);
    assert_eq!(PipelineError::Incompatible(Artifact::Sum).artifact(), Artifact::Sum);
}
