//! The artifacts that a run persists, where each lives on disk, and what can
//! go wrong with one.

use vstd::prelude::*;
use vstd::string::StringExecFns;

verus! {

/// One of the five things that the pipeline keeps on disk.
#[derive(Clone, Copy, Debug, PartialEq, Eq, Structural)]
pub enum Artifact {
    EvaluationKey,
    SecretKey,
    InputA,
    InputB,
    Sum,
}

/// The directory that holds every artifact.
pub open spec fn data_dir_text() -> Seq<char> {
    "data"@
}

/// The artifacts that the generating branch persists and the computing branch
/// loads, in the order in which they are written and read.
pub open spec fn input_artifacts() -> Seq<Artifact> {
    seq![Artifact::EvaluationKey, Artifact::SecretKey, Artifact::InputA, Artifact::InputB]
}

impl Artifact {
    /// The path of the artifact's file, relative to the working directory.
    pub open spec fn path_text(self) -> Seq<char> {
        match self {
            Artifact::EvaluationKey => "data/server_key.bin"@,
            Artifact::SecretKey => "data/client_key.bin"@,
            Artifact::InputA => "data/ct_a.bin"@,
            Artifact::InputB => "data/ct_b.bin"@,
            Artifact::Sum => "data/sum.bin"@,
        }
    }

    /// What the artifact is called in messages.
    pub open spec fn label_text(self) -> Seq<char> {
        match self {
            Artifact::EvaluationKey => "evaluation key"@,
            Artifact::SecretKey => "secret key"@,
            Artifact::InputA => "input ciphertext A"@,
            Artifact::InputB => "input ciphertext B"@,
            Artifact::Sum => "sum ciphertext"@,
        }
    }

    /// The path of the artifact's file.
    pub fn path(&self) -> (path: &'static str)
        ensures
            path@ == self.path_text(),
    {
        match self {
            Artifact::EvaluationKey => "data/server_key.bin",
            Artifact::SecretKey => "data/client_key.bin",
            Artifact::InputA => "data/ct_a.bin",
            Artifact::InputB => "data/ct_b.bin",
            Artifact::Sum => "data/sum.bin",
        }
    }

    /// What the artifact is called in messages.
    pub fn label(&self) -> (label: &'static str)
        ensures
            label@ == self.label_text(),
    {
        match self {
            Artifact::EvaluationKey => "evaluation key",
            Artifact::SecretKey => "secret key",
            Artifact::InputA => "input ciphertext A",
            Artifact::InputB => "input ciphertext B",
            Artifact::Sum => "sum ciphertext",
        }
    }
}

/// The directory that holds every artifact; it is created before anything is
/// written.
pub fn data_dir() -> (dir: &'static str)
    ensures
        dir@ == data_dir_text(),
{
    "data"
}

/// Every artifact lies directly under the data directory.
pub proof fn lemma_paths_under_data_dir(artifact: Artifact)
    ensures
        artifact.path_text().len() > data_dir_text().len() + 1,
        artifact.path_text().take(data_dir_text().len() as int) == data_dir_text(),
        artifact.path_text()[data_dir_text().len() as int] == '/',
        forall|i: int|
            data_dir_text().len() < i < artifact.path_text().len()
                ==> #[trigger] artifact.path_text()[i] != '/',
{
    reveal_strlit("data");
    reveal_strlit("data/server_key.bin");
    reveal_strlit("data/client_key.bin");
    reveal_strlit("data/ct_a.bin");
    reveal_strlit("data/ct_b.bin");
    reveal_strlit("data/sum.bin");
    assert(artifact.path_text().take(4) =~= "data"@);
}

/// No two artifacts share a file.
pub proof fn lemma_paths_distinct(a: Artifact, b: Artifact)
    requires
        a.path_text() == b.path_text(),
    ensures
        a == b,
{
    reveal_strlit("data/server_key.bin");
    reveal_strlit("data/client_key.bin");
    reveal_strlit("data/ct_a.bin");
    reveal_strlit("data/ct_b.bin");
    reveal_strlit("data/sum.bin");
    let pa = a.path_text();
    let pb = b.path_text();
    assert(pa.len() == pb.len());
    assert(pa[5] == pb[5]);
    assert(pa[8] == pb[8]);
}

/// Why a run of the pipeline cannot go on.
#[derive(Clone, Copy, Debug, PartialEq, Eq, Structural)]
pub enum PipelineError {
    /// The bytes of a persisted artifact do not decode.
    Undecodable(Artifact),
    /// An artifact decodes but cannot be worked with: a key that is not sound,
    /// or a ciphertext that is not well formed for the parameters of the
    /// scheme.
    Incompatible(Artifact),
}

impl PipelineError {
    /// The artifact that the error is about.
    pub open spec fn artifact_of(self) -> Artifact {
        match self {
            PipelineError::Undecodable(a) => a,
            PipelineError::Incompatible(a) => a,
        }
    }

    /// What went wrong, in words that end where the artifact's name begins.
    pub open spec fn reason_text(self) -> Seq<char> {
        match self {
            PipelineError::Undecodable(_) => "cannot decode the "@,
            PipelineError::Incompatible(_) => "incompatible "@,
        }
    }

    /// The message of the error: the reason, the artifact's name, and its
    /// path in round brackets.
    pub open spec fn message_text(self) -> Seq<char> {
        self.reason_text() + self.artifact_of().label_text() + " ("@
            + self.artifact_of().path_text() + ")"@
    }

    /// The artifact that the error is about.
    pub fn artifact(&self) -> (artifact: Artifact)
        ensures
            artifact == self.artifact_of(),
    {
        match self {
            PipelineError::Undecodable(a) => *a,
            PipelineError::Incompatible(a) => *a,
        }
    }

    /// The message of the error, naming the artifact and its path.
    pub fn message(&self) -> (text: String)
        ensures
            text@ == self.message_text(),
    {
        let reason = match self {
            PipelineError::Undecodable(_) => "cannot decode the ",
            PipelineError::Incompatible(_) => "incompatible ",
        };
        let artifact = self.artifact();
        let mut text = String::from_str(reason);
        text.append(artifact.label());
        text.append(" (");
        text.append(artifact.path());
        text.append(")");
        text
    }
}

} // verus!
