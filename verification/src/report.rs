//! The progress messages of a run: what a branch is about to do, and what a
//! generating run has written.

use crate::artifact::Artifact;
use crate::mode::text_view;
use crate::mode::PipelineMode;
use crate::text::decimal;
use crate::text::push_decimal;
use crate::verification::EXPECTED_SUM;
use crate::verification::PLAINTEXT_A;
use crate::verification::PLAINTEXT_B;
use vstd::prelude::*;
use vstd::string::StringExecFns;

verus! {

/// The name of the output mode in messages: the text of the `OUTPUT_MODE`
/// variable, or `base64` where it is unset.
pub open spec fn output_flag_text(value: Option<Seq<char>>) -> Seq<char> {
    match value {
        Some(text) => text,
        None => "base64"@,
    }
}

/// The message that opens a run: what the branch is about to do.
pub open spec fn start_text(mode: PipelineMode, output_flag: Seq<char>) -> Seq<char> {
    match mode {
        PipelineMode::Generate => "SAVE=true: generating keys & ciphertexts ("@ + decimal(
            PLAINTEXT_A as nat,
        ) + ", "@ + decimal(PLAINTEXT_B as nat) + "), verifying "@ + decimal(EXPECTED_SUM as nat)
            + ", saving all files."@,
        PipelineMode::LoadAndCompute =>
            "SAVE=false: loading keys/ciphertexts, performing addition, verifying "@ + decimal(
            EXPECTED_SUM as nat,
        ) + ", output in '"@ + output_flag + "' mode."@,
    }
}

/// The message that closes a generating run: the paths that were written, in
/// order.
pub open spec fn saved_text() -> Seq<char> {
    "Saved: "@ + Artifact::EvaluationKey.path_text() + ", "@ + Artifact::SecretKey.path_text()
        + ", "@ + Artifact::InputA.path_text() + ", "@ + Artifact::InputB.path_text()
}

/// The name of the output mode in messages: the text of the `OUTPUT_MODE`
/// variable, or `base64` where it is unset.
pub fn output_flag<'a>(value: Option<&'a str>) -> (name: &'a str)
    ensures
        name@ == output_flag_text(text_view(value)),
{
    match value {
        Some(text) => text,
        None => "base64",
    }
}

/// The message that opens a run. In the computing branch it names the output
/// mode as `output_flag` gives it.
pub fn start_message(mode: PipelineMode, output_flag: &str) -> (text: String)
    ensures
        text@ == start_text(mode, output_flag@),
{
    match mode {
        PipelineMode::Generate => {
            let mut text = String::from_str("SAVE=true: generating keys & ciphertexts (");
            push_decimal(&mut text, PLAINTEXT_A as u64);
            text.append(", ");
            push_decimal(&mut text, PLAINTEXT_B as u64);
            text.append("), verifying ");
            push_decimal(&mut text, EXPECTED_SUM as u64);
            text.append(", saving all files.");
            text
        },
        PipelineMode::LoadAndCompute => {
            let mut text = String::from_str(
                "SAVE=false: loading keys/ciphertexts, performing addition, verifying ",
            );
            push_decimal(&mut text, EXPECTED_SUM as u64);
            text.append(", output in '");
            text.append(output_flag);
            text.append("' mode.");
            text
        },
    }
}

/// The message that closes a generating run.
pub fn saved_message() -> (text: String)
    ensures
        text@ == saved_text(),
{
    let mut text = String::from_str("Saved: ");
    text.append(Artifact::EvaluationKey.path());
    text.append(", ");
    text.append(Artifact::SecretKey.path());
    text.append(", ");
    text.append(Artifact::InputA.path());
    text.append(", ");
    text.append(Artifact::InputB.path());
    text
}

} // verus!
