//! The check that a run makes on its own work: the encrypted sum is decrypted
//! and compared with the value that the two plaintexts must add up to. The
//! outcome is reported and never stops the run.

use crate::text::decimal;
use crate::text::push_decimal;
use vstd::prelude::*;
use vstd::string::StringExecFns;

verus! {

/// The first plaintext that a generating run encrypts.
pub const PLAINTEXT_A: u32 = 123;

/// The second plaintext that a generating run encrypts.
pub const PLAINTEXT_B: u32 = 456;

/// The value that the encrypted sum must decrypt to in both branches.
pub const EXPECTED_SUM: u32 = 579;

/// Addition of 32-bit unsigned integers as the scheme computes it: modulo
/// 2^32, so that a sum past the largest value wraps around.
pub open spec fn wrapping_sum(a: u32, b: u32) -> u32 {
    ((a + b) % 0x1_0000_0000) as u32
}

/// The plaintext that the sum of two ciphertexts must decrypt to.
pub fn expected_sum(a: u32, b: u32) -> (sum: u32)
    ensures
        sum == wrapping_sum(a, b),
{
    let wide: u64 = a as u64 + b as u64;
    (wide % 0x1_0000_0000) as u32
}

/// The sum does not depend on the order of the operands.
pub proof fn lemma_wrapping_sum_commutes(a: u32, b: u32)
    ensures
        wrapping_sum(a, b) == wrapping_sum(b, a),
{
}

/// The sum of three does not depend on which two are added first.
pub proof fn lemma_wrapping_sum_associates(a: u32, b: u32, c: u32)
    ensures
        wrapping_sum(wrapping_sum(a, b), c) == wrapping_sum(a, wrapping_sum(b, c)),
{
}

/// Adding zero changes nothing, and a sum that fits is the plain sum.
pub proof fn lemma_wrapping_sum_plain(a: u32, b: u32)
    ensures
        wrapping_sum(a, 0) == a,
        a + b <= u32::MAX ==> wrapping_sum(a, b) == a + b,
        a + b > u32::MAX ==> wrapping_sum(a, b) == a + b - 0x1_0000_0000,
{
}

/// The value that both branches expect is the sum of the two plaintexts.
pub proof fn lemma_expected_sum_of_plaintexts()
    ensures
        wrapping_sum(PLAINTEXT_A, PLAINTEXT_B) == EXPECTED_SUM,
{
}

/// Where in the pipeline a verification takes place.
#[derive(Clone, Copy, Debug, PartialEq, Eq, Structural)]
pub enum Stage {
    /// Right after the inputs were encrypted, in the generating branch.
    Local,
    /// After keys and inputs were loaded again, in the computing branch.
    Reload,
}

impl Stage {
    /// The word that starts the stage's message.
    pub open spec fn title_text(self) -> Seq<char> {
        match self {
            Stage::Local => "Local"@,
            Stage::Reload => "Reload"@,
        }
    }
}

/// The outcome of one verification: what was expected and what the
/// decryption gave.
#[derive(Clone, Copy, Debug, PartialEq, Eq, Structural)]
pub struct Verification {
    pub expected: u32,
    pub got: u32,
}

impl Verification {
    /// A verification passes when the decrypted value is the expected one.
    pub open spec fn passes(self) -> bool {
        self.got == self.expected
    }

    /// The verdict as it stands in the message.
    pub open spec fn verdict_text(self) -> Seq<char> {
        if self.passes() {
            "OK"@
        } else {
            "FAILED"@
        }
    }

    /// The message that reports the outcome of a stage.
    pub open spec fn message_text(self, stage: Stage) -> Seq<char> {
        stage.title_text() + " verification: expected "@ + decimal(self.expected as nat)
            + ", got "@ + decimal(self.got as nat) + " -> "@ + self.verdict_text()
    }

    /// Compares a decrypted value with the expected one.
    pub fn new(expected: u32, got: u32) -> (outcome: Verification)
        ensures
            outcome == (Verification { expected, got }),
    {
        Verification { expected, got }
    }

    /// Whether the decrypted value is the expected one.
    pub fn passed(&self) -> (ok: bool)
        ensures
            ok == self.passes(),
    {
        self.got == self.expected
    }

    /// The message that reports the outcome: the stage, the expected value,
    /// the decrypted value, and `OK` or `FAILED`.
    pub fn message(&self, stage: Stage) -> (text: String)
        ensures
            text@ == self.message_text(stage),
    {
        let mut text = String::from_str(
            match stage {
                Stage::Local => "Local",
                Stage::Reload => "Reload",
            },
        );
        text.append(" verification: expected ");
        push_decimal(&mut text, self.expected as u64);
        text.append(", got ");
        push_decimal(&mut text, self.got as u64);
        text.append(" -> ");
        text.append(
            if self.passed() {
                "OK"
            } else {
                "FAILED"
            },
        );
        text
    }
}

/// Verifies a decrypted sum against the value that the pipeline expects: the
/// sum of the two plaintexts modulo 2^32.
pub fn verify_sum(got: u32) -> (outcome: Verification)
    ensures
        outcome == (Verification { expected: EXPECTED_SUM, got }),
{
    Verification::new(expected_sum(PLAINTEXT_A, PLAINTEXT_B), got)
}

} // verus!
