//! The two switches of a run: which branch of the pipeline runs, and how the
//! encrypted sum is written out. Both are read from text once, at startup.

use vstd::prelude::*;
use vstd::string::StrSliceExecFns;

verus! {

/// The branch of the pipeline that a run takes.
#[derive(Clone, Copy, Debug, PartialEq, Eq, Structural)]
pub enum PipelineMode {
    /// Make keys and the two input ciphertexts, check them, and persist them.
    Generate,
    /// Load keys and inputs, add, check, persist the sum and write it out.
    LoadAndCompute,
}

/// How the encrypted sum is written to standard output.
#[derive(Clone, Copy, Debug, PartialEq, Eq, Structural)]
pub enum OutputMode {
    /// One line of text that encodes the bytes of the sum; reversible.
    EncodedBlob,
    /// The raw numbers of every block of the sum; for inspection only.
    Diagnostic,
}

/// An ASCII capital letter becomes its small letter; any other character stays.
pub open spec fn ascii_lower(c: char) -> char {
    if 'A' <= c && c <= 'Z' {
        ((c as u8 + 32) as u8) as char
    } else {
        c
    }
}

/// A text with its ASCII capital letters made small.
pub open spec fn lowered(text: Seq<char>) -> Seq<char> {
    text.map_values(|c: char| ascii_lower(c))
}

/// The texts that switch a flag on, whatever their case.
pub open spec fn is_truthy(text: Seq<char>) -> bool {
    let low = lowered(text);
    low == "1"@ || low == "true"@ || low == "t"@ || low == "yes"@ || low == "y"@
}

/// The text that switches a flag off, whatever its case.
pub open spec fn is_falsy(text: Seq<char>) -> bool {
    lowered(text) == "false"@
}

/// What a flag's text says: on, off, or nothing that is recognized.
pub open spec fn flag_of(text: Seq<char>) -> Option<bool> {
    if is_truthy(text) {
        Some(true)
    } else if is_falsy(text) {
        Some(false)
    } else {
        None
    }
}

/// The value of the generation flag: what its text says, and `true` where the
/// flag is unset or its text is not recognized.
pub open spec fn save_flag_of(value: Option<Seq<char>>) -> bool {
    match value {
        Some(text) => match flag_of(text) {
            Some(flag) => flag,
            None => true,
        },
        None => true,
    }
}

/// The branch that the generation flag selects.
pub open spec fn pipeline_mode_of(save: bool) -> PipelineMode {
    if save {
        PipelineMode::Generate
    } else {
        PipelineMode::LoadAndCompute
    }
}

/// The output mode that a flag's text selects: `int64` selects the diagnostic
/// dump, anything else the encoded blob.
pub open spec fn output_mode_of(value: Option<Seq<char>>) -> OutputMode {
    match value {
        Some(text) => if text == "int64"@ {
            OutputMode::Diagnostic
        } else {
            OutputMode::EncodedBlob
        },
        None => OutputMode::EncodedBlob,
    }
}

/// The views of an optional text.
pub open spec fn text_view(value: Option<&str>) -> Option<Seq<char>> {
    match value {
        Some(text) => Some(text@),
        None => None,
    }
}

/// Making letters small twice is making them small once.
pub proof fn lemma_lowered_twice(text: Seq<char>)
    ensures
        lowered(lowered(text)) == lowered(text),
{
    assert(lowered(lowered(text)) =~= lowered(text));
}

/// A flag's text says the same in any mix of upper and lower case.
pub proof fn lemma_flag_ignores_case(a: Seq<char>, b: Seq<char>)
    requires
        lowered(a) == lowered(b),
    ensures
        flag_of(a) == flag_of(b),
{
}

/// No text switches a flag both on and off.
pub proof fn lemma_flag_words_exclusive(text: Seq<char>)
    ensures
        !(is_truthy(text) && is_falsy(text)),
{
    reveal_strlit("1");
    reveal_strlit("true");
    reveal_strlit("t");
    reveal_strlit("yes");
    reveal_strlit("y");
    reveal_strlit("false");
    assert("false"@.len() == 5);
    assert("1"@.len() == 1 && "t"@.len() == 1 && "y"@.len() == 1);
    assert("true"@.len() == 4 && "yes"@.len() == 3);
}

/// The computing branch runs exactly where the generation flag is set to a
/// text that switches it off. Unset, switched on or not recognized, the flag
/// selects the generating branch.
pub proof fn lemma_mode_selection(value: Option<Seq<char>>)
    ensures
        pipeline_mode_of(save_flag_of(value)) == PipelineMode::LoadAndCompute <==> (value matches Some(
            text,
        ) && is_falsy(text)),
        pipeline_mode_of(save_flag_of(value)) == PipelineMode::Generate <==> (value matches Some(text)
            ==> !is_falsy(text)),
{
    if let Some(text) = value {
        lemma_flag_words_exclusive(text);
    }
}

fn lower_char(c: char) -> (low: char)
    ensures
        low == ascii_lower(c),
{
    if 'A' <= c && c <= 'Z' {
        ((c as u8) + 32) as char
    } else {
        c
    }
}

/// Whether `text` is `word`, letter for letter.
fn same_text(text: &str, word: &str) -> (same: bool)
    ensures
        same == (text@ == word@),
{
    let n: usize = text.unicode_len();
    if n != word.unicode_len() {
        return false;
    }
    let mut i: usize = 0;
    while i < n
        invariant
            i <= n,
            n == text@.len(),
            n == word@.len(),
            forall|j: int| 0 <= j < i ==> text@[j] == word@[j],
        decreases n - i,
    {
        if text.get_char(i) != word.get_char(i) {
            return false;
        }
        i = i + 1;
    }
    assert(text@ =~= word@);
    true
}

/// Whether `text` is `word` once its ASCII capital letters are made small.
fn same_text_ignoring_case(text: &str, word: &str) -> (same: bool)
    ensures
        same == (lowered(text@) == word@),
{
    let n: usize = text.unicode_len();
    if n != word.unicode_len() {
        return false;
    }
    let mut i: usize = 0;
    while i < n
        invariant
            i <= n,
            n == text@.len(),
            n == word@.len(),
            forall|j: int| 0 <= j < i ==> lowered(text@)[j] == word@[j],
        decreases n - i,
    {
        if lower_char(text.get_char(i)) != word.get_char(i) {
            assert(lowered(text@)[i as int] != word@[i as int]);
            return false;
        }
        i = i + 1;
    }
    assert(lowered(text@) =~= word@);
    true
}

/// Reads a flag's text: `1`, `true`, `t`, `yes` and `y` switch it on, `false`
/// switches it off, in any mix of upper and lower case; any other text says
/// nothing.
pub fn parse_flag(text: &str) -> (flag: Option<bool>)
    ensures
        flag == flag_of(text@),
{
    if same_text_ignoring_case(text, "1") || same_text_ignoring_case(text, "true")
        || same_text_ignoring_case(text, "t") || same_text_ignoring_case(text, "yes")
        || same_text_ignoring_case(text, "y") {
        Some(true)
    } else if same_text_ignoring_case(text, "false") {
        Some(false)
    } else {
        None
    }
}

/// The generation flag, from the text of the `SAVE` variable where it is set.
/// Unset, or set to a text that is not recognized, it is `true`.
pub fn read_save_flag(value: Option<&str>) -> (save: bool)
    ensures
        save == save_flag_of(text_view(value)),
{
    match value {
        Some(text) => match parse_flag(text) {
            Some(flag) => flag,
            None => true,
        },
        None => true,
    }
}

impl PipelineMode {
    /// The branch that the generation flag selects: `Generate` where it is
    /// `true`, `LoadAndCompute` where it is `false`.
    pub fn from_save_flag(save: bool) -> (mode: PipelineMode)
        ensures
            mode == pipeline_mode_of(save),
    {
        if save {
            PipelineMode::Generate
        } else {
            PipelineMode::LoadAndCompute
        }
    }

    /// The branch that the text of the `SAVE` variable selects.
    pub fn select(value: Option<&str>) -> (mode: PipelineMode)
        ensures
            mode == pipeline_mode_of(save_flag_of(text_view(value))),
    {
        PipelineMode::from_save_flag(read_save_flag(value))
    }
}

impl OutputMode {
    /// The output mode that the text of the `OUTPUT_MODE` variable selects.
    pub fn from_flag(value: Option<&str>) -> (mode: OutputMode)
        ensures
            mode == output_mode_of(text_view(value)),
    {
        match value {
            Some(text) => if same_text(text, "int64") {
                OutputMode::Diagnostic
            } else {
                OutputMode::EncodedBlob
            },
            None => OutputMode::EncodedBlob,
        }
    }
}

} // verus!
