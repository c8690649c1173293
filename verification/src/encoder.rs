//! The two renderings of the encrypted sum: one line of base64 text over its
//! bytes, or a dump of the raw numbers of every block.

use crate::blob::base64_bytes;
use crate::blob::base64_text;
use crate::blob::lemma_base64_round_trip;
use crate::ciphertext::block_views;
use crate::ciphertext::LweBlock;
use crate::mode::OutputMode;
use crate::text::bracketed_list;
use crate::text::decimal;
use crate::text::push_bracketed_list;
use crate::text::push_decimal;
use base64::Engine;
use vstd::prelude::*;
use vstd::string::StringExecFns;

verus! {

/// The views of a vector of lines, in order.
pub open spec fn line_views(lines: Seq<String>) -> Seq<Seq<char>> {
    lines.map_values(|line: String| line@)
}

/// The first line of the dump: how many blocks follow.
pub open spec fn header_line(count: nat) -> Seq<char> {
    "FheUint32 has "@ + decimal(count) + " blocks"@
}

/// The line that opens the dump of one block.
pub open spec fn title_line(index: nat) -> Seq<char> {
    "--- block #"@ + decimal(index) + " ---"@
}

/// The line of a block's mask coefficients.
pub open spec fn mask_line(mask: Seq<u64>) -> Seq<char> {
    "A = "@ + bracketed_list(mask)
}

/// The line of a block's body.
pub open spec fn body_line(body: u64) -> Seq<char> {
    "b        = "@ + decimal(body as nat)
}

/// The dump of a ciphertext: the header, then three lines for each block in
/// order: its title, its mask and its body.
pub open spec fn dump_text(blocks: Seq<(Seq<u64>, u64)>) -> Seq<Seq<char>> {
    Seq::new(
        1 + 3 * blocks.len(),
        |i: int|
            if i == 0 {
                header_line(blocks.len())
            } else if (i - 1) % 3 == 0 {
                title_line(((i - 1) / 3) as nat)
            } else if (i - 1) % 3 == 1 {
                mask_line(blocks[(i - 1) / 3].0)
            } else {
                body_line(blocks[(i - 1) / 3].1)
            },
    )
}

/// What goes to standard output for a sum with these blocks and these bytes.
pub open spec fn output_text(mode: OutputMode, blocks: Seq<(Seq<u64>, u64)>, bytes: Seq<u8>) -> Seq<
    Seq<char>,
> {
    match mode {
        OutputMode::Diagnostic => dump_text(blocks),
        OutputMode::EncodedBlob => seq![base64_text(bytes)],
    }
}

/// What is printed in encoded-blob mode is one line, and the bytes can be read
/// back from it.
pub proof fn lemma_encoded_blob_reads_back(blocks: Seq<(Seq<u64>, u64)>, bytes: Seq<u8>)
    ensures
        output_text(OutputMode::EncodedBlob, blocks, bytes).len() == 1,
        base64_bytes(output_text(OutputMode::EncodedBlob, blocks, bytes)[0]) == Some(bytes),
{
    lemma_base64_round_trip(bytes);
}

/// The dump has one header line and three lines for each block, and does not
/// depend on the bytes.
pub proof fn lemma_dump_shape(blocks: Seq<(Seq<u64>, u64)>, bytes: Seq<u8>)
    ensures
        output_text(OutputMode::Diagnostic, blocks, bytes) == dump_text(blocks),
        dump_text(blocks).len() == 1 + 3 * blocks.len(),
        dump_text(blocks)[0] == header_line(blocks.len()),
        forall|k: int|
            0 <= k < blocks.len() ==> {
                &&& dump_text(blocks)[1 + 3 * k] == title_line(k as nat)
                &&& dump_text(blocks)[2 + 3 * k] == mask_line(#[trigger] blocks[k].0)
                &&& dump_text(blocks)[3 + 3 * k] == body_line(blocks[k].1)
            },
{
}

/// Trusted: `Engine::encode` of the `base64` crate on its `STANDARD` engine,
/// which is the alphabet of RFC 4648 with padding. The result is the text that
/// [`base64_text`] defines. The crate gives up only where the length of the
/// text overflows `usize`; no slice in memory is long enough for that, since a
/// slice holds at most `isize::MAX` bytes.
#[verifier::external_body]
fn encode_standard(bytes: &[u8]) -> (text: String)
    ensures
        text@ == base64_text(bytes@),
{
    base64::engine::general_purpose::STANDARD.encode(bytes)
}

/// The bytes of the sum as one line of base64 text.
pub fn encode_blob(bytes: &[u8]) -> (text: String)
    ensures
        text@ == base64_text(bytes@),
{
    encode_standard(bytes)
}

/// The diagnostic dump of a ciphertext's blocks, line by line.
pub fn dump_lines(blocks: &Vec<LweBlock>) -> (lines: Vec<String>)
    ensures
        line_views(lines@) == dump_text(block_views(blocks@)),
{
    let ghost want = dump_text(block_views(blocks@));
    let mut lines: Vec<String> = Vec::new();
    let mut header = String::from_str("FheUint32 has ");
    push_decimal(&mut header, blocks.len() as u64);
    header.append(" blocks");
    lines.push(header);
    let mut i: usize = 0;
    while i < blocks.len()
        invariant
            i <= blocks.len(),
            want == dump_text(block_views(blocks@)),
            lines@.len() == 1 + 3 * i,
            forall|j: int| 0 <= j < lines@.len() ==> (#[trigger] lines@[j])@ == want[j],
        decreases blocks.len() - i,
    {
        let block = &blocks[i];
        let mut title = String::from_str("--- block #");
        push_decimal(&mut title, i as u64);
        title.append(" ---");
        let mut mask = String::from_str("A = ");
        push_bracketed_list(&mut mask, &block.mask);
        let mut body = String::from_str("b        = ");
        push_decimal(&mut body, block.body);
        proof {
            let k: int = 1 + 3 * i;
            assert(block_views(blocks@)[i as int] == blocks@[i as int]@);
            assert(title@ == want[k as int]);
            assert(mask@ == want[k + 1]);
            assert(body@ == want[k + 2]);
        }
        lines.push(title);
        lines.push(mask);
        lines.push(body);
        i = i + 1;
    }
    assert(line_views(lines@) =~= want);
    lines
}

/// The lines that go to standard output: the dump of the blocks in
/// diagnostic mode, the base64 text of the bytes otherwise.
pub fn render_output(mode: OutputMode, blocks: &Vec<LweBlock>, bytes: &[u8]) -> (lines: Vec<String>)
    ensures
        line_views(lines@) == output_text(mode, block_views(blocks@), bytes@),
{
    match mode {
        OutputMode::Diagnostic => dump_lines(blocks),
        OutputMode::EncodedBlob => {
            let mut lines: Vec<String> = Vec::new();
            lines.push(encode_blob(bytes));
            assert(line_views(lines@) =~= seq![base64_text(bytes@)]);
            lines
        },
    }
}

} // verus!
