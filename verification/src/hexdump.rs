//! Bytecode as text: two hex digits a byte, sixteen bytes a line.

use vstd::prelude::*;

verus! {

/// The sixteen hex digits, in order of their value.
pub open spec fn hex_digits() -> Seq<char> {
    "0123456789abcdef"@
}

/// The text for the byte at `index`: its high digit, its low digit, and what
/// parts it from the next byte, which is a line break behind every sixteenth
/// byte and a space elsewhere.
pub open spec fn cell(byte: u8, index: int) -> Seq<char> {
    seq![
        hex_digits()[(byte / 16) as int],
        hex_digits()[(byte % 16) as int],
        if (index + 1) % 16 == 0 {
            '\n'
        } else {
            ' '
        },
    ]
}

/// The text for the first `count` bytes of `bytes`.
pub open spec fn cells(bytes: Seq<u8>, count: int) -> Seq<char>
    decreases count,
{
    if count <= 0 {
        Seq::empty()
    } else {
        cells(bytes, count - 1) + cell(bytes[count - 1], count - 1)
    }
}

/// The whole dump: a cell for every byte, and a line break to close a last
/// line that is not full.
pub open spec fn dump_text(bytes: Seq<u8>) -> Seq<char> {
    cells(bytes, bytes.len() as int) + if bytes.len() % 16 != 0 {
        seq!['\n']
    } else {
        Seq::empty()
    }
}

/// The dump of `count` bytes is three characters a byte.
pub proof fn lemma_cells_len(bytes: Seq<u8>, count: int)
    requires
        0 <= count,
    ensures
        cells(bytes, count).len() == 3 * count,
    decreases count,
{
    if count > 0 {
        lemma_cells_len(bytes, count - 1);
    }
}

/// Renders `bytes` as lines of hex digits.
pub fn hex_dump(bytes: &[u8]) -> (text: String)
    ensures
        text@ == dump_text(bytes@),
        text@.len() == 3 * bytes@.len() + if bytes@.len() % 16 != 0 {
            1int
        } else {
            0int
        },
{
    let digits = "0123456789abcdef";
    proof {
        reveal_strlit("0123456789abcdef");
        reveal_strlit("\n");
        reveal_strlit(" ");
    }
    let mut text = String::new();
    let mut at: usize = 0;
    while at < bytes.len()
        invariant
            at <= bytes@.len(),
            digits@ == hex_digits(),
            digits@.len() == 16,
            digits.is_ascii(),
            "\n"@ =~= seq!['\n'],
            " "@ =~= seq![' '],
            text@ == cells(bytes@, at as int),
        decreases bytes@.len() - at,
    {
        let byte = bytes[at];
        let high = (byte / 16) as usize;
        let low = (byte % 16) as usize;
        let ghost before = text@;
        text.append(digits.substring_ascii(high, high + 1));
        text.append(digits.substring_ascii(low, low + 1));
        if (at + 1) % 16 == 0 {
            text.append("\n");
        } else {
            text.append(" ");
        }
        assert(text@ =~= before + cell(byte, at as int));
        at += 1;
    }
    if bytes.len() % 16 != 0 {
        text.append("\n");
    }
    proof {
        lemma_cells_len(bytes@, bytes@.len() as int);
        assert(text@ =~= dump_text(bytes@));
    }
    text
}

} // verus!
