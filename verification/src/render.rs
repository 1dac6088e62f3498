//! Human-readable dumps of assembled segments.

use crate::text::{hex_digits, push_hex, push_spaces, spaces};
use crate::words::{word_of, words_of};
use vstd::prelude::*;

verus! {

/// How a byte is shown in the character column of a dump: printable ASCII
/// as itself, line feed, carriage return, tab and NUL as a two-character
/// escape, anything else as a dot.
pub open spec fn rendered(byte: u8) -> Seq<char> {
    if 0x20 <= byte <= 0x7E {
        seq![byte as char]
    } else if byte == 0x0A {
        seq!['\\', 'n']
    } else if byte == 0x0D {
        seq!['\\', 'r']
    } else if byte == 0x09 {
        seq!['\\', 't']
    } else if byte == 0x00 {
        seq!['\\', '0']
    } else {
        seq!['.']
    }
}

/// How a byte is shown in the four-column dump: printable ASCII as itself,
/// NUL, backspace, tab, line feed and form feed as a two-character escape,
/// anything else as `\x` and two hexadecimal digits.
pub open spec fn rendered_pretty(byte: u8) -> Seq<char> {
    if byte == 0x00 {
        seq!['\\', '0']
    } else if byte == 0x08 {
        seq!['\\', 'b']
    } else if byte == 0x09 {
        seq!['\\', 't']
    } else if byte == 0x0A {
        seq!['\\', 'n']
    } else if byte == 0x0C {
        seq!['\\', 'f']
    } else if 0x20 <= byte <= 0x7E {
        seq![byte as char]
    } else {
        seq!['\\', 'x'] + hex_digits(byte as nat, 2)
    }
}

/// One line of a word dump: `0x`, eight hexadecimal digits, a line feed.
pub open spec fn hex_line(word: u32) -> Seq<char> {
    seq!['0', 'x'] + hex_digits(word as nat, 8) + seq!['\n']
}

/// How many rows of `per_row` bytes it takes to show `len` bytes.
pub open spec fn row_count(len: nat, per_row: nat) -> nat {
    ((len + per_row - 1) / (per_row as int)) as nat
}

/// The byte at position `k`, or zero past the end.
pub open spec fn byte_or_zero(bytes: Seq<u8>, k: int) -> u8 {
    if 0 <= k < bytes.len() {
        bytes[k]
    } else {
        0
    }
}

/// The word shown in row `row` of a word dump: bytes `4 row .. 4 row + 3`,
/// least significant first, with zero for bytes past the end.
pub open spec fn row_word(bytes: Seq<u8>, row: int) -> u32 {
    word_of(
        byte_or_zero(bytes, 4 * row),
        byte_or_zero(bytes, 4 * row + 1),
        byte_or_zero(bytes, 4 * row + 2),
        byte_or_zero(bytes, 4 * row + 3),
    )
}

/// The first `rows` lines of the word dump of `bytes`.
pub open spec fn hex_rows(bytes: Seq<u8>, rows: nat) -> Seq<char>
    decreases rows,
{
    if rows == 0 {
        Seq::empty()
    } else {
        hex_rows(bytes, (rows - 1) as nat) + hex_line(row_word(bytes, rows - 1))
    }
}

/// The word dump of a segment: one line for every four bytes, the last one
/// completed with zeros.
pub open spec fn hex_dump(bytes: Seq<u8>) -> Seq<char> {
    hex_rows(bytes, row_count(bytes.len(), 4))
}

/// The listing of machine words, one line each.
pub open spec fn listing(words: Seq<u32>) -> Seq<char>
    decreases words.len(),
{
    if words.len() == 0 {
        Seq::empty()
    } else {
        listing(words.drop_last()) + hex_line(words.last())
    }
}

/// The hexadecimal cell of position `k` in a byte dump: two digits and a
/// space, or three spaces past the end.
pub open spec fn hex_cell(bytes: Seq<u8>, k: int) -> Seq<char> {
    if 0 <= k < bytes.len() {
        hex_digits(bytes[k] as nat, 2) + seq![' ']
    } else {
        spaces(3)
    }
}

/// The character cell of position `k` in a byte dump: the rendered byte, or
/// one space past the end.
pub open spec fn ascii_cell(bytes: Seq<u8>, k: int) -> Seq<char> {
    if 0 <= k < bytes.len() {
        rendered(bytes[k])
    } else {
        seq![' ']
    }
}

/// The hexadecimal cells of positions `start .. start + count`.
pub open spec fn hex_cells(bytes: Seq<u8>, start: int, count: nat) -> Seq<char>
    decreases count,
{
    if count == 0 {
        Seq::empty()
    } else {
        hex_cells(bytes, start, (count - 1) as nat) + hex_cell(bytes, start + count - 1)
    }
}

/// The character cells of positions `start .. start + count`.
pub open spec fn ascii_cells(bytes: Seq<u8>, start: int, count: nat) -> Seq<char>
    decreases count,
{
    if count == 0 {
        Seq::empty()
    } else {
        ascii_cells(bytes, start, (count - 1) as nat) + ascii_cell(bytes, start + count - 1)
    }
}

/// The address of the first byte of line `row` of a byte dump that starts
/// at `base`. Addresses are thirty-two bits wide and wrap around.
pub open spec fn line_address(base: u32, row: int) -> nat {
    ((base + 16 * row) % 0x1_0000_0000) as nat
}

/// Line `row` of a byte dump: the address of its first byte, a colon,
/// sixteen hexadecimal cells, a space, sixteen character cells, a line feed.
pub open spec fn ascii_line(bytes: Seq<u8>, base: u32, row: int) -> Seq<char> {
    seq!['0', 'x'] + hex_digits(line_address(base, row), 8) + seq![':', ' '] + hex_cells(
        bytes,
        16 * row,
        16,
    ) + seq![' '] + ascii_cells(bytes, 16 * row, 16) + seq!['\n']
}

/// The first `rows` lines of the byte dump of `bytes`.
pub open spec fn ascii_rows(bytes: Seq<u8>, base: u32, rows: nat) -> Seq<char>
    decreases rows,
{
    if rows == 0 {
        Seq::empty()
    } else {
        ascii_rows(bytes, base, (rows - 1) as nat) + ascii_line(bytes, base, rows - 1)
    }
}

/// The byte dump of a segment that starts at address `base`: one line for
/// every sixteen bytes.
pub open spec fn ascii_dump(bytes: Seq<u8>, base: u32) -> Seq<char> {
    ascii_rows(bytes, base, row_count(bytes.len(), 16))
}

/// A cell of the four-column dump: the rendered byte, filled with spaces to
/// four characters.
pub open spec fn pretty_cell(byte: u8) -> Seq<char> {
    rendered_pretty(byte) + spaces((4 - rendered_pretty(byte).len()) as nat)
}

/// How many bytes row `row` of a four-column dump holds.
pub open spec fn row_len(len: nat, row: int) -> int {
    if len - 4 * row >= 4 {
        4
    } else {
        len - 4 * row
    }
}

/// The first `count` cells of row `row` of the four-column dump. The row
/// shows its bytes in reverse: the first cell holds the last byte of the row.
pub open spec fn reversed_cells(bytes: Seq<u8>, row: int, count: nat) -> Seq<char>
    decreases count,
{
    if count == 0 {
        Seq::empty()
    } else {
        reversed_cells(bytes, row, (count - 1) as nat) + pretty_cell(
            bytes[4 * row + row_len(bytes.len(), row) - count],
        )
    }
}

/// Row `row` of the four-column dump: its bytes in reverse, blank cells for
/// the bytes that a last short row lacks, a line feed.
pub open spec fn reversed_row(bytes: Seq<u8>, row: int) -> Seq<char> {
    let n = row_len(bytes.len(), row);
    reversed_cells(bytes, row, n as nat) + spaces((4 * (4 - n)) as nat) + seq!['\n']
}

/// The first `rows` rows of the four-column dump.
pub open spec fn reversed_rows(bytes: Seq<u8>, rows: nat) -> Seq<char>
    decreases rows,
{
    if rows == 0 {
        Seq::empty()
    } else {
        reversed_rows(bytes, (rows - 1) as nat) + reversed_row(bytes, rows - 1)
    }
}

/// The four-column dump of a segment: one row for every four bytes.
pub open spec fn reversed_dump(bytes: Seq<u8>) -> Seq<char> {
    reversed_rows(bytes, row_count(bytes.len(), 4))
}

fn push_rendered(s: &mut String, byte: u8)
    ensures
        final(s)@ == old(s)@ + rendered(byte),
{
    if 0x20 <= byte && byte <= 0x7E {
        s.push(byte as char);
    } else if byte == 0x0A {
        s.push('\\');
        s.push('n');
    } else if byte == 0x0D {
        s.push('\\');
        s.push('r');
    } else if byte == 0x09 {
        s.push('\\');
        s.push('t');
    } else if byte == 0x00 {
        s.push('\\');
        s.push('0');
    } else {
        s.push('.');
    }
    assert(s@ =~= old(s)@ + rendered(byte));
}

fn push_rendered_pretty(s: &mut String, byte: u8)
    ensures
        final(s)@ == old(s)@ + rendered_pretty(byte),
{
    if byte == 0x00 {
        s.push('\\');
        s.push('0');
    } else if byte == 0x08 {
        s.push('\\');
        s.push('b');
    } else if byte == 0x09 {
        s.push('\\');
        s.push('t');
    } else if byte == 0x0A {
        s.push('\\');
        s.push('n');
    } else if byte == 0x0C {
        s.push('\\');
        s.push('f');
    } else if 0x20 <= byte && byte <= 0x7E {
        s.push(byte as char);
    } else {
        s.push('\\');
        s.push('x');
        push_hex(s, byte as u32, 2);
    }
    assert(s@ =~= old(s)@ + rendered_pretty(byte));
}

/// Appends one line of a word dump.
pub fn push_hex_line(s: &mut String, word: u32)
    ensures
        final(s)@ == old(s)@ + hex_line(word),
{
    s.push('0');
    s.push('x');
    push_hex(s, word, 8);
    s.push('\n');
    assert(s@ =~= old(s)@ + hex_line(word));
}

fn chunk_word(bytes: &[u8], row: usize) -> (word: u32)
    requires
        4 * row < bytes.len(),
    ensures
        word == row_word(bytes@, row as int),
{
    let start: usize = 4 * row;
    let left: usize = bytes.len() - start;
    let b0: u32 = bytes[start] as u32;
    let b1: u32 = if left > 1 {
        bytes[start + 1] as u32
    } else {
        0
    };
    let b2: u32 = if left > 2 {
        bytes[start + 2] as u32
    } else {
        0
    };
    let b3: u32 = if left > 3 {
        bytes[start + 3] as u32
    } else {
        0
    };
    b0 + 0x100 * b1 + 0x1_0000 * b2 + 0x100_0000 * b3
}

fn rows_of(len: usize, per_row: usize) -> (rows: usize)
    requires
        per_row == 4 || per_row == 16,
    ensures
        rows == row_count(len as nat, per_row as nat),
        rows > 0 ==> per_row * (rows - 1) < len,
        per_row * rows >= len,
{
    let extra: usize = if len % per_row != 0 {
        1
    } else {
        0
    };
    len / per_row + extra
}

fn address_of_line(base: u32, line_start: usize) -> (address: u32)
    requires
        line_start % 16 == 0,
    ensures
        address == line_address(base, line_start as int / 16),
{
    let offset: u64 = line_start as u64 % 0x1_0000_0000;
    ((base as u64 + offset) % 0x1_0000_0000) as u32
}

/// Renders a byte for the character column of a byte dump.
pub fn render_char(byte: u8) -> (s: String)
    ensures
        s@ == rendered(byte),
{
    let mut s = String::new();
    push_rendered(&mut s, byte);
    s
}

/// Renders a byte for the four-column dump.
pub fn render_char_pretty(b: u8) -> (s: String)
    ensures
        s@ == rendered_pretty(b),
{
    let mut s = String::new();
    push_rendered_pretty(&mut s, b);
    s
}

/// Lists machine words, one line each.
pub fn machine_code(words: &Vec<u32>) -> (s: String)
    ensures
        s@ == listing(words@),
{
    let mut s = String::new();
    let mut i: usize = 0;
    while i < words.len()
        invariant
            i <= words.len(),
            s@ == listing(words@.take(i as int)),
        decreases words.len() - i,
    {
        assert(words@.take(i + 1).drop_last() =~= words@.take(i as int));
        push_hex_line(&mut s, words[i]);
        i += 1;
    }
    assert(words@.take(i as int) =~= words@);
    s
}

/// Dumps a segment as words, one line for every four bytes. The address of
/// the segment plays no part in this dump.
pub fn dump_hex_only(bytes: &Vec<u8>, base_address: u32) -> (s: String)
    ensures
        s@ == hex_dump(bytes@),
{
    let rows: usize = rows_of(bytes.len(), 4);
    let mut s = String::new();
    let mut row: usize = 0;
    while row < rows
        invariant
            row <= rows,
            rows == row_count(bytes.len() as nat, 4),
            rows > 0 ==> 4 * (rows - 1) < bytes.len(),
            s@ == hex_rows(bytes@, row as nat),
        decreases rows - row,
    {
        let word: u32 = chunk_word(bytes.as_slice(), row);
        push_hex_line(&mut s, word);
        row += 1;
    }
    s
}

/// Dumps a segment that starts at `base_address` as bytes, sixteen to a
/// line, each line with its address, the bytes in hexadecimal and the bytes
/// as characters. Addresses wrap around at the end of the address space.
pub fn dump_bytes_with_ascii(bytes: &Vec<u8>, base_address: u32) -> (s: String)
    ensures
        s@ == ascii_dump(bytes@, base_address),
{
    let len: usize = bytes.len();
    let rows: usize = rows_of(len, 16);
    let mut s = String::new();
    let mut row: usize = 0;
    while row < rows
        invariant
            row <= rows,
            len == bytes.len(),
            rows == row_count(len as nat, 16),
            rows > 0 ==> 16 * (rows - 1) < len,
            s@ == ascii_rows(bytes@, base_address, row as nat),
        decreases rows - row,
    {
        let line_start: usize = 16 * row;
        let address: u32 = address_of_line(base_address, line_start);
        let ghost line_before = s@;
        s.push('0');
        s.push('x');
        push_hex(&mut s, address, 8);
        s.push(':');
        s.push(' ');
        let mut hex_part = String::new();
        let mut ascii_part = String::new();
        let mut offset: usize = 0;
        while offset < 16
            invariant
                offset <= 16,
                len == bytes.len(),
                line_start == 16 * row,
                line_start < len,
                hex_part@ == hex_cells(bytes@, line_start as int, offset as nat),
                ascii_part@ == ascii_cells(bytes@, line_start as int, offset as nat),
            decreases 16 - offset,
        {
            if offset < len - line_start {
                let b: u8 = bytes[line_start + offset];
                push_hex(&mut hex_part, b as u32, 2);
                hex_part.push(' ');
                push_rendered(&mut ascii_part, b);
            } else {
                push_spaces(&mut hex_part, 3);
                ascii_part.push(' ');
            }
            offset += 1;
        }
        s.append(hex_part.as_str());
        s.push(' ');
        s.append(ascii_part.as_str());
        s.push('\n');
        assert(s@ =~= line_before + ascii_line(bytes@, base_address, row as int));
        row += 1;
    }
    s
}

/// Dumps a segment four bytes to a row, each row in reverse byte order, each
/// byte in a cell of four characters.
pub fn dump_4cols_reversed(bytes: &[u8]) -> (s: String)
    ensures
        s@ == reversed_dump(bytes@),
{
    let len: usize = bytes.len();
    let rows: usize = rows_of(len, 4);
    let mut s = String::new();
    let mut row: usize = 0;
    while row < rows
        invariant
            row <= rows,
            len == bytes.len(),
            rows == row_count(len as nat, 4),
            rows > 0 ==> 4 * (rows - 1) < len,
            s@ == reversed_rows(bytes@, row as nat),
        decreases rows - row,
    {
        let start: usize = 4 * row;
        let in_row: usize = if len - start >= 4 {
            4
        } else {
            len - start
        };
        let ghost row_before = s@;
        let mut shown: usize = 0;
        while shown < in_row
            invariant
                shown <= in_row <= 4,
                len == bytes.len(),
                start == 4 * row,
                start + in_row <= len,
                in_row == row_len(len as nat, row as int),
                s@ == row_before + reversed_cells(bytes@, row as int, shown as nat),
            decreases in_row - shown,
        {
            let b: u8 = bytes[start + in_row - 1 - shown];
            let ghost cell_before = s@;
            push_rendered_pretty(&mut s, b);
            let width: usize = pretty_width(b);
            push_spaces(&mut s, 4 - width);
            assert(s@ =~= cell_before + pretty_cell(b));
            shown += 1;
        }
        push_spaces(&mut s, 4 * (4 - in_row));
        s.push('\n');
        assert(s@ =~= row_before + reversed_row(bytes@, row as int));
        row += 1;
    }
    s
}

fn pretty_width(byte: u8) -> (width: usize)
    ensures
        width == rendered_pretty(byte).len(),
        1 <= width <= 4,
{
    proof {
        reveal_with_fuel(hex_digits, 3);
    }
    if 0x20 <= byte && byte <= 0x7E {
        1
    } else if byte == 0x00 || byte == 0x08 || byte == 0x09 || byte == 0x0A || byte == 0x0C {
        2
    } else {
        4
    }
}

proof fn lemma_hex_rows_are_listing(bytes: Seq<u8>, rows: nat)
    requires
        rows <= bytes.len() / 4,
    ensures
        hex_rows(bytes, rows) == listing(words_of(bytes).take(rows as int)),
    decreases rows,
{
    let words = words_of(bytes);
    if rows > 0 {
        lemma_hex_rows_are_listing(bytes, (rows - 1) as nat);
        assert(words.take(rows as int).drop_last() =~= words.take(rows - 1));
        assert(row_word(bytes, rows - 1) == words[rows - 1]);
    }
}

/// The word dump of a segment of whole words is the listing of those words.
pub proof fn lemma_hex_dump_of_whole_words(bytes: Seq<u8>)
    requires
        bytes.len() % 4 == 0,
    ensures
        hex_dump(bytes) == listing(words_of(bytes)),
{
    lemma_hex_rows_are_listing(bytes, bytes.len() / 4);
    assert(words_of(bytes).take((bytes.len() / 4) as int) =~= words_of(bytes));
}

proof fn lemma_reversed_cells_width(bytes: Seq<u8>, row: int, count: nat)
    ensures
        reversed_cells(bytes, row, count).len() == 4 * count,
    decreases count,
{
    reveal_with_fuel(hex_digits, 3);
    if count > 0 {
        lemma_reversed_cells_width(bytes, row, (count - 1) as nat);
    }
}

/// The four-column dump is a table: every row is sixteen characters and a
/// line feed, whatever bytes it shows and however many the last row lacks.
pub proof fn lemma_reversed_dump_is_a_table(bytes: Seq<u8>, rows: nat)
    requires
        rows <= row_count(bytes.len(), 4),
    ensures
        reversed_rows(bytes, rows).len() == 17 * rows,
        rows > 0 ==> reversed_row(bytes, rows - 1).len() == 17,
    decreases rows,
{
    if rows > 0 {
        lemma_reversed_dump_is_a_table(bytes, (rows - 1) as nat);
        lemma_reversed_cells_width(
            bytes,
            rows - 1,
            row_len(bytes.len(), rows - 1) as nat,
        );
    }
}

} // verus!
