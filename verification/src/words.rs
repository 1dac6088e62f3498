//! Bytes and words: little-endian packing, zero padding of a segment, and
//! the one translation between program addresses and storage addresses.

use vstd::prelude::*;

verus! {

/// Address at which the text segment conventionally starts.
pub const TEXT_BASE: u32 = 0x0040_0000;

/// Address at which the data segment conventionally starts.
pub const DATA_BASE: u32 = 0x1001_0000;

/// Address at which the engine's storage keeps the first data word.
pub const DATA_STORAGE_BASE: u32 = 0x0400_4000;

/// The word made of four bytes, least significant byte first.
pub open spec fn word_of(b0: u8, b1: u8, b2: u8, b3: u8) -> u32 {
    (b0 as int + 0x100 * (b1 as int) + 0x1_0000 * (b2 as int) + 0x100_0000 * (b3 as int)) as u32
}

/// The byte in lane `lane` of a word; lane 0 is the least significant one.
pub open spec fn byte_of(word: u32, lane: nat) -> u8
    recommends
        lane < 4,
{
    if lane == 0 {
        (word % 0x100) as u8
    } else if lane == 1 {
        ((word / 0x100) % 0x100) as u8
    } else if lane == 2 {
        ((word / 0x1_0000) % 0x100) as u8
    } else {
        (word / 0x100_0000) as u8
    }
}

/// The whole words of a byte sequence: word `i` packs bytes `4i .. 4i + 3`.
/// Up to three bytes that do not fill a word are left out.
pub open spec fn words_of(bytes: Seq<u8>) -> Seq<u32> {
    Seq::new(
        (bytes.len() / 4) as nat,
        |i: int| word_of(bytes[4 * i], bytes[4 * i + 1], bytes[4 * i + 2], bytes[4 * i + 3]),
    )
}

/// How many zero bytes bring a segment of `len` bytes to a whole number of words.
pub open spec fn padding_len(len: nat) -> nat {
    ((4 - len % 4) % 4) as nat
}

/// A segment followed by the zero bytes that complete its last word.
pub open spec fn padded(bytes: Seq<u8>) -> Seq<u8> {
    bytes + Seq::new(padding_len(bytes.len()), |i: int| 0u8)
}

/// The storage address that holds a program address of the data segment.
/// Addresses below the data segment have none.
pub open spec fn storage_address(address: u32) -> Option<u32> {
    if address >= DATA_BASE {
        Some((address - DATA_BASE + DATA_STORAGE_BASE) as u32)
    } else {
        None
    }
}

/// The program address that a storage address of the data segment stands for.
pub open spec fn program_address(storage: u32) -> Option<u32> {
    if storage >= DATA_STORAGE_BASE && storage - DATA_STORAGE_BASE + DATA_BASE <= u32::MAX {
        Some((storage - DATA_STORAGE_BASE + DATA_BASE) as u32)
    } else {
        None
    }
}

/// Packs bytes into words, least significant byte first.
pub fn bytes_to_words(bytes: Vec<u8>) -> (words: Vec<u32>)
    ensures
        words@ == words_of(bytes@),
{
    let count: usize = bytes.len() / 4;
    let mut words: Vec<u32> = Vec::new();
    let mut i: usize = 0;
    while i < count
        invariant
            count == bytes.len() / 4,
            i <= count,
            words.len() == i,
            forall|j: int| 0 <= j < i ==> words[j] == #[trigger] words_of(bytes@)[j],
        decreases count - i,
    {
        let b0: u32 = bytes[4 * i] as u32;
        let b1: u32 = bytes[4 * i + 1] as u32;
        let b2: u32 = bytes[4 * i + 2] as u32;
        let b3: u32 = bytes[4 * i + 3] as u32;
        words.push(b0 + 0x100 * b1 + 0x1_0000 * b2 + 0x100_0000 * b3);
        i += 1;
    }
    assert(words@ =~= words_of(bytes@));
    words
}

/// Takes one byte out of a word.
pub fn word_byte(word: u32, lane: u8) -> (byte: u8)
    requires
        lane < 4,
    ensures
        byte == byte_of(word, lane as nat),
{
    if lane == 0 {
        (word % 0x100) as u8
    } else if lane == 1 {
        ((word / 0x100) % 0x100) as u8
    } else if lane == 2 {
        ((word / 0x1_0000) % 0x100) as u8
    } else {
        (word / 0x100_0000) as u8
    }
}

/// Completes the last word of a segment with zero bytes.
pub fn pad_to_word(bytes: Vec<u8>) -> (out: Vec<u8>)
    ensures
        out@ == padded(bytes@),
{
    let mut out: Vec<u8> = bytes;
    let ghost before: Seq<u8> = out@;
    while out.len() % 4 != 0
        invariant
            before.len() <= out.len() <= before.len() + padding_len(before.len()),
            out@ == before + Seq::new((out.len() - before.len()) as nat, |i: int| 0u8),
            (out.len() - before.len()) + padding_len(out.len() as nat) == padding_len(before.len()),
        decreases padding_len(out.len() as nat),
    {
        out.push(0u8);
    }
    out
}

/// Translates a program address of the data segment to the storage address
/// that holds it.
pub fn to_storage(address: u32) -> (storage: Option<u32>)
    ensures
        storage == storage_address(address),
{
    if address >= DATA_BASE {
        Some(address - DATA_BASE + DATA_STORAGE_BASE)
    } else {
        None
    }
}

/// Translates a storage address of the data segment back to the program
/// address that it stands for.
pub fn from_storage(storage: u32) -> (address: Option<u32>)
    ensures
        address == program_address(storage),
{
    if storage >= DATA_STORAGE_BASE && storage - DATA_STORAGE_BASE <= u32::MAX - DATA_BASE {
        Some(storage - DATA_STORAGE_BASE + DATA_BASE)
    } else {
        None
    }
}

/// Packing four bytes into a word loses nothing: each lane gives its byte back.
pub proof fn lemma_word_lanes(b0: u8, b1: u8, b2: u8, b3: u8)
    ensures
        byte_of(word_of(b0, b1, b2, b3), 0) == b0,
        byte_of(word_of(b0, b1, b2, b3), 1) == b1,
        byte_of(word_of(b0, b1, b2, b3), 2) == b2,
        byte_of(word_of(b0, b1, b2, b3), 3) == b3,
{
}

/// Every byte that falls into a whole word is found again in that word:
/// byte `k` sits in lane `k % 4` of word `k / 4`.
pub proof fn lemma_words_keep_bytes(bytes: Seq<u8>, k: int)
    requires
        0 <= k < 4 * (bytes.len() / 4),
    ensures
        byte_of(words_of(bytes)[k / 4], (k % 4) as nat) == bytes[k],
{
    let i = k / 4;
    lemma_word_lanes(bytes[4 * i], bytes[4 * i + 1], bytes[4 * i + 2], bytes[4 * i + 3]);
}

/// A padded segment is a whole number of words, fewer than four bytes longer
/// than the segment, starts with the segment and ends in zeros; packed into
/// words it is loaded whole.
pub proof fn lemma_padded_is_whole_words(bytes: Seq<u8>)
    ensures
        padded(bytes).len() % 4 == 0,
        bytes.len() <= padded(bytes).len() < bytes.len() + 4,
        padded(bytes).subrange(0, bytes.len() as int) == bytes,
        forall|k: int| bytes.len() <= k < padded(bytes).len() ==> padded(bytes)[k] == 0,
        4 * words_of(padded(bytes)).len() == padded(bytes).len(),
        bytes.len() % 4 == 0 ==> padded(bytes) == bytes,
{
    assert(padded(bytes).subrange(0, bytes.len() as int) =~= bytes);
    if bytes.len() % 4 == 0 {
        assert(padded(bytes) =~= bytes);
    }
}

/// The two directions of the address translation undo each other.
pub proof fn lemma_translation_round_trip(address: u32)
    ensures
        address >= DATA_BASE ==> storage_address(address) is Some && program_address(
            storage_address(address)->0,
        ) == Some(address),
        address < DATA_BASE ==> storage_address(address) is None,
        address % 4 == 0 && address >= DATA_BASE ==> storage_address(address)->0 % 4 == 0,
{
}

} // verus!
