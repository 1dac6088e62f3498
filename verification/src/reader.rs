//! Reading a NUL-terminated string out of the engine's memory.
//!
//! The reader never touches memory itself. It says which storage word it
//! wants next; whoever owns the memory reads that word and feeds the result
//! back. The string ends at the first zero byte, at the first read that
//! faults, or at the end of the address space.

use crate::trap::MemoryFault;
use crate::words::{
    byte_of, lemma_words_keep_bytes, padded, storage_address, to_storage, word_byte, words_of,
    DATA_BASE, DATA_STORAGE_BASE,
};
use vstd::prelude::*;

verus! {

/// The state of a string read: the program address of the next byte, if
/// the read still goes on, and the characters read so far.
pub struct Reading {
    pub next: Option<u32>,
    pub text: Seq<char>,
}

impl Reading {
    /// A read that starts at program address `address`.
    pub open spec fn start(address: u32) -> Reading {
        Reading { next: Some(address), text: Seq::empty() }
    }

    /// The storage address of the word that holds the next byte. There is
    /// none once the read is over, nor for an address below the data segment.
    pub open spec fn awaited(self) -> Option<u32> {
        match self.next {
            Some(address) => storage_address((address - address % 4) as u32),
            None => None,
        }
    }

    /// Whether the read is over.
    pub open spec fn finished(self) -> bool {
        self.awaited() is None
    }

    /// The state after the awaited word was read with this result. A fault
    /// or a zero byte ends the read; any other byte is appended as one
    /// character and the read moves on by one address.
    pub open spec fn fed(self, result: Result<u32, MemoryFault>) -> Reading {
        if self.awaited() is None {
            self
        } else {
            let address = self.next->0;
            match result {
                Err(_) => Reading { next: None, text: self.text },
                Ok(word) => {
                    let byte = byte_of(word, (address % 4) as nat);
                    if byte == 0 {
                        Reading { next: None, text: self.text }
                    } else {
                        Reading {
                            next: if address < u32::MAX {
                                Some((address + 1) as u32)
                            } else {
                                None
                            },
                            text: self.text.push(byte as char),
                        }
                    }
                },
            }
        }
    }
}

/// What a read of storage address `storage` gives in a memory that maps
/// exactly the addresses in the domain of `memory`.
pub open spec fn answer(memory: Map<u32, u32>, storage: u32) -> Result<u32, MemoryFault> {
    if memory.dom().contains(storage) {
        Ok(memory[storage])
    } else {
        Err(MemoryFault { address: storage })
    }
}

/// The byte at a program address, if the word that holds it is mapped.
pub open spec fn byte_at(memory: Map<u32, u32>, address: u32) -> Option<u8> {
    match storage_address((address - address % 4) as u32) {
        Some(storage) => if memory.dom().contains(storage) {
            Some(byte_of(memory[storage], (address % 4) as nat))
        } else {
            None
        },
        None => None,
    }
}

/// The state after up to `reads` reads, each answered from `memory`.
pub open spec fn read_through(reading: Reading, memory: Map<u32, u32>, reads: nat) -> Reading
    decreases reads,
{
    if reads == 0 || reading.awaited() is None {
        reading
    } else {
        read_through(
            reading.fed(answer(memory, reading.awaited()->0)),
            memory,
            (reads - 1) as nat,
        )
    }
}

/// `text` is the string at `address`: its characters are the bytes from
/// `address` on, none of them zero, and what follows them is a zero byte,
/// a byte that cannot be read, or the end of the address space.
pub open spec fn is_string_at(memory: Map<u32, u32>, address: u32, text: Seq<char>) -> bool {
    &&& address + text.len() <= 0x1_0000_0000
    &&& forall|k: int|
        0 <= k < text.len() ==> {
            let byte = #[trigger] byte_at(memory, (address + k) as u32);
            byte is Some && byte->0 != 0 && text[k] == byte->0 as char
        }
    &&& {
        ||| address + text.len() == 0x1_0000_0000
        ||| byte_at(memory, (address + text.len()) as u32) is None
        ||| byte_at(memory, (address + text.len()) as u32) == Some(0u8)
    }
}

/// Reads a NUL-terminated string, one byte for each word that it is fed.
pub struct StringReader {
    next: Option<u32>,
    text: String,
}

impl View for StringReader {
    type V = Reading;

    closed spec fn view(&self) -> Reading {
        Reading { next: self.next, text: self.text@ }
    }
}

impl StringReader {
    /// Starts a read at a program address.
    pub fn new(address: u32) -> (reader: StringReader)
        ensures
            reader@ == Reading::start(address),
    {
        StringReader { next: Some(address), text: String::new() }
    }

    /// The storage address of the word to read and feed next, or `None`
    /// when the read is over.
    pub fn pending(&self) -> (storage: Option<u32>)
        ensures
            storage == self@.awaited(),
    {
        match self.next {
            Some(address) => to_storage(address - address % 4),
            None => None,
        }
    }

    /// Whether the read is over.
    pub fn finished(&self) -> (done: bool)
        ensures
            done == self@.finished(),
    {
        self.pending().is_none()
    }

    /// Takes the result of reading the pending word. Once the read is over
    /// this changes nothing.
    pub fn feed(&mut self, result: Result<u32, MemoryFault>)
        ensures
            final(self)@ == old(self)@.fed(result),
    {
        if self.pending().is_none() {
            return ;
        }
        let address: u32 = match self.next {
            Some(address) => address,
            None => { return ; },
        };
        match result {
            Err(_) => {
                self.next = None;
            },
            Ok(word) => {
                let byte: u8 = word_byte(word, (address % 4) as u8);
                if byte == 0 {
                    self.next = None;
                } else {
                    self.text.push(byte as char);
                    self.next = if address < u32::MAX {
                        Some(address + 1)
                    } else {
                        None
                    };
                }
            },
        }
    }

    /// The characters read so far.
    pub fn text(&self) -> (text: String)
        ensures
            text@ == self@.text,
    {
        self.text.clone()
    }

    /// Ends the read and hands out the characters read so far.
    pub fn into_text(self) -> (text: String)
        ensures
            text@ == self@.text,
    {
        self.text
    }
}

proof fn lemma_read_rest(memory: Map<u32, u32>, address: u32, text: Seq<char>, j: int)
    requires
        is_string_at(memory, address, text),
        0 <= j <= text.len(),
        address + j < 0x1_0000_0000,
    ensures
        ({
            let from = Reading { next: Some((address + j) as u32), text: text.take(j) };
            let end = read_through(from, memory, (text.len() - j + 1) as nat);
            end.finished() && end.text == text
        }),
    decreases text.len() - j,
{
    reveal_with_fuel(read_through, 2);
    let here = (address + j) as u32;
    let from = Reading { next: Some(here), text: text.take(j) };
    if j == text.len() {
        assert(text.take(j) =~= text);
    } else {
        let byte = byte_at(memory, here);
        assert(byte is Some && byte->0 != 0 && text[j] == byte->0 as char);
        assert(text.take(j).push(text[j]) =~= text.take(j + 1));
        if here < u32::MAX {
            lemma_read_rest(memory, address, text, j + 1);
        } else {
            assert(text.take(j + 1) =~= text);
        }
    }
}

/// A read that is answered from one unchanging memory gives exactly the
/// string at its start address: no terminator, no byte after it, and it is
/// over after one read for each character and one more.
pub proof fn lemma_reads_exactly_the_string(memory: Map<u32, u32>, address: u32, text: Seq<char>)
    requires
        is_string_at(memory, address, text),
    ensures
        read_through(Reading::start(address), memory, text.len() + 1).finished(),
        read_through(Reading::start(address), memory, text.len() + 1).text == text,
{
    assert(text.take(0) =~= Seq::<char>::empty());
    lemma_read_rest(memory, address, text, 0);
}

/// Whether `memory` holds the data segment `data` as it is loaded: padded
/// with zeros to whole words, packed least significant byte first, word
/// after word from the storage address of the data base on.
pub open spec fn holds_data(memory: Map<u32, u32>, data: Seq<u8>) -> bool {
    forall|i: int|
        0 <= i < words_of(padded(data)).len() ==> {
            &&& memory.dom().contains((DATA_STORAGE_BASE + 4 * i) as u32)
            &&& memory[(DATA_STORAGE_BASE + 4 * i) as u32] == #[trigger] words_of(padded(data))[i]
        }
}

/// Every byte of a loaded data segment is found at its program address:
/// byte `k` at the data base plus `k`.
pub proof fn lemma_data_reads_back(memory: Map<u32, u32>, data: Seq<u8>, k: int)
    requires
        holds_data(memory, data),
        DATA_BASE + padded(data).len() <= 0x1_0000_0000,
        0 <= k < padded(data).len(),
    ensures
        byte_at(memory, (DATA_BASE + k) as u32) == Some(padded(data)[k]),
{
    let i = k / 4;
    assert(words_of(padded(data))[i] == memory[(DATA_STORAGE_BASE + 4 * i) as u32]);
    lemma_words_keep_bytes(padded(data), k);
}

/// A NUL-terminated string in a loaded data segment is read back exactly:
/// if `len` bytes from offset `at` on are not zero and the byte after them
/// is, a read that starts at the data base plus `at` gives those `len`
/// bytes as characters, without the terminator and without anything after it.
pub proof fn lemma_stored_string_is_read(memory: Map<u32, u32>, data: Seq<u8>, at: int, len: int)
    requires
        holds_data(memory, data),
        DATA_BASE + padded(data).len() <= 0x1_0000_0000,
        0 <= at,
        0 <= len,
        at + len < padded(data).len(),
        forall|j: int| at <= j < at + len ==> padded(data)[j] != 0,
        padded(data)[at + len] == 0,
    ensures
        read_through(
            Reading::start((DATA_BASE + at) as u32),
            memory,
            (len + 1) as nat,
        ).finished(),
        read_through(Reading::start((DATA_BASE + at) as u32), memory, (len + 1) as nat).text
            == Seq::new(len as nat, |j: int| padded(data)[at + j] as char),
{
    let address = (DATA_BASE + at) as u32;
    let text = Seq::new(len as nat, |j: int| padded(data)[at + j] as char);
    assert forall|k: int| 0 <= k < text.len() implies {
        let byte = #[trigger] byte_at(memory, (address + k) as u32);
        byte is Some && byte->0 != 0 && text[k] == byte->0 as char
    } by {
        lemma_data_reads_back(memory, data, at + k);
    }
    lemma_data_reads_back(memory, data, at + len);
    lemma_reads_exactly_the_string(memory, address, text);
}

} // verus!
