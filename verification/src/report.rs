//! What the host hands back: the outcome of assembling, the program image
//! with its dumps, and the answer to one assemble-and-run request.

use crate::registers::RegisterFile;
use crate::render::{
    dump_4cols_reversed, dump_hex_only, hex_dump, listing, machine_code, reversed_dump,
};
use crate::run::{Run, RunStatus, RunView};
use crate::words::{bytes_to_words, pad_to_word, padded, words_of, DATA_BASE, TEXT_BASE};
use vstd::prelude::*;

verus! {

/// Why a source text could not be assembled.
#[derive(Debug)]
pub struct AssemblyError {
    pub message: String,
}

impl AssemblyError {
    /// The message.
    pub fn msg(&self) -> (message: String)
        ensures
            message@ == self.message@,
    {
        self.message.clone()
    }
}

/// The outcome of assembling one source text: the two segments, or the
/// message of the failure. Never both.
pub struct AssemblerResult {
    failed: bool,
    error: String,
    text: Vec<u8>,
    data: Vec<u8>,
}

/// The contents of an [`AssemblerResult`].
pub struct AssemblerResultView {
    pub failed: bool,
    pub error: Seq<char>,
    pub text: Seq<u8>,
    pub data: Seq<u8>,
}

/// The result that stands for an outcome of the assembler: the segments
/// of a success, or the message of a failure with both segments empty.
pub open spec fn result_of(outcome: Result<(Vec<u8>, Vec<u8>), AssemblyError>)
    -> AssemblerResultView {
    match outcome {
        Ok(segments) => AssemblerResultView {
            failed: false,
            error: Seq::empty(),
            text: segments.0@,
            data: segments.1@,
        },
        Err(error) => AssemblerResultView {
            failed: true,
            error: error.message@,
            text: Seq::empty(),
            data: Seq::empty(),
        },
    }
}

impl View for AssemblerResult {
    type V = AssemblerResultView;

    closed spec fn view(&self) -> AssemblerResultView {
        AssemblerResultView {
            failed: self.failed,
            error: self.error@,
            text: self.text@,
            data: self.data@,
        }
    }
}

impl AssemblerResult {
    /// Wraps an outcome of the assembler.
    pub fn new(outcome: Result<(Vec<u8>, Vec<u8>), AssemblyError>) -> (result: AssemblerResult)
        ensures
            result@ == result_of(outcome),
    {
        match outcome {
            Ok((text, data)) => AssemblerResult { failed: false, error: String::new(), text, data },
            Err(error) => AssemblerResult {
                failed: true,
                error: error.message,
                text: Vec::new(),
                data: Vec::new(),
            },
        }
    }

    /// Whether assembling failed.
    pub fn failed(&self) -> (failed: bool)
        ensures
            failed == self@.failed,
    {
        self.failed
    }

    /// The message of the failure; empty after a success.
    pub fn error(&self) -> (error: String)
        ensures
            error@ == self@.error,
    {
        self.error.clone()
    }

    /// The text segment; empty after a failure.
    pub fn text(&self) -> (text: Vec<u8>)
        ensures
            text@ == self@.text,
    {
        self.text.clone()
    }

    /// The data segment; empty after a failure.
    pub fn data(&self) -> (data: Vec<u8>)
        ensures
            data@ == self@.data,
    {
        self.data.clone()
    }
}

/// An assembled program, ready to load, with its dumps.
pub struct Program {
    /// The words of the text segment.
    pub text_words: Vec<u32>,
    /// The words of the data segment, padded to whole words.
    pub data_words: Vec<u32>,
    /// The listing of the text words.
    pub machine_code: String,
    pub text_dump: String,
    pub text_dump_friendly: String,
    pub data_dump: String,
    pub data_dump_friendly: String,
}

/// Whether `program` is the image of these two segments.
pub open spec fn is_image_of(program: Program, text: Seq<u8>, data: Seq<u8>) -> bool {
    &&& program.text_words@ == words_of(text)
    &&& program.data_words@ == words_of(padded(data))
    &&& program.machine_code@ == listing(words_of(text))
    &&& program.text_dump@ == hex_dump(text)
    &&& program.text_dump_friendly@ == reversed_dump(text)
    &&& program.data_dump@ == hex_dump(padded(data))
    &&& program.data_dump_friendly@ == reversed_dump(padded(data))
}

/// Prepares an assembled program for loading: packs the text segment into
/// words, pads the data segment with zeros to whole words and packs it,
/// and renders the listing and the dumps of both.
pub fn prepare(text_bytes: Vec<u8>, data_bytes: Vec<u8>) -> (program: Program)
    ensures
        is_image_of(program, text_bytes@, data_bytes@),
        4 * program.data_words@.len() == padded(data_bytes@).len(),
{
    let text_dump: String = dump_hex_only(&text_bytes, TEXT_BASE);
    let text_dump_friendly: String = dump_4cols_reversed(text_bytes.as_slice());
    let data_padded: Vec<u8> = pad_to_word(data_bytes);
    let data_dump: String = dump_hex_only(&data_padded, DATA_BASE);
    let data_dump_friendly: String = dump_4cols_reversed(data_padded.as_slice());
    let text_words: Vec<u32> = bytes_to_words(text_bytes);
    let listed: String = machine_code(&text_words);
    let data_words: Vec<u32> = bytes_to_words(data_padded);
    Program {
        text_words,
        data_words,
        machine_code: listed,
        text_dump,
        text_dump_friendly,
        data_dump,
        data_dump_friendly,
    }
}

/// The answer to one request to assemble and run a source text.
pub struct AssembleResponse {
    pub machine_code: String,
    pub errors: Option<String>,
    pub execution_status: String,
    pub syscall_output: Option<String>,
    pub register_dump: Option<[u32; 32]>,
    pub text_dump: Option<String>,
    pub data_dump: Option<String>,
    pub text_dump_friendly: Option<String>,
    pub data_dump_friendly: Option<String>,
}

/// The view of a text that may be missing.
pub open spec fn text_of(text: Option<String>) -> Option<Seq<char>> {
    match text {
        Some(text) => Some(text@),
        None => None,
    }
}

/// Whether `response` reports a failure with this listing and this message:
/// the status is `Failed` and nothing else is given.
pub open spec fn is_failure(response: AssembleResponse, listed: Seq<char>, errors: Seq<char>)
    -> bool {
    &&& response.machine_code@ == listed
    &&& text_of(response.errors) == Some(errors)
    &&& response.execution_status@ == "Failed"@
    &&& response.syscall_output is None
    &&& response.register_dump is None
    &&& response.text_dump is None
    &&& response.data_dump is None
    &&& response.text_dump_friendly is None
    &&& response.data_dump_friendly is None
}

/// Whether `response` reports a run of `program` that came to no harm, with
/// this output and these registers: the status is `Completed`, no error is
/// given, and the dumps are those of the program.
pub open spec fn is_completion(
    response: AssembleResponse,
    program: Program,
    output: Seq<char>,
    registers: Seq<u32>,
) -> bool {
    &&& response.machine_code@ == program.machine_code@
    &&& response.errors is None
    &&& response.execution_status@ == "Completed"@
    &&& text_of(response.syscall_output) == Some(output)
    &&& response.register_dump is Some
    &&& response.register_dump->0@ == registers
    &&& text_of(response.text_dump) == Some(program.text_dump@)
    &&& text_of(response.data_dump) == Some(program.data_dump@)
    &&& text_of(response.text_dump_friendly) == Some(program.text_dump_friendly@)
    &&& text_of(response.data_dump_friendly) == Some(program.data_dump_friendly@)
}

/// Whether `response` is the answer for a run of `program` that ended in
/// state `run` with these registers: a failure with the reason of the
/// fault if the run faulted, a completion with its output if it did not.
pub open spec fn is_answer(
    response: AssembleResponse,
    program: Program,
    run: RunView,
    registers: Seq<u32>,
) -> bool {
    if run.status is Faulted {
        is_failure(response, program.machine_code@, "Execution error: "@ + run.fault)
    } else {
        is_completion(response, program, run.output, registers)
    }
}

impl AssembleResponse {
    fn failure(listed: String, errors: String) -> (response: AssembleResponse)
        ensures
            is_failure(response, listed@, errors@),
    {
        AssembleResponse {
            machine_code: listed,
            errors: Some(errors),
            execution_status: String::from_str("Failed"),
            syscall_output: None,
            register_dump: None,
            text_dump: None,
            data_dump: None,
            text_dump_friendly: None,
            data_dump_friendly: None,
        }
    }

    /// The answer when the source text could not be assembled.
    pub fn assembly_failed(error: &AssemblyError) -> (response: AssembleResponse)
        ensures
            is_failure(response, Seq::empty(), "Error assembling code: "@ + error.message@),
    {
        let mut errors: String = String::from_str("Error assembling code: ");
        errors.append(error.message.as_str());
        AssembleResponse::failure(String::new(), errors)
    }

    /// The answer after a run of `program`: a failure if the run faulted,
    /// a completion if it halted or used up its budget.
    pub fn after_run(program: Program, run: &Run, registers: &RegisterFile) -> (response:
        AssembleResponse)
        ensures
            is_answer(response, program, run@, registers@),
    {
        match run.status() {
            RunStatus::Faulted => {
                let mut errors: String = String::from_str("Execution error: ");
                errors.append(run.fault().as_str());
                AssembleResponse::failure(program.machine_code, errors)
            },
            _ => AssembleResponse {
                machine_code: program.machine_code,
                errors: None,
                execution_status: String::from_str("Completed"),
                syscall_output: Some(run.output()),
                register_dump: Some(registers.dump()),
                text_dump: Some(program.text_dump),
                data_dump: Some(program.data_dump),
                text_dump_friendly: Some(program.text_dump_friendly),
                data_dump_friendly: Some(program.data_dump_friendly),
            },
        }
    }
}

} // verus!
