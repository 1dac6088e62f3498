//! What one step of the engine reports, and what the host makes of a
//! system call.

use crate::registers::RegisterFile;
use vstd::prelude::*;

verus! {

/// System call code: print the signed integer in the argument register.
pub const SYSCALL_PRINT_INT: u32 = 1;

/// System call code: print the NUL-terminated string at the address in the
/// argument register.
pub const SYSCALL_PRINT_STRING: u32 = 4;

/// System call code: halt the program.
pub const SYSCALL_EXIT: u32 = 10;

/// Register that holds the system call code.
pub const CODE_REGISTER: usize = 2;

/// Register that holds the system call argument.
pub const ARGUMENT_REGISTER: usize = 4;

/// A read of memory that failed: the address is unmapped or misaligned.
#[derive(Clone, Copy, Debug, PartialEq, Eq, Structural)]
pub struct MemoryFault {
    pub address: u32,
}

/// The outcome of one step of the engine.
#[derive(Debug, PartialEq, Eq)]
pub enum TrapResult {
    /// The instruction was executed; nothing for the host to do.
    Continue,
    /// A system call wants servicing by the host.
    Syscall { code: u32, arg: u32 },
    /// The program asked to halt.
    Halted,
    /// The step failed.
    Faulted { reason: String },
}

/// What the host does for a system call.
#[derive(Clone, Copy, Debug, PartialEq, Eq, Structural)]
pub enum Service {
    /// Print a signed integer.
    PrintInt { value: i32 },
    /// Print the NUL-terminated string at a program address.
    PrintString { address: u32 },
    /// Halt the program.
    Exit,
    /// The code is not known; it is reported and execution goes on.
    Unhandled { code: u32 },
}

/// A register value read as a signed integer in two's complement.
pub open spec fn signed(word: u32) -> int {
    if word < 0x8000_0000 {
        word as int
    } else {
        word - 0x1_0000_0000
    }
}

/// What the host does for the system call with this code and argument.
pub open spec fn service_of(code: u32, arg: u32) -> Service {
    if code == SYSCALL_PRINT_INT {
        Service::PrintInt { value: signed(arg) as i32 }
    } else if code == SYSCALL_PRINT_STRING {
        Service::PrintString { address: arg }
    } else if code == SYSCALL_EXIT {
        Service::Exit
    } else {
        Service::Unhandled { code }
    }
}

/// Whether this outcome ends the run: a halt, a fault, or a system call with
/// the exit code.
pub open spec fn ends_run(trap: TrapResult) -> bool {
    ||| trap is Halted
    ||| trap is Faulted
    ||| trap matches TrapResult::Syscall { code, .. } && code == SYSCALL_EXIT
}

/// What the engine reports for a system call instruction met with these
/// registers: a halt for the exit code, else the code and the argument.
pub open spec fn trap_of(regs: Seq<u32>) -> TrapResult {
    if regs[CODE_REGISTER as int] == SYSCALL_EXIT {
        TrapResult::Halted
    } else {
        TrapResult::Syscall { code: regs[CODE_REGISTER as int], arg: regs[ARGUMENT_REGISTER as int] }
    }
}

/// Reads a register value as a signed integer.
pub fn as_signed(word: u32) -> (value: i32)
    ensures
        value == signed(word),
{
    if word < 0x8000_0000 {
        word as i32
    } else {
        (word as i64 - 0x1_0000_0000) as i32
    }
}

/// Decides what the host does for a system call.
pub fn service(code: u32, arg: u32) -> (what: Service)
    ensures
        what == service_of(code, arg),
{
    if code == SYSCALL_PRINT_INT {
        Service::PrintInt { value: as_signed(arg) }
    } else if code == SYSCALL_PRINT_STRING {
        Service::PrintString { address: arg }
    } else if code == SYSCALL_EXIT {
        Service::Exit
    } else {
        Service::Unhandled { code }
    }
}

impl TrapResult {
    /// The report for a system call instruction, from the registers at the
    /// time of the call.
    pub fn for_syscall(regs: &RegisterFile) -> (trap: TrapResult)
        ensures
            trap == trap_of(regs@),
    {
        let code: u32 = regs.read(CODE_REGISTER);
        if code == SYSCALL_EXIT {
            TrapResult::Halted
        } else {
            TrapResult::Syscall { code, arg: regs.read(ARGUMENT_REGISTER) }
        }
    }

    /// Whether the engine may take another step after this report.
    pub fn may_continue(&self) -> (go_on: bool)
        ensures
            go_on <==> (self is Continue || self is Syscall),
    {
        match self {
            TrapResult::Continue => true,
            TrapResult::Syscall { .. } => true,
            TrapResult::Halted => false,
            TrapResult::Faulted { .. } => false,
        }
    }
}

} // verus!
