use mimic_host::registers::RegisterFile;
use mimic_host::run::{Action, Run, RunStatus};
use mimic_host::trap::{MemoryFault, TrapResult};
use mimic_host::words::{bytes_to_words, pad_to_word};

#[test]
fn a_fresh_run_wants_a_tick() {
    let run = Run::new(100);
    assert_eq!(run.action(), Action::Tick);
    assert_eq!(run.status(), RunStatus::Running);
    assert_eq!(run.ticks(), 0);
    assert_eq!(run.budget(), 100);
    assert_eq!(run.output(), "");
    assert_eq!(run.fault(), "");
}

#[test]
fn integer_print_then_exit() {
    let mut run = Run::new(100);
    assert_eq!(run.on_tick(TrapResult::Continue), Action::Tick);
    assert_eq!(run.on_tick(TrapResult::Continue), Action::Tick);
    assert_eq!(run.on_tick(TrapResult::Syscall { code: 1, arg: 42 }), Action::Tick);
    assert_eq!(run.output(), "42\n");
    assert_eq!(run.status(), RunStatus::Running);
    assert_eq!(run.on_tick(TrapResult::Continue), Action::Tick);
    assert_eq!(run.on_tick(TrapResult::Halted), Action::Stop);
    assert_eq!(run.status(), RunStatus::Halted);
    assert_eq!(run.output(), "42\nExit syscall encountered\n");
    assert_eq!(run.ticks(), 5);
}

#[test]
fn integer_print_then_exit_from_the_registers() {
    let mut regs = RegisterFile::new();
    let mut run = Run::new(100);
    regs.write(2, 1);
    assert_eq!(run.on_tick(TrapResult::Continue), Action::Tick);
    regs.write(4, 42);
    assert_eq!(run.on_tick(TrapResult::Continue), Action::Tick);
    let first = TrapResult::for_syscall(&regs);
    assert_eq!(first, TrapResult::Syscall { code: 1, arg: 42 });
    assert_eq!(run.on_tick(first), Action::Tick);
    regs.write(2, 10);
    assert_eq!(run.on_tick(TrapResult::Continue), Action::Tick);
    let second = TrapResult::for_syscall(&regs);
    assert_eq!(second, TrapResult::Halted);
    assert_eq!(run.on_tick(second), Action::Stop);
    assert_eq!(run.action(), Action::Stop);
    assert_eq!(run.status(), RunStatus::Halted);
    assert_eq!(run.ticks(), 5);
    assert_eq!(run.on_tick(TrapResult::Continue), Action::Stop);
    assert_eq!(run.ticks(), 5);
    assert_eq!(run.output(), "42\nExit syscall encountered\n");
}

#[test]
fn no_tick_is_taken_after_a_halt() {
    let mut run = Run::new(100);
    run.on_tick(TrapResult::Halted);
    assert_eq!(run.ticks(), 1);
    for _ in 0..5 {
        assert_eq!(run.on_tick(TrapResult::Syscall { code: 1, arg: 7 }), Action::Stop);
        assert_eq!(run.on_read(Ok(0x41)), Action::Stop);
    }
    assert_eq!(run.ticks(), 1);
    assert_eq!(run.status(), RunStatus::Halted);
    assert_eq!(run.output(), "Exit syscall encountered\n");
}

#[test]
fn an_exit_call_halts_like_a_halt() {
    let mut run = Run::new(100);
    assert_eq!(run.on_tick(TrapResult::Syscall { code: 10, arg: 0 }), Action::Stop);
    assert_eq!(run.status(), RunStatus::Halted);
    assert_eq!(run.output(), "Exit syscall encountered\n");
}

#[test]
fn a_run_takes_no_more_steps_than_its_budget() {
    let mut run = Run::new(3);
    assert_eq!(run.on_tick(TrapResult::Continue), Action::Tick);
    assert_eq!(run.on_tick(TrapResult::Syscall { code: 1, arg: 5 }), Action::Tick);
    assert_eq!(run.on_tick(TrapResult::Continue), Action::Stop);
    assert_eq!(run.ticks(), 3);
    assert_eq!(run.on_tick(TrapResult::Syscall { code: 1, arg: 6 }), Action::Stop);
    assert_eq!(run.on_tick(TrapResult::Faulted { reason: String::from("late") }), Action::Stop);
    assert_eq!(run.ticks(), 3);
    assert_eq!(run.status(), RunStatus::Running);
    assert_eq!(run.output(), "5\n");
    assert_eq!(run.fault(), "");
}

#[test]
fn a_run_without_budget_takes_no_step() {
    let mut run = Run::new(0);
    assert_eq!(run.action(), Action::Stop);
    assert_eq!(run.on_tick(TrapResult::Halted), Action::Stop);
    assert_eq!(run.ticks(), 0);
    assert_eq!(run.status(), RunStatus::Running);
    assert_eq!(run.output(), "");
}

#[test]
fn a_driven_run_stops_within_its_budget() {
    for budget in [0u32, 1, 2, 100] {
        let mut run = Run::new(budget);
        let mut steps = 0u32;
        let mut action = run.action();
        while action == Action::Tick {
            steps += 1;
            action = run.on_tick(TrapResult::Continue);
        }
        assert_eq!(action, Action::Stop);
        assert_eq!(steps, budget);
        assert_eq!(run.ticks(), budget);
        assert_eq!(run.status(), RunStatus::Running);
    }
}

#[test]
fn negative_integers_are_printed_with_a_sign() {
    let mut run = Run::new(10);
    run.on_tick(TrapResult::Syscall { code: 1, arg: 0xFFFF_FFFF });
    run.on_tick(TrapResult::Syscall { code: 1, arg: 0x8000_0000 });
    run.on_tick(TrapResult::Syscall { code: 1, arg: 0 });
    assert_eq!(run.output(), "-1\n-2147483648\n0\n");
}

#[test]
fn an_unknown_call_is_reported_and_the_run_goes_on() {
    let mut run = Run::new(10);
    assert_eq!(run.on_tick(TrapResult::Syscall { code: 99, arg: 1 }), Action::Tick);
    assert_eq!(run.status(), RunStatus::Running);
    assert_eq!(run.output(), "Unhandled syscall: 99\n");
    assert_eq!(run.on_tick(TrapResult::Syscall { code: 0, arg: 1 }), Action::Tick);
    assert_eq!(run.output(), "Unhandled syscall: 99\nUnhandled syscall: 0\n");
}

#[test]
fn a_fault_ends_the_run_and_keeps_the_output() {
    let mut run = Run::new(10);
    run.on_tick(TrapResult::Syscall { code: 1, arg: 42 });
    let next = run.on_tick(TrapResult::Faulted { reason: String::from("fetch outside text") });
    assert_eq!(next, Action::Stop);
    assert_eq!(run.status(), RunStatus::Faulted);
    assert_eq!(run.fault(), "fetch outside text");
    assert_eq!(run.output(), "42\n");
    assert_eq!(run.ticks(), 2);
    assert_eq!(run.on_tick(TrapResult::Continue), Action::Stop);
    assert_eq!(run.status(), RunStatus::Faulted);
    assert_eq!(run.ticks(), 2);
}

#[test]
fn string_print_resolves_the_string() {
    let words = bytes_to_words(pad_to_word(b"hi\0".to_vec()));
    assert_eq!(words, vec![0x0000_6968]);
    let mut run = Run::new(100);
    run.on_tick(TrapResult::Continue);
    run.on_tick(TrapResult::Continue);
    let mut action = run.on_tick(TrapResult::Syscall { code: 4, arg: 0x1001_0000 });
    let mut reads = 0;
    while let Action::Read { address } = action {
        assert_eq!(address, 0x0400_4000);
        action = run.on_read(Ok(words[0]));
        reads += 1;
    }
    assert_eq!(reads, 3);
    assert_eq!(action, Action::Tick);
    assert_eq!(run.output(), "hi\n");
    assert_eq!(run.ticks(), 3);
    assert_eq!(run.status(), RunStatus::Running);
}

#[test]
fn reads_do_not_count_against_the_budget() {
    let mut run = Run::new(1);
    let mut action = run.on_tick(TrapResult::Syscall { code: 4, arg: 0x1001_0000 });
    assert_eq!(action, Action::Read { address: 0x0400_4000 });
    assert_eq!(run.on_tick(TrapResult::Continue), Action::Read { address: 0x0400_4000 });
    assert_eq!(run.ticks(), 1);
    action = run.on_read(Ok(0x0000_6F6E));
    assert_eq!(action, Action::Read { address: 0x0400_4000 });
    action = run.on_read(Ok(0x0000_6F6E));
    assert_eq!(action, Action::Read { address: 0x0400_4000 });
    action = run.on_read(Ok(0x0000_6F6E));
    assert_eq!(action, Action::Stop);
    assert_eq!(run.output(), "no\n");
    assert_eq!(run.ticks(), 1);
    assert_eq!(run.status(), RunStatus::Running);
}

#[test]
fn a_string_read_that_faults_prints_what_was_read() {
    let mut run = Run::new(10);
    let mut action = run.on_tick(TrapResult::Syscall { code: 4, arg: 0x1001_0002 });
    assert_eq!(action, Action::Read { address: 0x0400_4000 });
    action = run.on_read(Ok(0x6261_0000));
    action = match action {
        Action::Read { address } => {
            assert_eq!(address, 0x0400_4000);
            run.on_read(Ok(0x6261_0000))
        }
        other => other,
    };
    assert_eq!(action, Action::Read { address: 0x0400_4004 });
    action = run.on_read(Err(MemoryFault { address: 0x0400_4004 }));
    assert_eq!(action, Action::Tick);
    assert_eq!(run.output(), "ab\n");
    assert_eq!(run.status(), RunStatus::Running);
}

#[test]
fn a_string_below_the_data_segment_prints_an_empty_line() {
    let mut run = Run::new(10);
    assert_eq!(run.on_tick(TrapResult::Syscall { code: 4, arg: 0x0040_0000 }), Action::Tick);
    assert_eq!(run.output(), "\n");
}

#[test]
fn a_read_that_was_not_asked_for_is_ignored() {
    let mut run = Run::new(10);
    assert_eq!(run.on_read(Ok(0x4141_4141)), Action::Tick);
    assert_eq!(run.on_read(Err(MemoryFault { address: 0 })), Action::Tick);
    assert_eq!(run.output(), "");
    assert_eq!(run.ticks(), 0);
    assert_eq!(run.status(), RunStatus::Running);
}
