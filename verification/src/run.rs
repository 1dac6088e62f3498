//! One run of a program, bounded by a tick budget.
//!
//! The run decides; it never steps the engine or reads memory itself. It
//! says what it wants next (a step of the engine, a read of one storage
//! word, or nothing more), and whoever owns the engine does that and hands
//! the result back. System calls are serviced on the way: their output is
//! collected as text.

use crate::reader::{Reading, StringReader};
use crate::text::{decimal_digits, push_decimal, push_signed_decimal, signed_decimal};
use crate::trap::{ends_run, service, service_of, MemoryFault, Service, TrapResult};
use vstd::prelude::*;

verus! {

/// How a run stands.
#[derive(Clone, Copy, Debug, PartialEq, Eq, Structural)]
pub enum RunStatus {
    /// The program has neither halted nor faulted. A run whose budget is
    /// used up stays in this state.
    Running,
    /// The program asked to halt.
    Halted,
    /// A step of the engine failed.
    Faulted,
}

/// What the run wants done next.
#[derive(Clone, Copy, Debug, PartialEq, Eq, Structural)]
pub enum Action {
    /// Step the engine once and report with [`Run::on_tick`].
    Tick,
    /// Read the word at this storage address and report with [`Run::on_read`].
    Read { address: u32 },
    /// Nothing more: the program halted or faulted, or the budget is used up.
    Stop,
}

/// What can be reported to a run.
pub enum Event {
    /// The engine took a step, with this outcome.
    Stepped { trap: TrapResult },
    /// A storage word was read, with this result.
    Read { result: Result<u32, MemoryFault> },
}

/// The state of a run.
pub struct RunView {
    /// How many steps the run may take.
    pub budget: nat,
    /// How many steps it has taken.
    pub ticks: nat,
    pub status: RunStatus,
    /// The text that system calls have printed so far.
    pub output: Seq<char>,
    /// Why the run faulted; empty unless it did.
    pub fault: Seq<char>,
    /// The string read that is under way for a print-string call.
    pub reading: Option<Reading>,
}

/// The line printed for a print-integer call.
pub open spec fn integer_line(value: i32) -> Seq<char> {
    signed_decimal(value as int) + seq!['\n']
}

/// The line printed when the program halts.
pub open spec fn exit_line() -> Seq<char> {
    "Exit syscall encountered\n"@
}

/// The line printed for a system call that the host does not know.
pub open spec fn unhandled_line(code: u32) -> Seq<char> {
    "Unhandled syscall: "@ + decimal_digits(code as nat) + seq!['\n']
}

impl RunView {
    /// A fresh run with this budget.
    pub open spec fn start(budget: nat) -> RunView {
        RunView {
            budget,
            ticks: 0,
            status: RunStatus::Running,
            output: Seq::empty(),
            fault: Seq::empty(),
            reading: None,
        }
    }

    /// What holds of every state that a run can reach: it has taken no
    /// more steps than its budget, and a string read is under way only
    /// while the program runs and the read is not over.
    pub open spec fn wf(self) -> bool {
        &&& self.ticks <= self.budget
        &&& self.reading is Some ==> self.status is Running && !self.reading->0.finished()
    }

    /// What the run wants done next.
    pub open spec fn action(self) -> Action {
        if self.reading is Some && self.reading->0.awaited() is Some {
            Action::Read { address: self.reading->0.awaited()->0 }
        } else if self.status is Running && self.ticks < self.budget {
            Action::Tick
        } else {
            Action::Stop
        }
    }

    /// The state with `line` added to the output.
    pub open spec fn printed(self, line: Seq<char>) -> RunView {
        RunView { output: self.output + line, ..self }
    }

    /// The state after the program halted.
    pub open spec fn halted(self) -> RunView {
        RunView { status: RunStatus::Halted, ..self.printed(exit_line()) }
    }

    /// The state after the host serviced a system call.
    pub open spec fn serviced(self, what: Service) -> RunView {
        match what {
            Service::PrintInt { value } => self.printed(integer_line(value)),
            Service::PrintString { address } => if Reading::start(address).finished() {
                self.printed(seq!['\n'])
            } else {
                RunView { reading: Some(Reading::start(address)), ..self }
            },
            Service::Exit => self.halted(),
            Service::Unhandled { code } => self.printed(unhandled_line(code)),
        }
    }

    /// The state after a step of the engine with outcome `trap`. A step
    /// that the run did not ask for is not counted and changes nothing.
    pub open spec fn after_tick(self, trap: TrapResult) -> RunView {
        if self.action() != Action::Tick {
            self
        } else {
            let counted = RunView { ticks: self.ticks + 1, ..self };
            match trap {
                TrapResult::Continue => counted,
                TrapResult::Syscall { code, arg } => counted.serviced(service_of(code, arg)),
                TrapResult::Halted => counted.halted(),
                TrapResult::Faulted { reason } => RunView {
                    status: RunStatus::Faulted,
                    fault: reason@,
                    ..counted
                },
            }
        }
    }

    /// The state after a read of the awaited storage word. When the string
    /// read is over with it, the string is printed as one line. A read
    /// that the run did not ask for changes nothing.
    pub open spec fn after_read(self, result: Result<u32, MemoryFault>) -> RunView {
        if !(self.action() is Read) {
            self
        } else {
            let reading = self.reading->0.fed(result);
            if reading.finished() {
                RunView { reading: None, ..self.printed(reading.text + seq!['\n']) }
            } else {
                RunView { reading: Some(reading), ..self }
            }
        }
    }

    /// The state after an event.
    pub open spec fn after(self, event: Event) -> RunView {
        match event {
            Event::Stepped { trap } => self.after_tick(trap),
            Event::Read { result } => self.after_read(result),
        }
    }
}

/// The state of a run with this budget after these events, in order.
pub open spec fn run_of(budget: nat, events: Seq<Event>) -> RunView
    decreases events.len(),
{
    if events.len() == 0 {
        RunView::start(budget)
    } else {
        run_of(budget, events.drop_last()).after(events.last())
    }
}

/// How many of the events are steps of the engine.
pub open spec fn steps_in(events: Seq<Event>) -> nat
    decreases events.len(),
{
    if events.len() == 0 {
        0
    } else {
        steps_in(events.drop_last()) + if events.last() is Stepped {
            1nat
        } else {
            0nat
        }
    }
}

/// One run of a program.
pub struct Run {
    budget: u32,
    ticks: u32,
    status: RunStatus,
    output: String,
    fault: String,
    reader: Option<StringReader>,
}

impl View for Run {
    type V = RunView;

    closed spec fn view(&self) -> RunView {
        RunView {
            budget: self.budget as nat,
            ticks: self.ticks as nat,
            status: self.status,
            output: self.output@,
            fault: self.fault@,
            reading: match self.reader {
                Some(reader) => Some(reader@),
                None => None,
            },
        }
    }
}

impl Run {
    /// Starts a run that may take `budget` steps.
    pub fn new(budget: u32) -> (run: Run)
        ensures
            run@ == RunView::start(budget as nat),
            run@.wf(),
    {
        Run {
            budget,
            ticks: 0,
            status: RunStatus::Running,
            output: String::new(),
            fault: String::new(),
            reader: None,
        }
    }

    /// What the run wants done next.
    pub fn action(&self) -> (next: Action)
        ensures
            next == self@.action(),
    {
        let awaited: Option<u32> = match &self.reader {
            Some(reader) => reader.pending(),
            None => None,
        };
        match awaited {
            Some(address) => Action::Read { address },
            None => match self.status {
                RunStatus::Running => if self.ticks < self.budget {
                    Action::Tick
                } else {
                    Action::Stop
                },
                _ => Action::Stop,
            },
        }
    }

    fn halt(&mut self)
        ensures
            final(self)@ == old(self)@.halted(),
    {
        self.output.append("Exit syscall encountered\n");
        self.status = RunStatus::Halted;
    }

    fn serve(&mut self, what: Service)
        ensures
            final(self)@ == old(self)@.serviced(what),
    {
        match what {
            Service::PrintInt { value } => {
                push_signed_decimal(&mut self.output, value);
                self.output.push('\n');
                assert(self.output@ =~= old(self).output@ + integer_line(value));
            },
            Service::PrintString { address } => {
                let reader = StringReader::new(address);
                if reader.finished() {
                    self.output.push('\n');
                    assert(self.output@ =~= old(self).output@ + seq!['\n']);
                } else {
                    self.reader = Some(reader);
                }
            },
            Service::Exit => {
                self.halt();
            },
            Service::Unhandled { code } => {
                self.output.append("Unhandled syscall: ");
                push_decimal(&mut self.output, code);
                self.output.push('\n');
                assert(self.output@ =~= old(self).output@ + unhandled_line(code));
            },
        }
    }

    /// Takes the outcome of the step that the run asked for, and says what
    /// it wants next. A step that it did not ask for is ignored.
    pub fn on_tick(&mut self, trap: TrapResult) -> (next: Action)
        ensures
            final(self)@ == old(self)@.after_tick(trap),
            next == final(self)@.action(),
            old(self)@.wf() ==> final(self)@.wf(),
    {
        match self.action() {
            Action::Tick => {
                self.ticks = self.ticks + 1;
                match trap {
                    TrapResult::Continue => {},
                    TrapResult::Syscall { code, arg } => {
                        self.serve(service(code, arg));
                    },
                    TrapResult::Halted => {
                        self.halt();
                    },
                    TrapResult::Faulted { reason } => {
                        self.status = RunStatus::Faulted;
                        self.fault = reason;
                    },
                }
            },
            _ => {},
        }
        self.action()
    }

    /// Takes the result of the read that the run asked for, and says what
    /// it wants next. A read that it did not ask for is ignored.
    pub fn on_read(&mut self, result: Result<u32, MemoryFault>) -> (next: Action)
        ensures
            final(self)@ == old(self)@.after_read(result),
            next == final(self)@.action(),
            old(self)@.wf() ==> final(self)@.wf(),
    {
        match self.action() {
            Action::Read { .. } => {
                let mut over: bool = false;
                match &mut self.reader {
                    Some(reader) => {
                        reader.feed(result);
                        over = reader.finished();
                    },
                    None => {},
                }
                if over {
                    let reader: Option<StringReader> = self.reader.take();
                    match reader {
                        Some(reader) => {
                            let text: String = reader.into_text();
                            self.output.append(text.as_str());
                            self.output.push('\n');
                            assert(self.output@ =~= old(self).output@ + (text@ + seq!['\n']));
                        },
                        None => {},
                    }
                }
            },
            _ => {},
        }
        self.action()
    }

    /// How the run stands.
    pub fn status(&self) -> (status: RunStatus)
        ensures
            status == self@.status,
    {
        self.status
    }

    /// How many steps the run has taken.
    pub fn ticks(&self) -> (ticks: u32)
        ensures
            ticks == self@.ticks,
    {
        self.ticks
    }

    /// How many steps the run may take.
    pub fn budget(&self) -> (budget: u32)
        ensures
            budget == self@.budget,
    {
        self.budget
    }

    /// The text that system calls have printed so far.
    pub fn output(&self) -> (text: String)
        ensures
            text@ == self@.output,
    {
        self.output.clone()
    }

    /// Why the run faulted; empty unless it did.
    pub fn fault(&self) -> (reason: String)
        ensures
            reason@ == self@.fault,
    {
        self.fault.clone()
    }
}

/// An event leaves a well-formed state well formed and its budget as it was.
pub proof fn lemma_event_keeps_wf(state: RunView, event: Event)
    requires
        state.wf(),
    ensures
        state.after(event).wf(),
        state.after(event).budget == state.budget,
        state.ticks <= state.after(event).ticks <= state.ticks + 1,
        event is Read ==> state.after(event).ticks == state.ticks,
{
}

/// A run never takes more steps than its budget, whatever is reported to
/// it, and never more than were reported; it asks for a step only while
/// some of the budget is left.
pub proof fn lemma_budget_bounds_steps(budget: nat, events: Seq<Event>)
    ensures
        run_of(budget, events).wf(),
        run_of(budget, events).budget == budget,
        run_of(budget, events).ticks <= budget,
        run_of(budget, events).ticks <= steps_in(events),
        run_of(budget, events).action() == Action::Tick ==> run_of(budget, events).ticks < budget,
    decreases events.len(),
{
    if events.len() > 0 {
        lemma_budget_bounds_steps(budget, events.drop_last());
        lemma_event_keeps_wf(run_of(budget, events.drop_last()), events.last());
    }
}

/// A step offered to a run whose budget is used up is not taken: the state
/// stays as it is, and if no string read is under way the run wants
/// nothing more.
pub proof fn lemma_spent_budget_takes_no_step(state: RunView, trap: TrapResult)
    requires
        state.ticks >= state.budget,
    ensures
        state.after_tick(trap) == state,
        state.reading is None ==> state.action() == Action::Stop,
{
}

/// Using up the budget is no failure: a run to which the engine reported
/// neither a halt, nor a fault, nor an exit call is still running.
pub proof fn lemma_only_the_engine_ends_a_run(budget: nat, events: Seq<Event>)
    requires
        forall|i: int|
            0 <= i < events.len() ==> !((#[trigger] events[i]) is Stepped && ends_run(
                events[i]->trap,
            )),
    ensures
        run_of(budget, events).status is Running,
    decreases events.len(),
{
    if events.len() > 0 {
        lemma_only_the_engine_ends_a_run(budget, events.drop_last());
    }
}

/// Once the program has halted or faulted the run wants nothing more, and
/// nothing that is reported to it changes it.
pub proof fn lemma_end_is_final(state: RunView, event: Event)
    requires
        state.wf(),
        !(state.status is Running),
    ensures
        state.action() == Action::Stop,
        state.after(event) == state,
{
}

/// Output is only ever added at the end: what was printed before an event
/// is still there after it, and a fault adds nothing.
pub proof fn lemma_output_is_kept(state: RunView, event: Event)
    ensures
        state.output.is_prefix_of(state.after(event).output),
        event matches Event::Stepped { trap } && trap is Faulted ==> state.after(event).output
            == state.output,
{
}

} // verus!
