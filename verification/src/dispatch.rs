//! The exit dispatcher: what the monitor does each time the guest stops or
//! a line of input arrives.
//!
//! The dispatcher performs nothing itself. It is a function from the state
//! of the monitor and an event to the next state and a list of effects; a
//! driver enters the guest, reads the console and carries out the effects.
//! What the driver has to do next is read off the state.

use crate::console::{
    append_decimal, decimal, decimal_digits, is_digit, lemma_decimal_digits_value, parse_integer,
    parsed_line, report_line, report_text,
};
use crate::page::{data_fits, stored, value_at, ExitInfo};
use vstd::prelude::*;
use vstd::string::*;

verus! {

/// How long the monitor waits after a port transfer before the guest goes
/// on, in milliseconds.
pub const PAUSE_MILLIS: u64 = 100;

/// The state of the monitor's loop.
#[derive(Clone, Copy, Debug, PartialEq, Eq)]
pub enum State {
    /// The guest runs, or is about to.
    Running,
    /// The guest waits for a value, to be placed at `data_offset` of the
    /// control page.
    IoPending { data_offset: usize },
    /// The guest halted.
    Halted,
    /// The kernel could not go on with the guest.
    InternalError,
    /// The guest shut down.
    Shutdown,
    /// The guest stopped for a reason the monitor does not handle.
    Unsupported { reason: u32 },
}

/// What happened.
#[derive(Debug, PartialEq, Eq)]
pub enum Event {
    /// The guest stopped, and the control page said this.
    Exit(ExitInfo),
    /// A line came in from the console.
    Line(String),
}

/// What the driver carries out after a step, in the order given.
#[derive(Clone, Copy, Debug, PartialEq, Eq)]
pub enum Effect {
    /// Tell that the guest wrote `value` to `port`.
    Report { port: u16, value: i32 },
    /// Ask for an integer.
    Prompt,
    /// Tell that the line just read was no integer.
    Reject,
    /// Place `value` at `offset` of the control page.
    Store { offset: usize, value: i32 },
    /// Wait for `PAUSE_MILLIS`.
    Pause,
    /// Tell why the guest stopped for good.
    Announce(State),
}

/// What the driver does to get the next event.
#[derive(Clone, Copy, Debug, PartialEq, Eq)]
pub enum Directive {
    /// Enter the guest, and report the exit.
    EnterGuest,
    /// Read a line from the console, and report it.
    ReadLine,
    /// Leave the loop.
    Leave,
}

/// Where a text goes.
#[derive(Clone, Copy, Debug, PartialEq, Eq)]
pub enum Stream {
    /// Standard output.
    Stdout,
    /// The error stream.
    Stderr,
}

/// A text for the console, to be written as it stands.
#[derive(Debug, PartialEq, Eq)]
pub struct Output {
    pub stream: Stream,
    pub text: String,
}

/// The outcome of a step or of a run of steps.
#[derive(Debug, PartialEq, Eq)]
pub struct Step {
    pub state: State,
    pub effects: Vec<Effect>,
}

impl State {
    /// Whether the loop has ended in this state.
    pub open spec fn stopped(self) -> bool {
        self is Halted || self is InternalError || self is Shutdown || self is Unsupported
    }

    /// What the driver does next in this state.
    pub open spec fn directive_of(self) -> Directive {
        match self {
            State::Running => Directive::EnterGuest,
            State::IoPending { .. } => Directive::ReadLine,
            _ => Directive::Leave,
        }
    }

    /// What the monitor says of the end of the loop in this state: a fixed
    /// label, and for a reason it does not handle the reason's number and a
    /// notice. A state in which the loop goes on has nothing to say.
    pub open spec fn label_of(self) -> Seq<char> {
        match self {
            State::Halted => "KVM_EXIT_HLT\n"@,
            State::InternalError => "KVM_EXIT_INTERNAL_ERROR\n"@,
            State::Shutdown => "KVM_EXIT_SHUTDOWN\n"@,
            State::Unsupported { reason } => "Unsupported exit_reason: "@ + decimal(reason as int)
                + "\nAbort!\n"@,
            _ => Seq::empty(),
        }
    }

    /// Whether the loop has ended in this state.
    pub fn is_stopped(&self) -> (b: bool)
        ensures
            b == self.stopped(),
    {
        match self {
            State::Running => false,
            State::IoPending { .. } => false,
            _ => true,
        }
    }

    /// What the driver does next: enter the guest while it runs, read a
    /// line while it waits for input, leave once it has stopped.
    pub fn directive(&self) -> (d: Directive)
        ensures
            d == self.directive_of(),
            d is Leave <==> self.stopped(),
    {
        match self {
            State::Running => Directive::EnterGuest,
            State::IoPending { .. } => Directive::ReadLine,
            _ => Directive::Leave,
        }
    }
}

impl Effect {
    /// The stream that the effect writes to, if it writes.
    pub open spec fn stream_of(self) -> Option<Stream> {
        match self {
            Effect::Report { .. } | Effect::Prompt | Effect::Announce(_) => Some(Stream::Stdout),
            Effect::Reject => Some(Stream::Stderr),
            Effect::Store { .. } | Effect::Pause => None,
        }
    }

    /// The text that the effect writes; empty where it writes nothing.
    pub open spec fn text_of(self) -> Seq<char> {
        match self {
            Effect::Report { port, value } => report_text(port, value),
            Effect::Prompt => "input an integer> "@,
            Effect::Reject => "Invalid input\n"@,
            Effect::Announce(state) => state.label_of(),
            Effect::Store { .. } | Effect::Pause => Seq::empty(),
        }
    }

    /// What the effect writes to standard output.
    pub open spec fn stdout_of(self) -> Seq<char> {
        if self.stream_of() == Some(Stream::Stdout) {
            self.text_of()
        } else {
            Seq::empty()
        }
    }

    /// The text that the effect writes and the stream it goes to, or none
    /// where the effect is no writing.
    pub fn output(&self) -> (out: Option<Output>)
        ensures
            out.is_some() == self.stream_of().is_some(),
            out matches Some(o) ==> Some(o.stream) == self.stream_of() && o.text@
                == self.text_of(),
    {
        match self {
            Effect::Report { port, value } => Some(
                Output { stream: Stream::Stdout, text: report_line(*port, *value) },
            ),
            Effect::Prompt => Some(
                Output { stream: Stream::Stdout, text: String::from_str("input an integer> ") },
            ),
            Effect::Reject => Some(
                Output { stream: Stream::Stderr, text: String::from_str("Invalid input\n") },
            ),
            Effect::Announce(state) => Some(Output { stream: Stream::Stdout, text: label(*state) }),
            Effect::Store { .. } => None,
            Effect::Pause => None,
        }
    }
}

/// The text that tells of the end of the loop in `state`.
pub fn label(state: State) -> (text: String)
    ensures
        text@ == state.label_of(),
{
    match state {
        State::Halted => String::from_str("KVM_EXIT_HLT\n"),
        State::InternalError => String::from_str("KVM_EXIT_INTERNAL_ERROR\n"),
        State::Shutdown => String::from_str("KVM_EXIT_SHUTDOWN\n"),
        State::Unsupported { reason } => {
            let mut text = String::from_str("Unsupported exit_reason: ");
            append_decimal(&mut text, reason as i64);
            text.append("\nAbort!\n");
            text
        },
        _ => String::new(),
    }
}

/// The state after the guest stopped with `exit` while it ran.
pub open spec fn after_exit(exit: ExitInfo) -> State {
    match exit {
        ExitInfo::Halt => State::Halted,
        ExitInfo::IoOut { .. } => State::Running,
        ExitInfo::IoIn { data_offset, .. } => State::IoPending { data_offset },
        ExitInfo::InternalError => State::InternalError,
        ExitInfo::Shutdown => State::Shutdown,
        ExitInfo::Unsupported { reason } => State::Unsupported { reason },
    }
}

/// What is to be done when the guest stopped with `exit` while it ran: a
/// value written is reported, and the guest goes on after a pause; a value
/// wanted is asked for; any other exit is announced.
pub open spec fn effects_of_exit(exit: ExitInfo) -> Seq<Effect> {
    match exit {
        ExitInfo::IoOut { port, value, .. } => seq![Effect::Report { port, value }, Effect::Pause],
        ExitInfo::IoIn { .. } => seq![Effect::Prompt],
        _ => seq![Effect::Announce(after_exit(exit))],
    }
}

/// The state after `line` came in while the guest waited for a value at
/// `data_offset`: the guest runs again if the line is an integer, and goes
/// on waiting if not.
pub open spec fn after_line(data_offset: usize, line: Seq<char>) -> State {
    match parsed_line(line) {
        Some(_) => State::Running,
        None => State::IoPending { data_offset },
    }
}

/// What is to be done when `line` came in while the guest waited for a
/// value at `data_offset`: an integer is placed there, and the guest goes on
/// after a pause; anything else is rejected and asked for again.
pub open spec fn effects_of_line(data_offset: usize, line: Seq<char>) -> Seq<Effect> {
    match parsed_line(line) {
        Some(value) => seq![Effect::Store { offset: data_offset, value }, Effect::Pause],
        None => seq![Effect::Reject, Effect::Prompt],
    }
}

/// The state after `event` in `state`. An event that the state does not
/// wait for changes nothing: an exit counts only while the guest runs, a
/// line only while the guest waits for a value.
pub open spec fn next_state(state: State, event: Event) -> State {
    match (state, event) {
        (State::Running, Event::Exit(exit)) => after_exit(exit),
        (State::IoPending { data_offset }, Event::Line(line)) => after_line(data_offset, line@),
        _ => state,
    }
}

/// What is to be done after `event` in `state`; nothing for an event that
/// the state does not wait for.
pub open spec fn effects_of(state: State, event: Event) -> Seq<Effect> {
    match (state, event) {
        (State::Running, Event::Exit(exit)) => effects_of_exit(exit),
        (State::IoPending { data_offset }, Event::Line(line)) => effects_of_line(
            data_offset,
            line@,
        ),
        _ => Seq::empty(),
    }
}

/// The state after the events of `events`, one after the other, from
/// `state` on.
pub open spec fn run_state(state: State, events: Seq<Event>) -> State
    decreases events.len(),
{
    if events.len() == 0 {
        state
    } else {
        next_state(run_state(state, events.drop_last()), events.last())
    }
}

/// All that is to be done for the events of `events`, one after the other,
/// from `state` on.
pub open spec fn run_effects(state: State, events: Seq<Event>) -> Seq<Effect>
    decreases events.len(),
{
    if events.len() == 0 {
        Seq::empty()
    } else {
        run_effects(state, events.drop_last()) + effects_of(
            run_state(state, events.drop_last()),
            events.last(),
        )
    }
}

/// What the effects write to standard output, in their order.
pub open spec fn stdout_text(effects: Seq<Effect>) -> Seq<char>
    decreases effects.len(),
{
    if effects.len() == 0 {
        Seq::empty()
    } else {
        stdout_text(effects.drop_last()) + effects.last().stdout_of()
    }
}

/// The step for an exit of the guest while it ran.
pub fn on_exit(exit: ExitInfo) -> (step: Step)
    ensures
        step.state == after_exit(exit),
        step.effects@ == effects_of_exit(exit),
{
    match exit {
        ExitInfo::Halt => Step {
            state: State::Halted,
            effects: vec![Effect::Announce(State::Halted)],
        },
        ExitInfo::IoOut { port, width: _, value } => Step {
            state: State::Running,
            effects: vec![Effect::Report { port, value }, Effect::Pause],
        },
        ExitInfo::IoIn { port: _, width: _, data_offset } => Step {
            state: State::IoPending { data_offset },
            effects: vec![Effect::Prompt],
        },
        ExitInfo::InternalError => Step {
            state: State::InternalError,
            effects: vec![Effect::Announce(State::InternalError)],
        },
        ExitInfo::Shutdown => Step {
            state: State::Shutdown,
            effects: vec![Effect::Announce(State::Shutdown)],
        },
        ExitInfo::Unsupported { reason } => Step {
            state: State::Unsupported { reason },
            effects: vec![Effect::Announce(State::Unsupported { reason })],
        },
    }
}

/// The step for a line of input while the guest waited for a value at
/// `data_offset`.
pub fn on_line(data_offset: usize, line: &str) -> (step: Step)
    ensures
        step.state == after_line(data_offset, line@),
        step.effects@ == effects_of_line(data_offset, line@),
{
    match parse_integer(line) {
        Some(value) => Step {
            state: State::Running,
            effects: vec![Effect::Store { offset: data_offset, value }, Effect::Pause],
        },
        None => Step {
            state: State::IoPending { data_offset },
            effects: vec![Effect::Reject, Effect::Prompt],
        },
    }
}

/// One step of the monitor: the state after `event` and what is to be done.
pub fn step(state: State, event: &Event) -> (step: Step)
    ensures
        step.state == next_state(state, *event),
        step.effects@ == effects_of(state, *event),
{
    match state {
        State::Running => match event {
            Event::Exit(exit) => on_exit(*exit),
            Event::Line(_) => Step { state, effects: Vec::new() },
        },
        State::IoPending { data_offset } => match event {
            Event::Line(line) => on_line(data_offset, line.as_str()),
            Event::Exit(_) => Step { state, effects: Vec::new() },
        },
        _ => Step { state, effects: Vec::new() },
    }
}

/// Runs the monitor over a script of events, from the running state on,
/// and gives the state it ends in and all that was to be done on the way.
pub fn replay(events: &Vec<Event>) -> (run: Step)
    ensures
        run.state == run_state(State::Running, events@),
        run.effects@ == run_effects(State::Running, events@),
{
    let mut state = State::Running;
    let mut effects: Vec<Effect> = Vec::new();
    let mut i: usize = 0;
    while i < events.len()
        invariant
            i <= events.len(),
            state == run_state(State::Running, events@.take(i as int)),
            effects@ == run_effects(State::Running, events@.take(i as int)),
        decreases events.len() - i,
    {
        let mut next = step(state, &events[i]);
        proof {
            assert(events@.take(i + 1).drop_last() =~= events@.take(i as int));
            assert(events@.take(i + 1).last() == events@[i as int]);
        }
        effects.append(&mut next.effects);
        state = next.state;
        i += 1;
    }
    assert(events@.take(i as int) =~= events@);
    Step { state, effects }
}

/// What the effects write to standard output, in their order.
pub fn console_output(effects: &Vec<Effect>) -> (text: String)
    ensures
        text@ == stdout_text(effects@),
{
    let mut text = String::new();
    let mut i: usize = 0;
    while i < effects.len()
        invariant
            i <= effects.len(),
            text@ == stdout_text(effects@.take(i as int)),
        decreases effects.len() - i,
    {
        proof {
            assert(effects@.take(i + 1).drop_last() =~= effects@.take(i as int));
            assert(effects@.take(i + 1).last() == effects@[i as int]);
        }
        match effects[i].output() {
            Some(out) => {
                match out.stream {
                    Stream::Stdout => {
                        text.append(out.text.as_str());
                    },
                    Stream::Stderr => {},
                }
            },
            None => {},
        }
        i += 1;
    }
    assert(effects@.take(i as int) =~= effects@);
    text
}

/// Whether two events hold the same: the same exit, or lines of the same
/// characters.
pub open spec fn same_event(a: Event, b: Event) -> bool {
    match (a, b) {
        (Event::Exit(x), Event::Exit(y)) => x == y,
        (Event::Line(s), Event::Line(t)) => s@ == t@,
        _ => false,
    }
}

/// A script run in two parts gives what it gives when run at once.
pub proof fn lemma_run_in_parts(state: State, first: Seq<Event>, rest: Seq<Event>)
    ensures
        run_state(state, first + rest) == run_state(run_state(state, first), rest),
        run_effects(state, first + rest) == run_effects(state, first) + run_effects(
            run_state(state, first),
            rest,
        ),
    decreases rest.len(),
{
    if rest.len() == 0 {
        assert(first + rest =~= first);
        assert(run_effects(state, first) + Seq::<Effect>::empty() =~= run_effects(state, first));
    } else {
        lemma_run_in_parts(state, first, rest.drop_last());
        assert((first + rest).drop_last() =~= first + rest.drop_last());
        assert((first + rest).last() == rest.last());
        let middle = run_state(state, first);
        assert(run_effects(state, first + rest) =~= run_effects(state, first) + run_effects(
            middle,
            rest,
        ));
    }
}

/// Once the loop has ended it stays ended: whatever events still arrive,
/// the state does not change and nothing is to be done, and the driver is
/// told to leave, so the guest is not entered again.
pub proof fn lemma_stopped_is_final(state: State, events: Seq<Event>)
    requires
        state.stopped(),
    ensures
        run_state(state, events) == state,
        run_effects(state, events) == Seq::<Effect>::empty(),
        run_state(state, events).directive_of() == Directive::Leave,
    decreases events.len(),
{
    if events.len() > 0 {
        lemma_stopped_is_final(state, events.drop_last());
        assert(run_effects(state, events) =~= Seq::<Effect>::empty());
    }
}

/// An exit of the running guest ends the loop if and only if it is a halt,
/// an internal error, a shutdown or a reason that the monitor does not
/// handle, whatever its number. Such an exit is announced, and that is all
/// that ever happens after it: no later event has an effect, and the
/// driver is never again told to enter the guest.
pub proof fn lemma_final_exit_ends_run(exit: ExitInfo, later: Seq<Event>)
    ensures
        after_exit(exit).stopped() <==> !(exit is IoOut || exit is IoIn),
        after_exit(exit).stopped() ==> {
            let script = seq![Event::Exit(exit)] + later;
            &&& run_state(State::Running, script) == after_exit(exit)
            &&& run_state(State::Running, script).directive_of() == Directive::Leave
            &&& run_effects(State::Running, script) == seq![Effect::Announce(after_exit(exit))]
        },
{
    if after_exit(exit).stopped() {
        let first = seq![Event::Exit(exit)];
        assert(first.drop_last() =~= Seq::<Event>::empty());
        assert(run_state(State::Running, first.drop_last()) == State::Running);
        assert(run_effects(State::Running, first.drop_last()) =~= Seq::<Effect>::empty());
        assert(first.last() == Event::Exit(exit));
        assert(run_state(State::Running, first) == after_exit(exit));
        assert(run_effects(State::Running, first) =~= effects_of_exit(exit));
        lemma_run_in_parts(State::Running, first, later);
        lemma_stopped_is_final(after_exit(exit), later);
        assert(run_effects(State::Running, first + later) =~= seq![
            Effect::Announce(after_exit(exit)),
        ]);
    }
}

/// The decimal text of an integer holds no newline.
proof fn lemma_decimal_has_no_newline(v: int)
    ensures
        forall|i: int| 0 <= i < decimal(v).len() ==> decimal(v)[i] != '\n',
{
    let magnitude: nat = if v < 0 {
        (-v) as nat
    } else {
        v as nat
    };
    lemma_decimal_digits_value(magnitude);
    let digits = decimal_digits(magnitude);
    assert forall|i: int| 0 <= i < decimal(v).len() implies decimal(v)[i] != '\n' by {
        if v < 0 {
            if i > 0 {
                assert(decimal(v)[i] == digits[i - 1]);
                assert(is_digit(digits[i - 1]));
            }
        } else {
            assert(is_digit(digits[i]));
        }
    }
}

/// A value that the guest writes to a port puts exactly one line on
/// standard output, the line that reports the port and the value, and the
/// guest goes on: the state is the running one, in which the driver enters
/// the guest.
pub proof fn lemma_out_reports_one_line(port: u16, width: u8, value: i32)
    ensures
        ({
            let event = Event::Exit(ExitInfo::IoOut { port, width, value });
            let text = stdout_text(effects_of(State::Running, event));
            &&& next_state(State::Running, event) == State::Running
            &&& State::Running.directive_of() == Directive::EnterGuest
            &&& text == report_text(port, value)
            &&& text.len() > 0
            &&& text.last() == '\n'
            &&& forall|i: int| 0 <= i < text.len() - 1 ==> text[i] != '\n'
        }),
{
    let event = Event::Exit(ExitInfo::IoOut { port, width, value });
    let effects = effects_of(State::Running, event);
    let line = report_text(port, value);
    assert(effects.drop_last() =~= seq![Effect::Report { port, value }]);
    assert(effects.drop_last().drop_last() =~= Seq::<Effect>::empty());
    assert(stdout_text(effects.drop_last().drop_last()) =~= Seq::<char>::empty());
    assert(stdout_text(effects.drop_last()) =~= line);
    assert(stdout_text(effects) =~= line);
    reveal_strlit("port[");
    reveal_strlit("]: ");
    reveal_strlit("\n");
    lemma_decimal_has_no_newline(port as int);
    lemma_decimal_has_no_newline(value as int);
    let a = "port["@;
    let b = decimal(port as int);
    let c = "]: "@;
    let d = decimal(value as int);
    assert(line.len() == a.len() + b.len() + c.len() + d.len() + 1);
    assert forall|i: int| 0 <= i < line.len() - 1 implies line[i] != '\n' by {
        if i < a.len() {
            assert(line[i] == a[i]);
        } else if i < a.len() + b.len() {
            assert(line[i] == b[i - a.len()]);
        } else if i < a.len() + b.len() + c.len() {
            assert(line[i] == c[i - a.len() - b.len()]);
        } else {
            assert(line[i] == d[i - a.len() - b.len() - c.len()]);
        }
    }
}

/// A line of input while the guest waits for a value at `data_offset`. A
/// line that is no integer leaves the guest waiting: it is rejected and
/// asked for again, and the driver is told to read, not to enter the guest.
/// A line that is an integer has that integer placed at `data_offset`, where
/// the guest finds exactly it in any page that holds the place, and the
/// guest goes on.
pub proof fn lemma_input_reaches_guest(data_offset: usize, line: String, page: Seq<u8>)
    ensures
        ({
            let waiting = State::IoPending { data_offset };
            let event = Event::Line(line);
            match parsed_line(line@) {
                None => {
                    &&& next_state(waiting, event) == waiting
                    &&& waiting.directive_of() == Directive::ReadLine
                    &&& effects_of(waiting, event) == seq![Effect::Reject, Effect::Prompt]
                },
                Some(value) => {
                    &&& next_state(waiting, event) == State::Running
                    &&& effects_of(waiting, event) == seq![
                        Effect::Store { offset: data_offset, value },
                        Effect::Pause,
                    ]
                    &&& data_fits(page.len(), data_offset as int) ==> value_at(
                        stored(page, data_offset as int, value),
                        data_offset as int,
                    ) == value
                },
            }
        }),
{
    match parsed_line(line@) {
        None => {},
        Some(value) => {
            if data_fits(page.len(), data_offset as int) {
                crate::page::lemma_store_then_load(page, data_offset as int, value);
            }
        },
    }
}

/// Two scripts that hold the same events, one for one, take the monitor
/// from the same state to the same state by the same effects, and so put
/// the same text on standard output.
pub proof fn lemma_same_script_same_console(state: State, a: Seq<Event>, b: Seq<Event>)
    requires
        a.len() == b.len(),
        forall|i: int| 0 <= i < a.len() ==> same_event(#[trigger] a[i], b[i]),
    ensures
        run_state(state, a) == run_state(state, b),
        run_effects(state, a) == run_effects(state, b),
        stdout_text(run_effects(state, a)) == stdout_text(run_effects(state, b)),
    decreases a.len(),
{
    if a.len() > 0 {
        lemma_same_script_same_console(state, a.drop_last(), b.drop_last());
        assert(same_event(a[a.len() - 1], b[a.len() - 1]));
    }
}

} // verus!
