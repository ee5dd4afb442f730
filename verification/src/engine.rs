//! The execution engine: the fixed dispatch table, a fully specified single
//! fetch-dispatch-execute step, and a bounded driver loop. Work that only the
//! host can do — writing to standard output, reading a line, sleeping — is
//! handed back as an event.

use vstd::prelude::*;

use crate::commands::{
    add_post, advance, advance_post, arith_code, continue_if, continue_if_code,
    continue_if_post, continue_not, continue_not_code, continue_not_post, count, count_post,
    find_label, generate_random, go_code, go_post, go_to_state, hex_digits, increment,
    increment_post, lemma_find_label_none, numeric_text, output_char, pop, pop_code, pop_post,
    printed_char, push, push_post, random_post, reset, reset_post, select_left, select_post,
    select_right, set_state, set_state_post, subtract, sub_post, terminate, time, time_code,
    time_post,
};
use crate::host;
use crate::types::{active_stack, state_char, Direction, ExitCode, ProgramData, State};

verus! {

/// The closed set of operations a tape character can name.
#[derive(Clone, Copy, PartialEq, Eq, Debug, Structural)]
pub enum Opcode {
    Terminate,
    Advance,
    GoToState,
    ContinueIf,
    ContinueNot,
    SetState,
    Push,
    Pop,
    LineInput,
    SelectLeft,
    SelectRight,
    Increment,
    Reset,
    Add,
    Subtract,
    Count,
    Print,
    NumericPrint,
    Time,
    Wait,
    Random,
}

/// The fixed dispatch table: which operation a tape character names, if any.
/// Space and the sixteen label digits merely advance.
pub open spec fn opcode_for(c: char) -> Option<Opcode> {
    if c == '@' {
        Some(Opcode::Terminate)
    } else if c == ' ' || ('0' <= c && c <= '9') || ('A' <= c && c <= 'F') {
        Some(Opcode::Advance)
    } else if c == '&' {
        Some(Opcode::GoToState)
    } else if c == '?' {
        Some(Opcode::ContinueIf)
    } else if c == '!' {
        Some(Opcode::ContinueNot)
    } else if c == '$' {
        Some(Opcode::SetState)
    } else if c == '^' {
        Some(Opcode::Push)
    } else if c == 'v' {
        Some(Opcode::Pop)
    } else if c == 'g' {
        Some(Opcode::LineInput)
    } else if c == '<' {
        Some(Opcode::SelectLeft)
    } else if c == '>' {
        Some(Opcode::SelectRight)
    } else if c == '*' {
        Some(Opcode::Increment)
    } else if c == '.' {
        Some(Opcode::Reset)
    } else if c == '+' {
        Some(Opcode::Add)
    } else if c == '-' {
        Some(Opcode::Subtract)
    } else if c == '#' {
        Some(Opcode::Count)
    } else if c == 'p' {
        Some(Opcode::Print)
    } else if c == 'n' {
        Some(Opcode::NumericPrint)
    } else if c == 't' {
        Some(Opcode::Time)
    } else if c == 'w' {
        Some(Opcode::Wait)
    } else if c == '~' {
        Some(Opcode::Random)
    } else {
        None
    }
}

/// Looks a tape character up in the dispatch table.
pub fn lookup_opcode(c: char) -> (r: Option<Opcode>)
    ensures
        r == opcode_for(c),
{
    if c == '@' {
        Some(Opcode::Terminate)
    } else if c == ' ' || ('0' <= c && c <= '9') || ('A' <= c && c <= 'F') {
        Some(Opcode::Advance)
    } else if c == '&' {
        Some(Opcode::GoToState)
    } else if c == '?' {
        Some(Opcode::ContinueIf)
    } else if c == '!' {
        Some(Opcode::ContinueNot)
    } else if c == '$' {
        Some(Opcode::SetState)
    } else if c == '^' {
        Some(Opcode::Push)
    } else if c == 'v' {
        Some(Opcode::Pop)
    } else if c == 'g' {
        Some(Opcode::LineInput)
    } else if c == '<' {
        Some(Opcode::SelectLeft)
    } else if c == '>' {
        Some(Opcode::SelectRight)
    } else if c == '*' {
        Some(Opcode::Increment)
    } else if c == '.' {
        Some(Opcode::Reset)
    } else if c == '+' {
        Some(Opcode::Add)
    } else if c == '-' {
        Some(Opcode::Subtract)
    } else if c == '#' {
        Some(Opcode::Count)
    } else if c == 'p' {
        Some(Opcode::Print)
    } else if c == 'n' {
        Some(Opcode::NumericPrint)
    } else if c == 't' {
        Some(Opcode::Time)
    } else if c == 'w' {
        Some(Opcode::Wait)
    } else if c == '~' {
        Some(Opcode::Random)
    } else {
        None
    }
}

/// What one step of the engine asks of its host.
#[derive(Debug, PartialEq, Eq)]
pub enum StepEvent {
    /// An instruction retired with no outside effect; execution continues.
    Ran,
    /// Text to write to standard output, flushing afterwards.
    Output(String),
    /// The line-input operation needs one line from standard input, fed back
    /// through `line_input`.
    NeedLine,
    /// The wait operation asks for a pause of this many milliseconds.
    Sleep(u8),
    /// The run is over.
    Halt(ExitCode),
}

/// The event an operation's outcome becomes: continue quietly, or halt.
pub open spec fn event_of(r: Option<ExitCode>) -> StepEvent {
    match r {
        None => StepEvent::Ran,
        Some(code) => StepEvent::Halt(code),
    }
}

fn event_from(r: Option<ExitCode>) -> (ev: StepEvent)
    ensures
        ev == event_of(r),
{
    match r {
        Option::None => StepEvent::Ran,
        Option::Some(code) => StepEvent::Halt(code),
    }
}

/// The full meaning of one engine step: a pointer beyond the tape ends the
/// run with `EndOfFile`, an unmapped character with `TokenUndefined`; a
/// mapped character has exactly its operation's effect, with output, input
/// and sleeping handed to the host as events.
pub open spec fn step_holds(pre: ProgramData, tape: Seq<char>, post: ProgramData, ev: StepEvent) -> bool {
    if pre.file_index >= tape.len() {
        ev == StepEvent::Halt(ExitCode::EndOfFile) && post == pre
    } else {
        match opcode_for(tape[pre.file_index as int]) {
            None => ev == StepEvent::Halt(ExitCode::TokenUndefined) && post == pre,
            Some(op) => match op {
                Opcode::Terminate => ev == StepEvent::Halt(ExitCode::Success) && post == pre,
                Opcode::Advance => ev == StepEvent::Ran && advance_post(pre, post),
                Opcode::GoToState => ev == event_of(go_code(tape, pre)) && go_post(tape, pre, post),
                Opcode::ContinueIf => ev == event_of(continue_if_code(tape, pre))
                    && continue_if_post(tape, pre, post),
                Opcode::ContinueNot => ev == event_of(continue_not_code(tape, pre))
                    && continue_not_post(tape, pre, post),
                Opcode::SetState => ev == StepEvent::Ran && set_state_post(pre, post),
                Opcode::Push => ev == StepEvent::Ran && push_post(pre, post),
                Opcode::Pop => ev == event_of(pop_code(pre)) && pop_post(pre, post),
                Opcode::LineInput => ev == StepEvent::NeedLine && post == pre,
                Opcode::SelectLeft => ev == StepEvent::Ran && select_post(
                    pre,
                    post,
                    Direction::Left,
                ),
                Opcode::SelectRight => ev == StepEvent::Ran && select_post(
                    pre,
                    post,
                    Direction::Right,
                ),
                Opcode::Increment => ev == StepEvent::Ran && increment_post(pre, post),
                Opcode::Reset => ev == StepEvent::Ran && reset_post(pre, post),
                Opcode::Add => ev == event_of(arith_code(pre)) && add_post(pre, post),
                Opcode::Subtract => ev == event_of(arith_code(pre)) && sub_post(pre, post),
                Opcode::Count => ev == StepEvent::Ran && count_post(pre, post),
                Opcode::Print => (ev matches StepEvent::Output(s) && s@ == seq![
                    printed_char(pre.register_value),
                ]) && advance_post(pre, post),
                Opcode::NumericPrint => (ev matches StepEvent::Output(s) && s@ == hex_digits(
                    pre.register_value,
                )) && advance_post(pre, post),
                Opcode::Time => ev == event_of(time_code(pre)) && time_post(pre, post),
                Opcode::Wait => ev == StepEvent::Sleep(pre.register_value) && advance_post(
                    pre,
                    post,
                ),
                Opcode::Random => ev == StepEvent::Ran && random_post(pre, post),
            },
        }
    }
}

/// One fetch-dispatch-execute step of the engine.
pub fn step(program_data: &mut ProgramData, file_contents: &Vec<char>) -> (ev: StepEvent)
    ensures
        step_holds(*old(program_data), file_contents@, *final(program_data), ev),
{
    if program_data.file_index >= file_contents.len() {
        return StepEvent::Halt(ExitCode::EndOfFile);
    }
    let c = file_contents[program_data.file_index];
    let op = match lookup_opcode(c) {
        None => {
            return StepEvent::Halt(ExitCode::TokenUndefined);
        },
        Some(op) => op,
    };
    match op {
        Opcode::Terminate => event_from(terminate(program_data, file_contents)),
        Opcode::Advance => event_from(advance(program_data, file_contents)),
        Opcode::GoToState => event_from(go_to_state(program_data, file_contents)),
        Opcode::ContinueIf => event_from(continue_if(program_data, file_contents)),
        Opcode::ContinueNot => event_from(continue_not(program_data, file_contents)),
        Opcode::SetState => event_from(set_state(program_data, file_contents)),
        Opcode::Push => event_from(push(program_data, file_contents)),
        Opcode::Pop => event_from(pop(program_data, file_contents)),
        Opcode::LineInput => StepEvent::NeedLine,
        Opcode::SelectLeft => event_from(select_left(program_data, file_contents)),
        Opcode::SelectRight => event_from(select_right(program_data, file_contents)),
        Opcode::Increment => event_from(increment(program_data, file_contents)),
        Opcode::Reset => event_from(reset(program_data, file_contents)),
        Opcode::Add => event_from(crate::commands::add(program_data, file_contents)),
        Opcode::Subtract => event_from(subtract(program_data, file_contents)),
        Opcode::Count => event_from(count(program_data, file_contents)),
        Opcode::Print => {
            let ch = output_char(program_data.register_value);
            let mut s = String::new();
            host::push_char(&mut s, ch);
            advance(program_data, file_contents);
            proof {
                assert(s@ =~= seq![printed_char(old(program_data).register_value)]);
            }
            StepEvent::Output(s)
        },
        Opcode::NumericPrint => {
            let s = numeric_text(program_data.register_value);
            advance(program_data, file_contents);
            StepEvent::Output(s)
        },
        Opcode::Time => event_from(time(program_data, file_contents)),
        Opcode::Wait => {
            let ms = program_data.register_value;
            advance(program_data, file_contents);
            StepEvent::Sleep(ms)
        },
        Opcode::Random => event_from(generate_random(program_data, file_contents)),
    }
}

/// `post` is reached from `pre` by exactly `n` quiet steps: engine steps that
/// retire an instruction with no outside effect.
pub open spec fn quiet_steps(tape: Seq<char>, pre: ProgramData, post: ProgramData, n: int) -> bool
    decreases n,
{
    if n < 0 {
        false
    } else if n == 0 {
        post == pre
    } else {
        exists|mid: ProgramData|
            #[trigger] step_holds(pre, tape, mid, StepEvent::Ran) && quiet_steps(
                tape,
                mid,
                post,
                n - 1,
            )
    }
}

/// One more quiet step at the end of a quiet-step chain extends the chain.
proof fn lemma_quiet_steps_extend(
    tape: Seq<char>,
    pre: ProgramData,
    mid: ProgramData,
    post: ProgramData,
    n: int,
)
    requires
        quiet_steps(tape, pre, mid, n),
        step_holds(mid, tape, post, StepEvent::Ran),
    ensures
        quiet_steps(tape, pre, post, n + 1),
    decreases n,
{
    if n == 0 {
        assert(step_holds(pre, tape, post, StepEvent::Ran) && quiet_steps(tape, post, post, 0));
    } else {
        let first = choose|m: ProgramData|
            #[trigger] step_holds(pre, tape, m, StepEvent::Ran) && quiet_steps(tape, m, mid, n - 1);
        lemma_quiet_steps_extend(tape, first, mid, post, n - 1);
        assert(step_holds(pre, tape, first, StepEvent::Ran) && quiet_steps(tape, first, post, n));
    }
}

/// Runs the engine for at most `fuel` quiet steps, returning the first event
/// the host must act on — or `None` with the fuel spent. The machine is left
/// in a state reached from the initial one by exactly `r.1` quiet steps of
/// the step semantics, followed by the returned event's step if there is one;
/// the remaining claims tie the returned event to the state the machine was
/// left in.
pub fn run(program_data: &mut ProgramData, file_contents: &Vec<char>, fuel: u64) -> (r: (
    Option<StepEvent>,
    u64,
))
    ensures
        r.1 <= fuel,
        r.0 is None ==> r.1 == fuel,
        r.0 != Some(StepEvent::Ran),
        exists|mid: ProgramData|
            #[trigger] quiet_steps(file_contents@, *old(program_data), mid, r.1 as int) && (r.0
                is None ==> *final(program_data) == mid) && (r.0 matches Some(ev) ==> step_holds(
                mid,
                file_contents@,
                *final(program_data),
                ev,
            )),
        r.0 matches Some(ev) ==> match ev {
            StepEvent::Ran => false,
            StepEvent::Output(s) => 1 <= final(program_data).file_index <= file_contents@.len()
                && ((file_contents@[final(program_data).file_index - 1] == 'p' && s@ == seq![
                printed_char(final(program_data).register_value),
            ]) || (file_contents@[final(program_data).file_index - 1] == 'n' && s@ == hex_digits(
                final(program_data).register_value,
            ))),
            StepEvent::NeedLine => final(program_data).file_index < file_contents@.len()
                && file_contents@[final(program_data).file_index as int] == 'g',
            StepEvent::Sleep(ms) => 1 <= final(program_data).file_index <= file_contents@.len()
                && file_contents@[final(program_data).file_index - 1] == 'w'
                && final(program_data).register_value == ms,
            StepEvent::Halt(code) => match code {
                ExitCode::Success => final(program_data).file_index < file_contents@.len()
                    && file_contents@[final(program_data).file_index as int] == '@',
                ExitCode::EndOfFile => final(program_data).file_index >= file_contents@.len(),
                ExitCode::TokenUndefined => final(program_data).file_index < file_contents@.len()
                    && opcode_for(file_contents@[final(program_data).file_index as int]) is None,
                ExitCode::StateUndefined => forall|j: int|
                    0 <= j < file_contents@.len() ==> file_contents@[j] != state_char(
                        final(program_data).selected_state,
                    ),
                ExitCode::StackUnderflow => active_stack(*final(program_data)).len() == 0,
                ExitCode::InternalError => final(program_data).file_index < file_contents@.len()
                    && file_contents@[final(program_data).file_index as int] == 't'
                    && final(program_data).start_time is None,
            },
        },
{
    let mut steps: u64 = 0;
    while steps < fuel
        invariant
            steps <= fuel,
            quiet_steps(file_contents@, *old(program_data), *program_data, steps as int),
        decreases fuel - steps,
    {
        let ghost before = *program_data;
        let ev = step(program_data, file_contents);
        match &ev {
            StepEvent::Ran => {
                proof {
                    lemma_quiet_steps_extend(
                        file_contents@,
                        *old(program_data),
                        before,
                        *program_data,
                        steps as int,
                    );
                }
                steps += 1;
            },
            _ => {
                proof {
                    lemma_find_label_none(
                        file_contents@,
                        state_char(program_data.selected_state),
                        0,
                    );
                    assert(quiet_steps(file_contents@, *old(program_data), before, steps as int)
                        && step_holds(before, file_contents@, *program_data, ev));
                }
                return (Some(ev), steps);
            },
        }
    }
    (None, steps)
}

/// Builds the fresh machine and performs the engine's implicit entry
/// resolution: the run starts at the instruction following the first '0' in
/// the tape, the mandatory entry marker; a tape without one refuses to start
/// with `StateUndefined`.
pub fn start(file_contents: &Vec<char>) -> (r: (ProgramData, Option<ExitCode>))
    ensures
        r.0.direction == Direction::Right,
        r.0.left_stack@ == Seq::<u8>::empty(),
        r.0.right_stack@ == Seq::<u8>::empty(),
        r.0.register_value == 0,
        r.0.selected_state == State::State0,
        match find_label(file_contents@, '0', 0) {
            Some(q) => r.1 == None::<ExitCode> && r.0.file_index == q + 1,
            None => r.1 == Some(ExitCode::StateUndefined) && r.0.file_index == 0,
        },
{
    let mut program_data = ProgramData::new();
    let entry = go_to_state(&mut program_data, file_contents);
    (program_data, entry)
}

} // verus!
