//! The machine's data model: the terminal codes, the sixteen labels, the
//! direction flag, and the mutable machine state that every operation reads
//! and writes.

use vstd::prelude::*;

use crate::host;

verus! {

/// The outcome that ends a run.
#[derive(Clone, Copy, PartialEq, Eq, Debug, Structural)]
pub enum ExitCode {
    Success,
    EndOfFile,
    TokenUndefined,
    StateUndefined,
    StackUnderflow,
    InternalError,
}

/// The sixteen symbolic jump targets, named in source text by the hexadecimal
/// digits '0'-'9' and 'A'-'F'.
#[derive(Clone, Copy, PartialEq, Eq, Debug, Structural)]
pub enum State {
    State0,
    State1,
    State2,
    State3,
    State4,
    State5,
    State6,
    State7,
    State8,
    State9,
    StateA,
    StateB,
    StateC,
    StateD,
    StateE,
    StateF,
}

/// Selects which half of the register and which of the two stacks is active.
#[derive(Clone, Copy, PartialEq, Eq, Debug, Structural)]
pub enum Direction {
    Left,
    Right,
}

/// The machine state: instruction pointer, direction flag, the two stacks,
/// the byte register, the active label, and the clock snapshot used by the
/// time-read operation. The snapshot is the last-observed instant as whole
/// milliseconds since the Unix epoch — `None` when that instant lay before
/// the epoch, which the time read reports as an internal error.
pub struct ProgramData {
    pub file_index: usize,
    pub direction: Direction,
    pub left_stack: Vec<u8>,
    pub right_stack: Vec<u8>,
    pub register_value: u8,
    pub selected_state: State,
    pub start_time: Option<u128>,
}

/// Bits 4-7 of the register, acted on by Left-direction operations.
pub open spec fn high_nibble(v: u8) -> u8 {
    v / 16
}

/// Bits 0-3 of the register, acted on by Right-direction operations.
pub open spec fn low_nibble(v: u8) -> u8 {
    v % 16
}

/// The half of the register selected by the direction flag.
pub open spec fn active_nibble(pd: ProgramData) -> u8 {
    match pd.direction {
        Direction::Left => high_nibble(pd.register_value),
        Direction::Right => low_nibble(pd.register_value),
    }
}

/// The contents of the stack selected by the direction flag, bottom first.
pub open spec fn active_stack(pd: ProgramData) -> Seq<u8> {
    match pd.direction {
        Direction::Left => pd.left_stack@,
        Direction::Right => pd.right_stack@,
    }
}

/// The contents of the stack not selected by the direction flag.
pub open spec fn inactive_stack(pd: ProgramData) -> Seq<u8> {
    match pd.direction {
        Direction::Left => pd.right_stack@,
        Direction::Right => pd.left_stack@,
    }
}

/// The character that names a label in source text.
pub open spec fn state_char(s: State) -> char {
    match s {
        State::State0 => '0',
        State::State1 => '1',
        State::State2 => '2',
        State::State3 => '3',
        State::State4 => '4',
        State::State5 => '5',
        State::State6 => '6',
        State::State7 => '7',
        State::State8 => '8',
        State::State9 => '9',
        State::StateA => 'A',
        State::StateB => 'B',
        State::StateC => 'C',
        State::StateD => 'D',
        State::StateE => 'E',
        State::StateF => 'F',
    }
}

/// The label selected by a nibble value.
pub open spec fn state_of_nibble(n: u8) -> State
    recommends
        n < 16,
{
    if n == 0 {
        State::State0
    } else if n == 1 {
        State::State1
    } else if n == 2 {
        State::State2
    } else if n == 3 {
        State::State3
    } else if n == 4 {
        State::State4
    } else if n == 5 {
        State::State5
    } else if n == 6 {
        State::State6
    } else if n == 7 {
        State::State7
    } else if n == 8 {
        State::State8
    } else if n == 9 {
        State::State9
    } else if n == 10 {
        State::StateA
    } else if n == 11 {
        State::StateB
    } else if n == 12 {
        State::StateC
    } else if n == 13 {
        State::StateD
    } else if n == 14 {
        State::StateE
    } else {
        State::StateF
    }
}

/// Holds when `post` is `pre` with the instruction pointer moved to `idx` and
/// every other component untouched.
pub open spec fn stepped_to(pre: ProgramData, post: ProgramData, idx: int) -> bool {
    &&& post.file_index == idx
    &&& post.direction == pre.direction
    &&& post.left_stack@ == pre.left_stack@
    &&& post.right_stack@ == pre.right_stack@
    &&& post.register_value == pre.register_value
    &&& post.selected_state == pre.selected_state
    &&& post.start_time == pre.start_time
}

/// The diagnostic text for each terminal code; empty on success, where
/// nothing is reported.
pub open spec fn message_spec(e: ExitCode) -> Seq<char> {
    match e {
        ExitCode::Success => ""@,
        ExitCode::EndOfFile => "end of file"@,
        ExitCode::TokenUndefined => "token undefined"@,
        ExitCode::StateUndefined => "state undefined"@,
        ExitCode::StackUnderflow => "stack underflow"@,
        ExitCode::InternalError => "internal error occurred"@,
    }
}

impl ExitCode {
    /// The diagnostic text reported on a non-success terminal code.
    pub fn message(&self) -> (m: &'static str)
        ensures
            m@ == message_spec(*self),
    {
        match self {
            ExitCode::Success => "",
            ExitCode::EndOfFile => "end of file",
            ExitCode::TokenUndefined => "token undefined",
            ExitCode::StateUndefined => "state undefined",
            ExitCode::StackUnderflow => "stack underflow",
            ExitCode::InternalError => "internal error occurred",
        }
    }
}

impl ProgramData {
    /// A fresh machine: pointer 0, stacks empty, register 0, direction Right,
    /// label 0 selected, and the clock snapshot taken now.
    pub fn new() -> (pd: ProgramData)
        ensures
            pd.file_index == 0,
            pd.direction == Direction::Right,
            pd.left_stack@ == Seq::<u8>::empty(),
            pd.right_stack@ == Seq::<u8>::empty(),
            pd.register_value == 0,
            pd.selected_state == State::State0,
    {
        ProgramData {
            file_index: 0,
            direction: Direction::Right,
            left_stack: Vec::new(),
            right_stack: Vec::new(),
            register_value: 0,
            selected_state: State::State0,
            start_time: host::now_millis(),
        }
    }
}

} // verus!
