//! The operation set: one function per instruction, each a state transition
//! on `ProgramData`, returning `None` to continue or `Some(code)` to end the
//! run.

use vstd::prelude::*;

use crate::host;
use crate::types::{
    active_nibble, active_stack, high_nibble, inactive_stack, low_nibble, state_char,
    state_of_nibble, stepped_to, Direction, ExitCode, ProgramData, State,
};

verus! {

// ---------------------------------------------------------------------------
// Label search
// ---------------------------------------------------------------------------

/// The smallest index at or after `from` whose tape character is `c`, if any.
pub open spec fn find_label(tape: Seq<char>, c: char, from: int) -> Option<int>
    recommends
        0 <= from,
    decreases tape.len() - from,
{
    if from >= tape.len() {
        None
    } else if tape[from] == c {
        Some(from)
    } else {
        find_label(tape, c, from + 1)
    }
}

/// Law: a successful label search returns the smallest matching index at or
/// after `from`: the match lies in range, holds the character, and every
/// earlier position from `from` on differs.
pub proof fn lemma_find_label_smallest(tape: Seq<char>, c: char, from: int, q: int)
    requires
        0 <= from,
        find_label(tape, c, from) == Some(q),
    ensures
        from <= q < tape.len(),
        tape[q] == c,
        forall|j: int| from <= j < q ==> tape[j] != c,
    decreases tape.len() - from,
{
    if from < tape.len() && tape[from] != c {
        lemma_find_label_smallest(tape, c, from + 1, q);
    }
}

/// Law: a failed label search means the character occurs nowhere at or after
/// `from`.
pub proof fn lemma_find_label_none(tape: Seq<char>, c: char, from: int)
    requires
        0 <= from,
    ensures
        find_label(tape, c, from) is None ==> forall|j: int|
            from <= j < tape.len() ==> tape[j] != c,
    decreases tape.len() - from,
{
    if from < tape.len() {
        lemma_find_label_none(tape, c, from + 1);
    }
}

/// Finds the first occurrence of `c` in the tape at or after `start`.
pub fn find_char(file_contents: &Vec<char>, c: char, start: usize) -> (r: Option<usize>)
    ensures
        match r {
            Some(q) => find_label(file_contents@, c, start as int) == Some(q as int) && q
                < file_contents@.len(),
            None => find_label(file_contents@, c, start as int) is None,
        },
{
    let mut i: usize = start;
    while i < file_contents.len()
        invariant
            start <= i,
            find_label(file_contents@, c, start as int) == find_label(file_contents@, c, i as int),
        decreases file_contents@.len() - i,
    {
        if file_contents[i] == c {
            return Some(i);
        }
        i += 1;
    }
    None
}

// ---------------------------------------------------------------------------
// Terminal and pointer operations
// ---------------------------------------------------------------------------

/// The terminate operation (`@`): ends the run successfully, touching
/// nothing.
pub fn terminate(program_data: &mut ProgramData, file_contents: &Vec<char>) -> (r: Option<
    ExitCode,
>)
    ensures
        r == Some(ExitCode::Success),
        *final(program_data) == *old(program_data),
{
    Option::Some(ExitCode::Success)
}

/// What advancing does: the pointer moves one step right and nothing else
/// changes.
pub open spec fn advance_post(pre: ProgramData, post: ProgramData) -> bool {
    stepped_to(pre, post, pre.file_index + 1)
}

/// The advance operation (space and the label digits): moves the instruction
/// pointer one step right.
pub fn advance(program_data: &mut ProgramData, file_contents: &Vec<char>) -> (r: Option<ExitCode>)
    requires
        old(program_data).file_index < usize::MAX,
    ensures
        r is None,
        advance_post(*old(program_data), *final(program_data)),
{
    program_data.file_index += 1;
    Option::None
}

// ---------------------------------------------------------------------------
// Label jumps
// ---------------------------------------------------------------------------

/// Where a label jump lands: one past the first occurrence of the active
/// label's character at or after the pointer, else one past its first
/// occurrence anywhere, else nowhere.
pub open spec fn go_target(tape: Seq<char>, pre: ProgramData) -> Option<int> {
    let c = state_char(pre.selected_state);
    match find_label(tape, c, pre.file_index as int) {
        Some(q) => Some(q + 1),
        None => match find_label(tape, c, 0) {
            Some(q) => Some(q + 1),
            None => None,
        },
    }
}

/// A label jump ends the run with `StateUndefined` exactly when its label
/// character occurs nowhere in the tape.
pub open spec fn go_code(tape: Seq<char>, pre: ProgramData) -> Option<ExitCode> {
    if go_target(tape, pre) is Some {
        None
    } else {
        Some(ExitCode::StateUndefined)
    }
}

/// What a label jump does to the state: the pointer moves to the jump target
/// and nothing else changes; on a failed search nothing changes at all.
pub open spec fn go_post(tape: Seq<char>, pre: ProgramData, post: ProgramData) -> bool {
    match go_target(tape, pre) {
        Some(t) => stepped_to(pre, post, t),
        None => stepped_to(pre, post, pre.file_index as int),
    }
}

/// The go-to-state operation (`&`): jumps to the instruction following the
/// active label, searching from the pointer first and from the start of the
/// tape second.
pub fn go_to_state(program_data: &mut ProgramData, file_contents: &Vec<char>) -> (r: Option<
    ExitCode,
>)
    ensures
        r == go_code(file_contents@, *old(program_data)),
        go_post(file_contents@, *old(program_data), *final(program_data)),
{
    let c = state_to_char(&program_data.selected_state);
    proof {
        vstd::std_specs::vec::axiom_spec_len(file_contents);
    }
    match find_char(file_contents, c, program_data.file_index) {
        Some(q) => {
            program_data.file_index = q + 1;
            Option::None
        },
        None => match find_char(file_contents, c, 0) {
            Some(q) => {
                program_data.file_index = q + 1;
                Option::None
            },
            None => Option::Some(ExitCode::StateUndefined),
        },
    }
}

/// The set-state operation (`$`): selects the label named by the active
/// nibble, then advances.
pub fn set_state(program_data: &mut ProgramData, file_contents: &Vec<char>) -> (r: Option<
    ExitCode,
>)
    requires
        old(program_data).file_index < usize::MAX,
    ensures
        r is None,
        set_state_post(*old(program_data), *final(program_data)),
{
    let value = match program_data.direction {
        Direction::Left => program_data.register_value / 16,
        Direction::Right => program_data.register_value % 16,
    };
    program_data.selected_state = match value {
        0u8 => State::State0,
        1u8 => State::State1,
        2u8 => State::State2,
        3u8 => State::State3,
        4u8 => State::State4,
        5u8 => State::State5,
        6u8 => State::State6,
        7u8 => State::State7,
        8u8 => State::State8,
        9u8 => State::State9,
        10u8 => State::StateA,
        11u8 => State::StateB,
        12u8 => State::StateC,
        13u8 => State::StateD,
        14u8 => State::StateE,
        15u8 => State::StateF,
        _ => {
            return Option::Some(ExitCode::InternalError);
        },
    };
    advance(program_data, file_contents);
    Option::None
}

/// What set-state does: the active nibble names the new label, the pointer
/// advances, and everything else is untouched.
pub open spec fn set_state_post(pre: ProgramData, post: ProgramData) -> bool {
    &&& post.selected_state == state_of_nibble(active_nibble(pre))
    &&& post.file_index == pre.file_index + 1
    &&& post.direction == pre.direction
    &&& post.left_stack@ == pre.left_stack@
    &&& post.right_stack@ == pre.right_stack@
    &&& post.register_value == pre.register_value
    &&& post.start_time == pre.start_time
}

/// The character that names the given label in source text.
pub fn state_to_char(state: &State) -> (c: char)
    ensures
        c == state_char(*state),
{
    match state {
        State::State0 => '0',
        State::State1 => '1',
        State::State2 => '2',
        State::State3 => '3',
        State::State4 => '4',
        State::State5 => '5',
        State::State6 => '6',
        State::State7 => '7',
        State::State8 => '8',
        State::State9 => '9',
        State::StateA => 'A',
        State::StateB => 'B',
        State::StateC => 'C',
        State::StateD => 'D',
        State::StateE => 'E',
        State::StateF => 'F',
    }
}

// ---------------------------------------------------------------------------
// Conditional jumps
// ---------------------------------------------------------------------------

/// The active nibble of the register, behind a fallible accessor for the
/// conditional jumps — though no failure is possible.
pub fn get_register_value(program_data: &mut ProgramData) -> (r: Result<u8, ExitCode>)
    ensures
        r == Ok::<u8, ExitCode>(active_nibble(*old(program_data))),
        *final(program_data) == *old(program_data),
{
    match program_data.direction {
        Direction::Left => Ok(program_data.register_value / 16),
        Direction::Right => Ok(program_data.register_value % 16),
    }
}

/// When continue-if ends the run: only through a failed label search, taken
/// when the active nibble is zero.
pub open spec fn continue_if_code(tape: Seq<char>, pre: ProgramData) -> Option<ExitCode> {
    if active_nibble(pre) == 0 {
        go_code(tape, pre)
    } else {
        None
    }
}

/// What continue-if does: a label jump when the active nibble is zero, a
/// plain advance otherwise.
pub open spec fn continue_if_post(tape: Seq<char>, pre: ProgramData, post: ProgramData) -> bool {
    if active_nibble(pre) == 0 {
        go_post(tape, pre, post)
    } else {
        advance_post(pre, post)
    }
}

/// The continue-if operation (`?`): jumps to the active label when the active
/// nibble is zero, otherwise advances.
pub fn continue_if(program_data: &mut ProgramData, file_contents: &Vec<char>) -> (r: Option<
    ExitCode,
>)
    requires
        old(program_data).file_index < usize::MAX,
    ensures
        r == continue_if_code(file_contents@, *old(program_data)),
        continue_if_post(file_contents@, *old(program_data), *final(program_data)),
{
    match get_register_value(program_data) {
        Err(exit_code) => Option::Some(exit_code),
        Ok(value) => {
            if value == 0 {
                go_to_state(program_data, file_contents)
            } else {
                advance(program_data, file_contents)
            }
        },
    }
}

/// When continue-not ends the run: only through a failed label search, taken
/// when the active nibble is not zero.
pub open spec fn continue_not_code(tape: Seq<char>, pre: ProgramData) -> Option<ExitCode> {
    if active_nibble(pre) == 0 {
        None
    } else {
        go_code(tape, pre)
    }
}

/// What continue-not does: a plain advance when the active nibble is zero, a
/// label jump otherwise.
pub open spec fn continue_not_post(tape: Seq<char>, pre: ProgramData, post: ProgramData) -> bool {
    if active_nibble(pre) == 0 {
        advance_post(pre, post)
    } else {
        go_post(tape, pre, post)
    }
}

/// The continue-not operation (`!`): advances when the active nibble is zero,
/// otherwise jumps to the active label.
pub fn continue_not(program_data: &mut ProgramData, file_contents: &Vec<char>) -> (r: Option<
    ExitCode,
>)
    requires
        old(program_data).file_index < usize::MAX,
    ensures
        r == continue_not_code(file_contents@, *old(program_data)),
        continue_not_post(file_contents@, *old(program_data), *final(program_data)),
{
    match get_register_value(program_data) {
        Err(exit_code) => Option::Some(exit_code),
        Ok(value) => {
            if value == 0 {
                advance(program_data, file_contents)
            } else {
                go_to_state(program_data, file_contents)
            }
        },
    }
}

// ---------------------------------------------------------------------------
// Stack operations
// ---------------------------------------------------------------------------

/// The stack selected by the direction flag.
pub fn get_stack(program_data: &ProgramData) -> (stack: &Vec<u8>)
    ensures
        stack@ == active_stack(*program_data),
{
    match program_data.direction {
        Direction::Left => &program_data.left_stack,
        Direction::Right => &program_data.right_stack,
    }
}

/// What pushing does: the register lands on top of the active stack, the
/// pointer advances, and everything else is untouched.
pub open spec fn push_post(pre: ProgramData, post: ProgramData) -> bool {
    &&& active_stack(post) == active_stack(pre).push(pre.register_value)
    &&& inactive_stack(post) == inactive_stack(pre)
    &&& post.file_index == pre.file_index + 1
    &&& post.direction == pre.direction
    &&& post.register_value == pre.register_value
    &&& post.selected_state == pre.selected_state
    &&& post.start_time == pre.start_time
}

/// The push operation (`^`): pushes the register onto the active stack, then
/// advances.
pub fn push(program_data: &mut ProgramData, file_contents: &Vec<char>) -> (r: Option<ExitCode>)
    requires
        old(program_data).file_index < usize::MAX,
    ensures
        r is None,
        push_post(*old(program_data), *final(program_data)),
{
    let register_value = program_data.register_value;
    match program_data.direction {
        Direction::Left => program_data.left_stack.push(register_value),
        Direction::Right => program_data.right_stack.push(register_value),
    }
    advance(program_data, file_contents);
    Option::None
}

/// Pops the active stack, or reports `StackUnderflow` when it is empty,
/// leaving the state untouched.
pub fn get_stack_value(program_data: &mut ProgramData) -> (r: Result<u8, ExitCode>)
    ensures
        active_stack(*old(program_data)).len() > 0 ==> r == Ok::<u8, ExitCode>(
            active_stack(*old(program_data)).last(),
        ) && active_stack(*final(program_data)) == active_stack(*old(program_data)).drop_last(),
        active_stack(*old(program_data)).len() == 0 ==> r == Err::<u8, ExitCode>(
            ExitCode::StackUnderflow,
        ) && active_stack(*final(program_data)) == active_stack(*old(program_data)),
        inactive_stack(*final(program_data)) == inactive_stack(*old(program_data)),
        final(program_data).file_index == old(program_data).file_index,
        final(program_data).direction == old(program_data).direction,
        final(program_data).register_value == old(program_data).register_value,
        final(program_data).selected_state == old(program_data).selected_state,
        final(program_data).start_time == old(program_data).start_time,
{
    let popped = match program_data.direction {
        Direction::Left => program_data.left_stack.pop(),
        Direction::Right => program_data.right_stack.pop(),
    };
    match popped {
        None => Err(ExitCode::StackUnderflow),
        Some(value) => Ok(value),
    }
}

/// A pop ends the run with `StackUnderflow` exactly when the active stack is
/// empty.
pub open spec fn pop_code(pre: ProgramData) -> Option<ExitCode> {
    if active_stack(pre).len() > 0 {
        None
    } else {
        Some(ExitCode::StackUnderflow)
    }
}

/// What popping does: the top of the active stack moves into the register and
/// the pointer advances; on an empty stack nothing changes.
pub open spec fn pop_post(pre: ProgramData, post: ProgramData) -> bool {
    if active_stack(pre).len() > 0 {
        &&& post.register_value == active_stack(pre).last()
        &&& active_stack(post) == active_stack(pre).drop_last()
        &&& inactive_stack(post) == inactive_stack(pre)
        &&& post.file_index == pre.file_index + 1
        &&& post.direction == pre.direction
        &&& post.selected_state == pre.selected_state
        &&& post.start_time == pre.start_time
    } else {
        stepped_to(pre, post, pre.file_index as int)
    }
}

/// The pop operation (`v`): pops the active stack into the register, then
/// advances.
pub fn pop(program_data: &mut ProgramData, file_contents: &Vec<char>) -> (r: Option<ExitCode>)
    requires
        old(program_data).file_index < usize::MAX,
    ensures
        r == pop_code(*old(program_data)),
        pop_post(*old(program_data), *final(program_data)),
{
    match get_stack_value(program_data) {
        Err(exit_code) => {
            return Option::Some(exit_code);
        },
        Ok(value) => program_data.register_value = value,
    }
    advance(program_data, file_contents);
    Option::None
}

/// Pops the active stack twice; the value popped first is the left operand of
/// the arithmetic operations. On a one-element stack the single element is
/// consumed before the failure is reported.
pub fn get_stack_values(program_data: &mut ProgramData) -> (r: Result<(u8, u8), ExitCode>)
    ensures
        active_stack(*old(program_data)).len() >= 2 ==> (r matches Ok(pair) && pair.0
            == active_stack(*old(program_data)).last() && pair.1 == active_stack(
            *old(program_data),
        )[active_stack(*old(program_data)).len() - 2] && active_stack(*final(program_data))
            == active_stack(*old(program_data)).take(active_stack(*old(program_data)).len() - 2)),
        active_stack(*old(program_data)).len() < 2 ==> r == Err::<(u8, u8), ExitCode>(
            ExitCode::StackUnderflow,
        ) && active_stack(*final(program_data)).len() == 0,
        inactive_stack(*final(program_data)) == inactive_stack(*old(program_data)),
        final(program_data).file_index == old(program_data).file_index,
        final(program_data).direction == old(program_data).direction,
        final(program_data).register_value == old(program_data).register_value,
        final(program_data).selected_state == old(program_data).selected_state,
        final(program_data).start_time == old(program_data).start_time,
{
    let first_value = match get_stack_value(program_data) {
        Err(exit_code) => {
            return Err(exit_code);
        },
        Ok(value) => value,
    };
    let second_value = match get_stack_value(program_data) {
        Err(exit_code) => {
            return Err(exit_code);
        },
        Ok(value) => value,
    };
    proof {
        assert(active_stack(*final(program_data)) =~= active_stack(*old(program_data)).take(
            active_stack(*old(program_data)).len() - 2,
        ));
    }
    Ok((first_value, second_value))
}

/// An arithmetic operation ends the run with `StackUnderflow` exactly when
/// the active stack holds fewer than two elements.
pub open spec fn arith_code(pre: ProgramData) -> Option<ExitCode> {
    if active_stack(pre).len() >= 2 {
        None
    } else {
        Some(ExitCode::StackUnderflow)
    }
}

/// The fields an arithmetic operation never touches, and the fate of a stack
/// with fewer than two elements: it is drained before the failure is
/// reported, with the pointer and register untouched.
pub open spec fn arith_frame(pre: ProgramData, post: ProgramData) -> bool {
    &&& inactive_stack(post) == inactive_stack(pre)
    &&& post.direction == pre.direction
    &&& post.selected_state == pre.selected_state
    &&& post.start_time == pre.start_time
    &&& (active_stack(pre).len() < 2 ==> active_stack(post).len() == 0 && post.file_index
        == pre.file_index && post.register_value == pre.register_value)
}

/// What addition does: the two top elements leave the active stack, their
/// wrapping sum (first popped plus second popped, mod 256) lands in the
/// register, and the pointer advances.
pub open spec fn add_post(pre: ProgramData, post: ProgramData) -> bool {
    &&& arith_frame(pre, post)
    &&& (active_stack(pre).len() >= 2 ==> {
        &&& post.register_value == (active_stack(pre).last() + active_stack(pre)[active_stack(
            pre,
        ).len() - 2]) % 256
        &&& active_stack(post) == active_stack(pre).take(active_stack(pre).len() - 2)
        &&& post.file_index == pre.file_index + 1
    })
}

/// The add operation (`+`): pops two values and stores their wrapping sum.
pub fn add(program_data: &mut ProgramData, file_contents: &Vec<char>) -> (r: Option<ExitCode>)
    requires
        old(program_data).file_index < usize::MAX,
    ensures
        r == arith_code(*old(program_data)),
        add_post(*old(program_data), *final(program_data)),
{
    match get_stack_values(program_data) {
        Err(exit_code) => {
            return Option::Some(exit_code);
        },
        Ok((first_value, second_value)) => {
            program_data.register_value = first_value.wrapping_add(second_value);
        },
    }
    advance(program_data, file_contents);
    Option::None
}

/// What subtraction does: the two top elements leave the active stack, their
/// wrapping difference (first popped minus second popped, mod 256) lands in
/// the register, and the pointer advances.
pub open spec fn sub_post(pre: ProgramData, post: ProgramData) -> bool {
    &&& arith_frame(pre, post)
    &&& (active_stack(pre).len() >= 2 ==> {
        &&& post.register_value == (active_stack(pre).last() - active_stack(pre)[active_stack(
            pre,
        ).len() - 2]) % 256
        &&& active_stack(post) == active_stack(pre).take(active_stack(pre).len() - 2)
        &&& post.file_index == pre.file_index + 1
    })
}

/// The subtract operation (`-`): pops two values and stores their wrapping
/// difference.
pub fn subtract(program_data: &mut ProgramData, file_contents: &Vec<char>) -> (r: Option<ExitCode>)
    requires
        old(program_data).file_index < usize::MAX,
    ensures
        r == arith_code(*old(program_data)),
        sub_post(*old(program_data), *final(program_data)),
{
    match get_stack_values(program_data) {
        Err(exit_code) => {
            return Option::Some(exit_code);
        },
        Ok((first_value, second_value)) => {
            program_data.register_value = first_value.wrapping_sub(second_value);
        },
    }
    advance(program_data, file_contents);
    Option::None
}

/// What counting does: the register becomes the active stack's length,
/// saturated at 255, and the pointer advances; the stacks are untouched.
pub open spec fn count_post(pre: ProgramData, post: ProgramData) -> bool {
    &&& post.register_value == vstd::math::min(active_stack(pre).len() as int, 255)
    &&& post.left_stack@ == pre.left_stack@
    &&& post.right_stack@ == pre.right_stack@
    &&& post.file_index == pre.file_index + 1
    &&& post.direction == pre.direction
    &&& post.selected_state == pre.selected_state
    &&& post.start_time == pre.start_time
}

/// The count operation (`#`): stores the active stack's length, saturated at
/// 255, in the register.
pub fn count(program_data: &mut ProgramData, file_contents: &Vec<char>) -> (r: Option<ExitCode>)
    requires
        old(program_data).file_index < usize::MAX,
    ensures
        r is None,
        count_post(*old(program_data), *final(program_data)),
{
    let n = match program_data.direction {
        Direction::Left => program_data.left_stack.len(),
        Direction::Right => program_data.right_stack.len(),
    };
    program_data.register_value = if n > 255 {
        255
    } else {
        n as u8
    };
    advance(program_data, file_contents);
    Option::None
}

// ---------------------------------------------------------------------------
// Direction and register operations
// ---------------------------------------------------------------------------

/// What selecting a direction does: the flag changes, the pointer advances,
/// and everything else is untouched.
pub open spec fn select_post(pre: ProgramData, post: ProgramData, d: Direction) -> bool {
    &&& post.direction == d
    &&& post.file_index == pre.file_index + 1
    &&& post.left_stack@ == pre.left_stack@
    &&& post.right_stack@ == pre.right_stack@
    &&& post.register_value == pre.register_value
    &&& post.selected_state == pre.selected_state
    &&& post.start_time == pre.start_time
}

/// The select-left operation (`<`).
pub fn select_left(program_data: &mut ProgramData, file_contents: &Vec<char>) -> (r: Option<
    ExitCode,
>)
    requires
        old(program_data).file_index < usize::MAX,
    ensures
        r is None,
        select_post(*old(program_data), *final(program_data), Direction::Left),
{
    program_data.direction = Direction::Left;
    advance(program_data, file_contents);
    Option::None
}

/// The select-right operation (`>`).
pub fn select_right(program_data: &mut ProgramData, file_contents: &Vec<char>) -> (r: Option<
    ExitCode,
>)
    requires
        old(program_data).file_index < usize::MAX,
    ensures
        r is None,
        select_post(*old(program_data), *final(program_data), Direction::Right),
{
    program_data.direction = Direction::Right;
    advance(program_data, file_contents);
    Option::None
}

/// What incrementing does: the active nibble rises by one, modulo 16 — with
/// full-byte wraparound under Left, where the high nibble is the active one —
/// and the pointer advances.
pub open spec fn increment_post(pre: ProgramData, post: ProgramData) -> bool {
    &&& (pre.direction == Direction::Left ==> post.register_value == (pre.register_value + 16)
        % 256)
    &&& (pre.direction == Direction::Right ==> post.register_value == high_nibble(
        pre.register_value,
    ) * 16 + (low_nibble(pre.register_value) + 1) % 16)
    &&& post.file_index == pre.file_index + 1
    &&& post.direction == pre.direction
    &&& post.left_stack@ == pre.left_stack@
    &&& post.right_stack@ == pre.right_stack@
    &&& post.selected_state == pre.selected_state
    &&& post.start_time == pre.start_time
}

/// The increment operation (`*`): increments the active nibble modulo 16.
pub fn increment(program_data: &mut ProgramData, file_contents: &Vec<char>) -> (r: Option<
    ExitCode,
>)
    requires
        old(program_data).file_index < usize::MAX,
    ensures
        r is None,
        increment_post(*old(program_data), *final(program_data)),
{
    program_data.register_value = match program_data.direction {
        Direction::Left => program_data.register_value.wrapping_add(16),
        Direction::Right => {
            (program_data.register_value / 16 * 16) + ((program_data.register_value % 16 + 1) % 16)
        },
    };
    advance(program_data, file_contents);
    Option::None
}

/// What resetting does: the active nibble becomes zero — under Left the
/// register keeps only its low nibble, under Right only its high nibble — and
/// the pointer advances.
pub open spec fn reset_post(pre: ProgramData, post: ProgramData) -> bool {
    &&& (pre.direction == Direction::Left ==> post.register_value == pre.register_value % 16)
    &&& (pre.direction == Direction::Right ==> post.register_value == (pre.register_value / 16)
        * 16)
    &&& post.file_index == pre.file_index + 1
    &&& post.direction == pre.direction
    &&& post.left_stack@ == pre.left_stack@
    &&& post.right_stack@ == pre.right_stack@
    &&& post.selected_state == pre.selected_state
    &&& post.start_time == pre.start_time
}

/// The reset operation (`.`): zeroes the active nibble, preserving the other.
pub fn reset(program_data: &mut ProgramData, file_contents: &Vec<char>) -> (r: Option<ExitCode>)
    requires
        old(program_data).file_index < usize::MAX,
    ensures
        r is None,
        reset_post(*old(program_data), *final(program_data)),
{
    program_data.register_value = match program_data.direction {
        Direction::Left => program_data.register_value % 16,
        Direction::Right => program_data.register_value / 16 * 16,
    };
    advance(program_data, file_contents);
    Option::None
}

// ---------------------------------------------------------------------------
// Operations on the outside world
// ---------------------------------------------------------------------------

/// The time read ends the run with `InternalError` exactly when the stored
/// snapshot lay before the epoch.
pub open spec fn time_code(pre: ProgramData) -> Option<ExitCode> {
    if pre.start_time is Some {
        None
    } else {
        Some(ExitCode::InternalError)
    }
}

/// What the time read does: the register takes the snapshot's milliseconds
/// modulo 256, the snapshot is retaken — the one value this contract cannot
/// pin down — and the pointer advances; on an unreadable snapshot nothing
/// changes.
pub open spec fn time_post(pre: ProgramData, post: ProgramData) -> bool {
    match pre.start_time {
        Some(ms) => {
            &&& post.register_value == (ms % 256) as u8
            &&& post.file_index == pre.file_index + 1
            &&& post.direction == pre.direction
            &&& post.left_stack@ == pre.left_stack@
            &&& post.right_stack@ == pre.right_stack@
            &&& post.selected_state == pre.selected_state
        },
        None => post == pre,
    }
}

/// The time operation (`t`): stores the clock snapshot's milliseconds since
/// the epoch, modulo 256, then resets the snapshot to now. On the first read
/// this yields the program's start time modulo 256, not an elapsed duration.
pub fn time(program_data: &mut ProgramData, file_contents: &Vec<char>) -> (r: Option<ExitCode>)
    requires
        old(program_data).file_index < usize::MAX,
    ensures
        r == time_code(*old(program_data)),
        time_post(*old(program_data), *final(program_data)),
{
    let ms = match program_data.start_time {
        None => {
            return Option::Some(ExitCode::InternalError);
        },
        Some(ms) => ms,
    };
    program_data.register_value = (ms % 256) as u8;
    program_data.start_time = host::now_millis();
    advance(program_data, file_contents);
    Option::None
}

/// The fields the random operation never touches: everything but the
/// register, whose new value no contract can pin down.
pub open spec fn random_post(pre: ProgramData, post: ProgramData) -> bool {
    &&& post.file_index == pre.file_index + 1
    &&& post.direction == pre.direction
    &&& post.left_stack@ == pre.left_stack@
    &&& post.right_stack@ == pre.right_stack@
    &&& post.selected_state == pre.selected_state
    &&& post.start_time == pre.start_time
}

/// The random operation (`~`): stores a random byte in the register.
pub fn generate_random(program_data: &mut ProgramData, file_contents: &Vec<char>) -> (r: Option<
    ExitCode,
>)
    requires
        old(program_data).file_index < usize::MAX,
    ensures
        r is None,
        random_post(*old(program_data), *final(program_data)),
{
    program_data.register_value = host::random_byte();
    advance(program_data, file_contents);
    Option::None
}

/// The character the print operation writes: the register as an ASCII
/// character, or the replacement character for a non-ASCII byte.
pub open spec fn printed_char(v: u8) -> char {
    if v <= 127 {
        v as char
    } else {
        '\u{FFFD}'
    }
}

/// The character the print operation (`p`) writes for a register value.
pub fn output_char(v: u8) -> (c: char)
    ensures
        c == printed_char(v),
{
    if v <= 127 {
        v as char
    } else {
        '\u{FFFD}'
    }
}

/// The uppercase character for one hexadecimal digit.
pub open spec fn hex_digit_char(n: u8) -> char
    recommends
        n < 16,
{
    if n == 0 {
        '0'
    } else if n == 1 {
        '1'
    } else if n == 2 {
        '2'
    } else if n == 3 {
        '3'
    } else if n == 4 {
        '4'
    } else if n == 5 {
        '5'
    } else if n == 6 {
        '6'
    } else if n == 7 {
        '7'
    } else if n == 8 {
        '8'
    } else if n == 9 {
        '9'
    } else if n == 10 {
        'A'
    } else if n == 11 {
        'B'
    } else if n == 12 {
        'C'
    } else if n == 13 {
        'D'
    } else if n == 14 {
        'E'
    } else {
        'F'
    }
}

/// The uppercase character for one hexadecimal digit.
pub fn hex_digit(n: u8) -> (c: char)
    requires
        n < 16,
    ensures
        c == hex_digit_char(n),
{
    if n == 0 {
        '0'
    } else if n == 1 {
        '1'
    } else if n == 2 {
        '2'
    } else if n == 3 {
        '3'
    } else if n == 4 {
        '4'
    } else if n == 5 {
        '5'
    } else if n == 6 {
        '6'
    } else if n == 7 {
        '7'
    } else if n == 8 {
        '8'
    } else if n == 9 {
        '9'
    } else if n == 10 {
        'A'
    } else if n == 11 {
        'B'
    } else if n == 12 {
        'C'
    } else if n == 13 {
        'D'
    } else if n == 14 {
        'E'
    } else {
        'F'
    }
}

/// The digits the numeric print writes: the register in uppercase
/// hexadecimal with no leading zero padding.
pub open spec fn hex_digits(v: u8) -> Seq<char> {
    if v < 16 {
        seq![hex_digit_char(v)]
    } else {
        seq![hex_digit_char(high_nibble(v)), hex_digit_char(low_nibble(v))]
    }
}

/// The text the numeric-print operation (`n`) writes for a register value.
pub fn numeric_text(v: u8) -> (s: String)
    ensures
        s@ == hex_digits(v),
{
    let mut s = String::new();
    if v >= 16 {
        host::push_char(&mut s, hex_digit(v / 16));
    }
    host::push_char(&mut s, hex_digit(v % 16));
    proof {
        assert(s@ =~= hex_digits(v));
    }
    s
}

/// The byte a line character becomes: its code point when it fits a byte,
/// else the truncated low byte of the replacement character.
pub open spec fn byte_of_char(c: char) -> u8 {
    if c as u32 <= 255 {
        (c as u32) as u8
    } else {
        0xFDu8
    }
}

/// Converts one line character to the byte the line-input operation pushes.
pub fn char_to_byte(c: char) -> (b: u8)
    ensures
        b == byte_of_char(c),
{
    let u = c as u32;
    if u <= 255 {
        u as u8
    } else {
        0xFD
    }
}

/// What line input does: the line's characters land on the active stack in
/// reverse textual order — the first character on top — and the pointer
/// advances.
pub open spec fn line_input_post(pre: ProgramData, post: ProgramData, line: Seq<char>) -> bool {
    &&& active_stack(post) == active_stack(pre) + line.map_values(
        |c: char| byte_of_char(c),
    ).reverse()
    &&& inactive_stack(post) == inactive_stack(pre)
    &&& post.file_index == pre.file_index + 1
    &&& post.direction == pre.direction
    &&& post.register_value == pre.register_value
    &&& post.selected_state == pre.selected_state
    &&& post.start_time == pre.start_time
}

/// The line-input operation (`g`), given the line the host read: pushes its
/// characters onto the active stack in reverse textual order, so that popping
/// yields them left to right.
pub fn line_input(program_data: &mut ProgramData, file_contents: &Vec<char>, line: &Vec<char>) -> (r:
    Option<ExitCode>)
    requires
        old(program_data).file_index < usize::MAX,
    ensures
        r is None,
        line_input_post(*old(program_data), *final(program_data), line@),
{
    let ghost pre = *program_data;
    let ghost mapped = line@.map_values(|c: char| byte_of_char(c));
    let mut i: usize = line.len();
    while i > 0
        invariant
            i <= line@.len(),
            mapped == line@.map_values(|c: char| byte_of_char(c)),
            active_stack(*program_data) == active_stack(pre) + mapped.subrange(
                i as int,
                mapped.len() as int,
            ).reverse(),
            inactive_stack(*program_data) == inactive_stack(pre),
            program_data.direction == pre.direction,
            program_data.file_index == pre.file_index,
            program_data.register_value == pre.register_value,
            program_data.selected_state == pre.selected_state,
            program_data.start_time == pre.start_time,
        decreases i,
    {
        i -= 1;
        let b = char_to_byte(line[i]);
        match program_data.direction {
            Direction::Left => program_data.left_stack.push(b),
            Direction::Right => program_data.right_stack.push(b),
        }
        proof {
            assert(active_stack(*program_data) =~= active_stack(pre) + mapped.subrange(
                i as int,
                mapped.len() as int,
            ).reverse());
        }
    }
    proof {
        assert(active_stack(*program_data) =~= active_stack(pre) + mapped.reverse());
    }
    advance(program_data, file_contents);
    Option::None
}

// ---------------------------------------------------------------------------
// Laws
// ---------------------------------------------------------------------------

/// Law: a push followed at once by a pop under the same direction returns
/// exactly the pushed register value and leaves the active stack — in
/// particular its length — as it was. The hypotheses are the postconditions
/// of `push` and `pop`.
pub proof fn lemma_push_then_pop(pre: ProgramData, mid: ProgramData, post: ProgramData)
    requires
        push_post(pre, mid),
        pop_post(mid, post),
    ensures
        post.register_value == pre.register_value,
        active_stack(post) == active_stack(pre),
        active_stack(post).len() == active_stack(pre).len(),
{
    assert(active_stack(mid).len() > 0);
    assert(active_stack(post) =~= active_stack(pre));
}

} // verus!
