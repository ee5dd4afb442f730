use hassl::commands::{
    add, advance, char_to_byte, continue_if, continue_not, count, find_char, generate_random,
    get_register_value, get_stack, get_stack_value, get_stack_values, go_to_state, hex_digit,
    increment, line_input, numeric_text, output_char, pop, push, reset, select_left, select_right,
    set_state, state_to_char, subtract, terminate, time,
};
use hassl::types::{Direction, ExitCode, ProgramData, State};

fn tape(s: &str) -> Vec<char> {
    s.chars().collect()
}

#[test]
fn terminate_reports_success_and_touches_nothing() {
    let t = tape("@");
    let mut pd = ProgramData::new();
    pd.register_value = 42;
    let r = terminate(&mut pd, &t);
    assert_eq!(r, Some(ExitCode::Success));
    assert_eq!(pd.file_index, 0);
    assert_eq!(pd.register_value, 42);
}

#[test]
fn advance_moves_the_pointer_one_step() {
    let t = tape("  ");
    let mut pd = ProgramData::new();
    let r = advance(&mut pd, &t);
    assert_eq!(r, None);
    assert_eq!(pd.file_index, 1);
}

#[test]
fn reset_right_zeroes_the_low_nibble() {
    let t = tape(".");
    let mut pd = ProgramData::new();
    pd.register_value = 0xAB;
    pd.direction = Direction::Right;
    let r = reset(&mut pd, &t);
    assert_eq!(r, None);
    assert_eq!(pd.register_value, 0xA0);
    assert_eq!(pd.file_index, 1);
}

#[test]
fn reset_left_zeroes_the_high_nibble() {
    let t = tape(".");
    let mut pd = ProgramData::new();
    pd.register_value = 0xAB;
    pd.direction = Direction::Left;
    let r = reset(&mut pd, &t);
    assert_eq!(r, None);
    assert_eq!(pd.register_value, 0x0B);
    assert_eq!(pd.file_index, 1);
}

#[test]
fn push_then_pop_returns_the_register_and_keeps_the_length() {
    let t = tape("^v");
    let mut pd = ProgramData::new();
    pd.register_value = 42;
    pd.direction = Direction::Left;
    pd.left_stack = vec![7];
    assert_eq!(push(&mut pd, &t), None);
    pd.register_value = 0;
    assert_eq!(pop(&mut pd, &t), None);
    assert_eq!(pd.register_value, 42);
    assert_eq!(pd.left_stack, vec![7]);
}

#[test]
fn push_lands_on_the_active_stack_only() {
    let t = tape("^");
    let mut pd = ProgramData::new();
    pd.register_value = 9;
    pd.direction = Direction::Right;
    assert_eq!(push(&mut pd, &t), None);
    assert_eq!(pd.right_stack, vec![9]);
    assert!(pd.left_stack.is_empty());
    assert_eq!(pd.file_index, 1);
}

#[test]
fn pop_on_an_empty_stack_underflows_and_stays_put() {
    let t = tape("v");
    let mut pd = ProgramData::new();
    pd.register_value = 5;
    let r = pop(&mut pd, &t);
    assert_eq!(r, Some(ExitCode::StackUnderflow));
    assert_eq!(pd.file_index, 0);
    assert_eq!(pd.register_value, 5);
}

#[test]
fn add_sums_the_two_top_values_wrapping() {
    let t = tape("+");
    let mut pd = ProgramData::new();
    pd.right_stack = vec![7, 5];
    let r = add(&mut pd, &t);
    assert_eq!(r, None);
    assert_eq!(pd.register_value, 12);
    assert!(pd.right_stack.is_empty());
    assert_eq!(pd.file_index, 1);
}

#[test]
fn add_wraps_modulo_256() {
    let t = tape("+");
    let mut pd = ProgramData::new();
    pd.right_stack = vec![200, 200];
    assert_eq!(add(&mut pd, &t), None);
    assert_eq!(pd.register_value, 144);
}

#[test]
fn subtract_takes_the_first_popped_as_left_operand() {
    let t = tape("-");
    let mut pd = ProgramData::new();
    pd.right_stack = vec![5, 7];
    assert_eq!(subtract(&mut pd, &t), None);
    assert_eq!(pd.register_value, 2);
}

#[test]
fn subtract_wraps_below_zero() {
    let t = tape("-");
    let mut pd = ProgramData::new();
    pd.right_stack = vec![7, 5];
    assert_eq!(subtract(&mut pd, &t), None);
    assert_eq!(pd.register_value, 254);
}

#[test]
fn add_underflows_on_an_empty_stack() {
    let t = tape("+");
    let mut pd = ProgramData::new();
    let r = add(&mut pd, &t);
    assert_eq!(r, Some(ExitCode::StackUnderflow));
    assert_eq!(pd.file_index, 0);
}

#[test]
fn add_underflows_on_a_one_element_stack_and_drains_it() {
    let t = tape("+");
    let mut pd = ProgramData::new();
    pd.right_stack = vec![7];
    let r = add(&mut pd, &t);
    assert_eq!(r, Some(ExitCode::StackUnderflow));
    assert!(pd.right_stack.is_empty());
    assert_eq!(pd.file_index, 0);
}

#[test]
fn subtract_underflows_on_a_one_element_stack() {
    let t = tape("-");
    let mut pd = ProgramData::new();
    pd.right_stack = vec![7];
    assert_eq!(subtract(&mut pd, &t), Some(ExitCode::StackUnderflow));
    assert!(pd.right_stack.is_empty());
}

#[test]
fn count_stores_the_active_stack_length() {
    let t = tape("#");
    let mut pd = ProgramData::new();
    pd.right_stack = vec![1, 2, 3];
    assert_eq!(count(&mut pd, &t), None);
    assert_eq!(pd.register_value, 3);
    assert_eq!(pd.right_stack, vec![1, 2, 3]);
    assert_eq!(pd.file_index, 1);
}

#[test]
fn count_saturates_at_255() {
    let t = tape("#");
    let mut pd = ProgramData::new();
    pd.right_stack = vec![0; 300];
    assert_eq!(count(&mut pd, &t), None);
    assert_eq!(pd.register_value, 255);
}

#[test]
fn count_of_an_empty_stack_is_zero() {
    let t = tape("#");
    let mut pd = ProgramData::new();
    pd.register_value = 9;
    assert_eq!(count(&mut pd, &t), None);
    assert_eq!(pd.register_value, 0);
}

#[test]
fn increment_right_steps_the_low_nibble_modulo_16() {
    let t = tape("*");
    let mut pd = ProgramData::new();
    pd.register_value = 0x27;
    assert_eq!(increment(&mut pd, &t), None);
    assert_eq!(pd.register_value, 0x28);
    pd.register_value = 0x2F;
    assert_eq!(increment(&mut pd, &t), None);
    assert_eq!(pd.register_value, 0x20);
}

#[test]
fn increment_left_steps_the_high_nibble_with_byte_wraparound() {
    let t = tape("*");
    let mut pd = ProgramData::new();
    pd.direction = Direction::Left;
    pd.register_value = 0x25;
    assert_eq!(increment(&mut pd, &t), None);
    assert_eq!(pd.register_value, 0x35);
    pd.register_value = 0xF5;
    assert_eq!(increment(&mut pd, &t), None);
    assert_eq!(pd.register_value, 0x05);
}

#[test]
fn select_left_and_right_set_the_direction() {
    let t = tape("<>");
    let mut pd = ProgramData::new();
    assert_eq!(select_left(&mut pd, &t), None);
    assert_eq!(pd.direction, Direction::Left);
    assert_eq!(select_right(&mut pd, &t), None);
    assert_eq!(pd.direction, Direction::Right);
    assert_eq!(pd.file_index, 2);
}

#[test]
fn go_to_state_jumps_past_the_next_label_occurrence() {
    let t = tape("ab0c");
    let mut pd = ProgramData::new();
    let r = go_to_state(&mut pd, &t);
    assert_eq!(r, None);
    assert_eq!(pd.file_index, 3);
}

#[test]
fn go_to_state_wraps_to_the_first_occurrence_overall() {
    let t = tape("0ab");
    let mut pd = ProgramData::new();
    pd.file_index = 1;
    let r = go_to_state(&mut pd, &t);
    assert_eq!(r, None);
    assert_eq!(pd.file_index, 1);
}

#[test]
fn go_to_state_fails_when_the_label_occurs_nowhere() {
    let t = tape("abc");
    let mut pd = ProgramData::new();
    pd.file_index = 2;
    let r = go_to_state(&mut pd, &t);
    assert_eq!(r, Some(ExitCode::StateUndefined));
    assert_eq!(pd.file_index, 2);
}

#[test]
fn go_to_state_lands_just_past_a_match_under_the_pointer() {
    let t = tape("x0y0z");
    let mut pd = ProgramData::new();
    pd.file_index = 3;
    let r = go_to_state(&mut pd, &t);
    assert_eq!(r, None);
    assert_eq!(pd.file_index, 4);
}

#[test]
fn set_state_reads_the_active_nibble() {
    let t = tape("$");
    let mut pd = ProgramData::new();
    pd.register_value = 0xA2;
    assert_eq!(set_state(&mut pd, &t), None);
    assert_eq!(pd.selected_state, State::State2);
    assert_eq!(pd.file_index, 1);

    let mut pd = ProgramData::new();
    pd.register_value = 0xA2;
    pd.direction = Direction::Left;
    assert_eq!(set_state(&mut pd, &t), None);
    assert_eq!(pd.selected_state, State::StateA);
}

#[test]
fn continue_if_jumps_only_on_a_zero_nibble() {
    let t = tape("x0y");
    let mut pd = ProgramData::new();
    pd.register_value = 0;
    assert_eq!(continue_if(&mut pd, &t), None);
    assert_eq!(pd.file_index, 2);

    let mut pd = ProgramData::new();
    pd.register_value = 5;
    assert_eq!(continue_if(&mut pd, &t), None);
    assert_eq!(pd.file_index, 1);
}

#[test]
fn continue_not_jumps_only_on_a_nonzero_nibble() {
    let t = tape("x0y");
    let mut pd = ProgramData::new();
    pd.register_value = 5;
    assert_eq!(continue_not(&mut pd, &t), None);
    assert_eq!(pd.file_index, 2);

    let mut pd = ProgramData::new();
    pd.register_value = 0;
    assert_eq!(continue_not(&mut pd, &t), None);
    assert_eq!(pd.file_index, 1);
}

#[test]
fn continue_if_reads_only_the_active_nibble() {
    // Register 0xA0 under Right has a zero active nibble even though the
    // byte is not zero.
    let t = tape("x0y");
    let mut pd = ProgramData::new();
    pd.register_value = 0xA0;
    assert_eq!(continue_if(&mut pd, &t), None);
    assert_eq!(pd.file_index, 2);
}

#[test]
fn find_char_returns_the_first_match_at_or_after_start() {
    let t = tape("ab0a0");
    assert_eq!(find_char(&t, '0', 0), Some(2));
    assert_eq!(find_char(&t, '0', 3), Some(4));
    assert_eq!(find_char(&t, '0', 5), None);
    assert_eq!(find_char(&t, 'z', 0), None);
}

#[test]
fn state_to_char_names_the_labels() {
    assert_eq!(state_to_char(&State::State0), '0');
    assert_eq!(state_to_char(&State::State9), '9');
    assert_eq!(state_to_char(&State::StateA), 'A');
    assert_eq!(state_to_char(&State::StateF), 'F');
}

#[test]
fn get_register_value_reads_the_active_nibble() {
    let mut pd = ProgramData::new();
    pd.register_value = 0xA2;
    assert_eq!(get_register_value(&mut pd), Ok(2));
    pd.direction = Direction::Left;
    assert_eq!(get_register_value(&mut pd), Ok(10));
}

#[test]
fn get_stack_selects_by_direction() {
    let mut pd = ProgramData::new();
    pd.left_stack = vec![1];
    pd.right_stack = vec![2, 3];
    assert_eq!(get_stack(&pd), &vec![2, 3]);
    pd.direction = Direction::Left;
    assert_eq!(get_stack(&pd), &vec![1]);
}

#[test]
fn get_stack_value_pops_the_active_stack() {
    let mut pd = ProgramData::new();
    pd.right_stack = vec![1, 2];
    assert_eq!(get_stack_value(&mut pd), Ok(2));
    assert_eq!(pd.right_stack, vec![1]);
    pd.right_stack.clear();
    assert_eq!(get_stack_value(&mut pd), Err(ExitCode::StackUnderflow));
}

#[test]
fn get_stack_values_pops_two_in_order() {
    let mut pd = ProgramData::new();
    pd.right_stack = vec![1, 2, 3];
    assert_eq!(get_stack_values(&mut pd), Ok((3, 2)));
    assert_eq!(pd.right_stack, vec![1]);
}

#[test]
fn line_input_pushes_the_line_reversed() {
    let t = tape("g");
    let mut pd = ProgramData::new();
    let line: Vec<char> = "AB\n".chars().collect();
    assert_eq!(line_input(&mut pd, &t, &line), None);
    assert_eq!(pd.right_stack, vec![10, 66, 65]);
    assert_eq!(pd.file_index, 1);
    // Popping now yields the line left to right.
    assert_eq!(pop(&mut pd, &t), None);
    assert_eq!(pd.register_value, 65);
}

#[test]
fn line_input_replaces_characters_beyond_one_byte() {
    let t = tape("g");
    let mut pd = ProgramData::new();
    let line: Vec<char> = "\u{100}".chars().collect();
    assert_eq!(line_input(&mut pd, &t, &line), None);
    assert_eq!(pd.right_stack, vec![0xFD]);
}

#[test]
fn char_to_byte_converts_or_replaces() {
    assert_eq!(char_to_byte('A'), 65);
    assert_eq!(char_to_byte('\u{FF}'), 255);
    assert_eq!(char_to_byte('\u{100}'), 0xFD);
}

#[test]
fn numeric_text_formats_uppercase_hex_without_padding() {
    assert_eq!(numeric_text(255), "FF");
    assert_eq!(numeric_text(10), "A");
    assert_eq!(numeric_text(0), "0");
    assert_eq!(numeric_text(16), "10");
}

#[test]
fn hex_digit_covers_all_sixteen_values() {
    assert_eq!(hex_digit(0), '0');
    assert_eq!(hex_digit(9), '9');
    assert_eq!(hex_digit(10), 'A');
    assert_eq!(hex_digit(15), 'F');
}

#[test]
fn output_char_prints_ascii_or_the_replacement_character() {
    assert_eq!(output_char(65), 'A');
    assert_eq!(output_char(0), '\u{0}');
    assert_eq!(output_char(127), '\u{7F}');
    assert_eq!(output_char(128), '\u{FFFD}');
    assert_eq!(output_char(255), '\u{FFFD}');
}

#[test]
fn time_stores_the_snapshot_milliseconds_modulo_256() {
    let t = tape("t");
    let mut pd = ProgramData::new();
    pd.start_time = Some(1234);
    let r = time(&mut pd, &t);
    assert_eq!(r, None);
    assert_eq!(pd.register_value, 210);
    assert_eq!(pd.file_index, 1);
    // The snapshot was retaken from the clock, which reads after the epoch
    // here, so a second read also succeeds.
    assert_eq!(time(&mut pd, &t), None);
}

#[test]
fn time_fails_on_an_unreadable_snapshot() {
    let t = tape("t");
    let mut pd = ProgramData::new();
    pd.register_value = 9;
    pd.start_time = None;
    let r = time(&mut pd, &t);
    assert_eq!(r, Some(ExitCode::InternalError));
    assert_eq!(pd.file_index, 0);
    assert_eq!(pd.register_value, 9);
    assert_eq!(pd.start_time, None);
}

#[test]
fn generate_random_only_touches_the_register() {
    let t = tape("~");
    let mut pd = ProgramData::new();
    pd.right_stack = vec![1];
    let r = generate_random(&mut pd, &t);
    assert_eq!(r, None);
    assert_eq!(pd.file_index, 1);
    assert_eq!(pd.right_stack, vec![1]);
    assert_eq!(pd.direction, Direction::Right);
}

#[test]
fn exit_codes_carry_their_messages() {
    assert_eq!(ExitCode::Success.message(), "");
    assert_eq!(ExitCode::EndOfFile.message(), "end of file");
    assert_eq!(ExitCode::TokenUndefined.message(), "token undefined");
    assert_eq!(ExitCode::StateUndefined.message(), "state undefined");
    assert_eq!(ExitCode::StackUnderflow.message(), "stack underflow");
    assert_eq!(ExitCode::InternalError.message(), "internal error occurred");
}

#[test]
fn a_fresh_machine_starts_clean() {
    let pd = ProgramData::new();
    assert_eq!(pd.file_index, 0);
    assert_eq!(pd.direction, Direction::Right);
    assert!(pd.left_stack.is_empty());
    assert!(pd.right_stack.is_empty());
    assert_eq!(pd.register_value, 0);
    assert_eq!(pd.selected_state, State::State0);
}
