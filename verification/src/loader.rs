//! The loader's text pass: comment spans — a percent sign up to the next
//! percent sign, non-nesting — are removed entirely; space, tab, newline and
//! colon characters are removed; a comment left open at the end of the text
//! is a fatal load error, and the engine never starts.

use vstd::prelude::*;

verus! {

/// The one way loading fails.
#[derive(Clone, Copy, PartialEq, Eq, Debug, Structural)]
pub enum LoadError {
    UnclosedComment,
}

impl LoadError {
    /// The diagnostic text reported when loading fails.
    pub fn message(&self) -> (m: &'static str)
        ensures
            m@ == "found an unclosed comment."@,
    {
        "found an unclosed comment."
    }
}

/// A character the loader keeps: anything but space, tab, newline and colon.
pub open spec fn significant(c: char) -> bool {
    c != ' ' && c != '\t' && c != '\n' && c != ':'
}

/// The tape the text from position `i` on yields, given whether position `i`
/// lies inside a comment — or `None` when a comment is left open at the end.
pub open spec fn strip_from(text: Seq<char>, i: int, in_comment: bool) -> Option<Seq<char>>
    decreases text.len() - i,
{
    if i < 0 || i >= text.len() {
        if in_comment {
            None
        } else {
            Some(Seq::empty())
        }
    } else if text[i] == '%' {
        strip_from(text, i + 1, !in_comment)
    } else if in_comment {
        strip_from(text, i + 1, true)
    } else if significant(text[i]) {
        match strip_from(text, i + 1, false) {
            None => None,
            Some(rest) => Some(seq![text[i]] + rest),
        }
    } else {
        strip_from(text, i + 1, false)
    }
}

/// The instruction tape a source text yields, or `None` on an unclosed
/// comment.
pub open spec fn load_spec(text: Seq<char>) -> Option<Seq<char>> {
    strip_from(text, 0, false)
}

proof fn lemma_strip_from_clean(text: Seq<char>, i: int, in_comment: bool)
    ensures
        strip_from(text, i, in_comment) matches Some(tape) ==> forall|j: int|
            0 <= j < tape.len() ==> significant(#[trigger] tape[j]) && tape[j] != '%',
    decreases text.len() - i,
{
    if 0 <= i < text.len() {
        lemma_strip_from_clean(text, i + 1, !in_comment);
        lemma_strip_from_clean(text, i + 1, in_comment);
        lemma_strip_from_clean(text, i + 1, false);
        if !in_comment && text[i] != '%' && significant(text[i]) {
            if let Some(rest) = strip_from(text, i + 1, false) {
                let tape = seq![text[i]] + rest;
                assert forall|j: int| 0 <= j < tape.len() implies significant(#[trigger] tape[j])
                    && tape[j] != '%' by {
                    if j > 0 {
                        assert(tape[j] == rest[j - 1]);
                    }
                }
            }
        }
    }
}

/// How many percent signs the text holds from position `i` on.
pub open spec fn percent_count(text: Seq<char>, i: int) -> int
    decreases text.len() - i,
{
    if i < 0 || i >= text.len() {
        0
    } else {
        (if text[i] == '%' {
            1int
        } else {
            0int
        }) + percent_count(text, i + 1)
    }
}

proof fn lemma_strip_fails_iff_odd(text: Seq<char>, i: int, in_comment: bool)
    ensures
        strip_from(text, i, in_comment) is None <==> (percent_count(text, i) + if in_comment {
            1int
        } else {
            0int
        }) % 2 == 1,
    decreases text.len() - i,
{
    if 0 <= i < text.len() {
        lemma_strip_fails_iff_odd(text, i + 1, !in_comment);
        lemma_strip_fails_iff_odd(text, i + 1, in_comment);
        lemma_strip_fails_iff_odd(text, i + 1, false);
    }
}

/// Law: loading fails exactly when the text holds an odd number of percent
/// signs — the comment that the last of them opens is never closed.
pub proof fn lemma_load_fails_iff_odd_percents(text: Seq<char>)
    ensures
        load_spec(text) is None <==> percent_count(text, 0) % 2 == 1,
{
    lemma_strip_fails_iff_odd(text, 0, false);
}

/// Law: whatever loading yields holds only significant characters and never
/// a percent sign — comment spans and insignificant characters are all
/// consumed by the pass.
pub proof fn lemma_loaded_tape_clean(text: Seq<char>)
    ensures
        load_spec(text) matches Some(tape) ==> forall|j: int|
            0 <= j < tape.len() ==> significant(#[trigger] tape[j]) && tape[j] != '%',
{
    lemma_strip_from_clean(text, 0, false);
}

/// Turns raw source text into the instruction tape: strips comment spans and
/// insignificant characters, and fails on an unclosed comment.
pub fn load_program(text: &Vec<char>) -> (r: Result<Vec<char>, LoadError>)
    ensures
        match r {
            Ok(tape) => load_spec(text@) == Some(tape@),
            Err(e) => load_spec(text@) is None && e == LoadError::UnclosedComment,
        },
{
    let mut tape: Vec<char> = Vec::new();
    let mut in_comment = false;
    let mut i: usize = 0;
    proof {
        if let Some(rest) = load_spec(text@) {
            assert(Seq::<char>::empty() + rest =~= rest);
        }
    }
    while i < text.len()
        invariant
            i <= text@.len(),
            load_spec(text@) == match strip_from(text@, i as int, in_comment) {
                None => None::<Seq<char>>,
                Some(rest) => Some(tape@ + rest),
            },
        decreases text@.len() - i,
    {
        let c = text[i];
        if c == '%' {
            in_comment = !in_comment;
        } else if in_comment {
            // inside a comment span; the character is dropped with it
        } else if c != ' ' && c != '\t' && c != '\n' && c != ':' {
            let ghost tape_pre = tape@;
            tape.push(c);
            proof {
                if let Some(rest) = strip_from(text@, i + 1, false) {
                    assert(tape@ + rest =~= tape_pre + (seq![text@[i as int]] + rest));
                }
            }
        }
        i += 1;
    }
    if in_comment {
        Err(LoadError::UnclosedComment)
    } else {
        proof {
            assert(tape@ + Seq::<char>::empty() =~= tape@);
        }
        Ok(tape)
    }
}

} // verus!
