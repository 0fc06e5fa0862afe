//! Prompts and answers.
//!
//! Reading the terminal is the caller's part. What is decided here is how a
//! prompt is shown and what an answer means.

use crate::text::{
    ascii_alphanumeric, chars_of, is_ascii_alphanumeric, lemma_trailing_run, lowercased,
    same_text, string_of, to_ascii_lowercase, trailing_run, trim, trim_bounds, trimmed,
};
use vstd::prelude::*;

verus! {

/// The prompt that stands in for an empty one: `Enter input: `.
pub open spec fn default_prompt() -> Seq<char> {
    seq!['E', 'n', 't', 'e', 'r', ' ', 'i', 'n', 'p', 'u', 't', ':', ' ']
}

/// The predicate of the characters that are no ASCII letter or digit.
pub open spec fn is_symbol() -> spec_fn(char) -> bool {
    |c: char| !ascii_alphanumeric(c)
}

/// `s` without its trailing characters that are no ASCII letter or digit.
pub open spec fn without_trailing_symbols(s: Seq<char>) -> Seq<char> {
    s.take(s.len() - trailing_run(s, is_symbol()))
}

/// The prompt as it is shown. An empty prompt stands for the default one.
/// The prompt is trimmed; where it then ends in something that is neither
/// an ASCII letter or digit nor a colon, everything behind its last letter
/// or digit is dropped; a colon and a space are appended.
pub open spec fn normalized_prompt(prompt: Seq<char>) -> Seq<char> {
    let shown = trim(
        if prompt.len() == 0 {
            default_prompt()
        } else {
            prompt
        },
    );
    let stem = if shown.len() > 0 && !ascii_alphanumeric(shown.last()) && shown.last() != ':' {
        without_trailing_symbols(shown)
    } else {
        shown
    };
    stem + seq![':', ' ']
}

/// An answer as it is compared: trimmed, and lowered on request.
pub open spec fn normalized_input(raw: Seq<char>, normalize: Option<bool>) -> Seq<char> {
    if normalize == Some(true) {
        to_ascii_lowercase(trim(raw))
    } else {
        trim(raw)
    }
}

/// Whether the answer `raw`, trimmed and lowered, is one of `options`.
pub open spec fn chooses(raw: Seq<char>, options: Seq<&str>) -> bool {
    exists|i: int|
        0 <= i < options.len() && (#[trigger] options[i])@ == to_ascii_lowercase(trim(raw))
}

/// The text `yes`.
pub open spec fn yes() -> Seq<char> {
    seq!['y', 'e', 's']
}

/// The text `no`.
pub open spec fn no() -> Seq<char> {
    seq!['n', 'o']
}

/// What an answer to a yes-or-no question comes to.
#[derive(Clone, Copy, Debug, PartialEq, Eq, Structural)]
pub enum YesNo {
    Yes,
    No,
    /// Neither: tell the user to enter yes or no, and ask again.
    AskAgain,
}

/// Normalizes a prompt for display, so that it ends in a colon and a space.
pub fn normalize_prompt(prompt: &str) -> (shown: String)
    ensures
        shown@ == normalized_prompt(prompt@),
{
    let given = chars_of(prompt);
    let chars = if given.len() == 0 {
        proof {
            reveal_strlit("Enter input: ");
            assert("Enter input: "@ =~= default_prompt());
        }
        chars_of("Enter input: ")
    } else {
        given
    };
    assert(chars@.subrange(0, chars@.len() as int) == chars@);
    let (a, b) = trim_bounds(&chars, 0, chars.len());
    let ghost local = chars@.subrange(a as int, b as int);
    let mut end: usize = b;
    if b > a && !is_ascii_alphanumeric(chars[b - 1]) && chars[b - 1] != ':' {
        while end > a && !is_ascii_alphanumeric(chars[end - 1])
            invariant
                a <= end <= b <= chars.len(),
                forall|i: int| end <= i < b ==> !ascii_alphanumeric(#[trigger] chars@[i]),
            decreases end,
        {
            end -= 1;
        }
        proof {
            assert forall|i: int| local.len() - (b - end) <= i < local.len() implies is_symbol()(
                #[trigger] local[i],
            ) by {
                assert(local[i] == chars@[a + i]);
            }
            lemma_trailing_run(local, is_symbol(), (b - end) as nat);
            assert(local.take(local.len() - (b - end)) == chars@.subrange(a as int, end as int));
        }
    }
    let mut shown = string_of(&chars, a, end);
    shown.push(':');
    shown.push(' ');
    assert(shown@ == chars@.subrange(a as int, end as int) + seq![':', ' ']);
    shown
}

/// Normalizes the line that the user entered: the line is trimmed, and
/// with `Some(true)` its ASCII letters are lowered too.
pub fn get_user_input(raw: &str, normalize: Option<bool>) -> (input: String)
    ensures
        input@ == normalized_input(raw@, normalize),
{
    let input = trimmed(raw);
    match normalize {
        Some(true) => lowercased(input.as_str()),
        _ => input,
    }
}

/// Whether the line that the user entered is one of `options`, after
/// trimming and lowering it. The options are compared as they are, so only
/// a lower-case ASCII option can be chosen.
pub fn get_user_input_with_options(raw: &str, options: &[&str]) -> (chosen: bool)
    ensures
        chosen == chooses(raw@, options@),
{
    let input = get_user_input(raw, Some(true));
    let mut i: usize = 0;
    while i < options.len()
        invariant
            i <= options.len(),
            input@ == to_ascii_lowercase(trim(raw@)),
            forall|k: int| 0 <= k < i ==> (#[trigger] options@[k])@ != input@,
        decreases options.len() - i,
    {
        if same_text(options[i], input.as_str()) {
            return true;
        }
        i += 1;
    }
    false
}

/// Reads the answer to a yes-or-no question: the line, trimmed and
/// lowered, is `yes`, `no`, or neither.
pub fn ask_user_yes_or_no(raw: &str) -> (answer: YesNo)
    ensures
        answer == (if to_ascii_lowercase(trim(raw@)) == yes() {
            YesNo::Yes
        } else if to_ascii_lowercase(trim(raw@)) == no() {
            YesNo::No
        } else {
            YesNo::AskAgain
        }),
{
    let input = get_user_input(raw, Some(true));
    proof {
        reveal_strlit("yes");
        reveal_strlit("no");
        assert("yes"@ =~= yes());
        assert("no"@ =~= no());
    }
    if same_text(input.as_str(), "yes") {
        YesNo::Yes
    } else if same_text(input.as_str(), "no") {
        YesNo::No
    } else {
        YesNo::AskAgain
    }
}

} // verus!
