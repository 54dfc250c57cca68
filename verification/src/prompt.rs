//! What the operator answers when asked about a pull request.

use vstd::prelude::*;
use crate::text::chars_of;

verus! {

/// An answer of the operator.
#[derive(Clone, Copy, Debug, PartialEq, Eq, Structural)]
pub enum Prompt {
    /// Merge this pull request.
    Yes,
    /// Leave this pull request and go on with the next.
    No,
    /// Leave this pull request and all that follow.
    Quit,
}

/// Whether a character is white space: it has the Unicode property
/// `White_Space`. These are the space, the tab and the ends of lines (U+0009
/// to U+000D, U+0085, U+2028, U+2029), and the spaces of other widths
/// (U+00A0, U+1680, U+2000 to U+200A, U+202F, U+205F, U+3000).
pub open spec fn is_white_space(c: char) -> bool {
    ||| c == ' '
    ||| '\u{9}' <= c <= '\u{d}'
    ||| c == '\u{85}'
    ||| c == '\u{a0}'
    ||| c == '\u{1680}'
    ||| '\u{2000}' <= c <= '\u{200a}'
    ||| c == '\u{2028}'
    ||| c == '\u{2029}'
    ||| c == '\u{202f}'
    ||| c == '\u{205f}'
    ||| c == '\u{3000}'
}

/// `char::is_whitespace` tells whether the character has the Unicode property
/// `White_Space`. The contract writes the property out.
pub assume_specification[ char::is_whitespace ](c: char) -> (b: bool)
    ensures
        b == is_white_space(c),
;

/// Whether `s[i]` is the only character of `s` that is not white space.
pub open spec fn is_sole_mark(s: Seq<char>, i: int) -> bool {
    &&& 0 <= i < s.len()
    &&& !is_white_space(s[i])
    &&& forall|j: int| 0 <= j < s.len() && j != i ==> is_white_space(#[trigger] s[j])
}

/// The one character of `s` that is not white space, where there is exactly
/// one: what is left of a line of one letter when the white space around it
/// is taken away.
pub open spec fn sole_mark(s: Seq<char>) -> Option<char> {
    if exists|i: int| is_sole_mark(s, i) {
        Some(s[choose|i: int| is_sole_mark(s, i)])
    } else {
        None
    }
}

/// The answer that a letter stands for, in either case.
pub open spec fn answer_of(c: char) -> Option<Prompt> {
    if c == 'y' || c == 'Y' {
        Some(Prompt::Yes)
    } else if c == 'n' || c == 'N' {
        Some(Prompt::No)
    } else if c == 'q' || c == 'Q' {
        Some(Prompt::Quit)
    } else {
        None
    }
}

/// The answer that a line stands for: the letter `y`, `n` or `q`, in either
/// case, with nothing but white space around it. Every other line is no
/// answer.
pub open spec fn prompt_of(line: Seq<char>) -> Option<Prompt> {
    match sole_mark(line) {
        Some(c) => answer_of(c),
        None => None,
    }
}

/// Where a line has a sole mark, there is no other.
pub proof fn lemma_sole_mark(s: Seq<char>, i: int)
    requires
        is_sole_mark(s, i),
    ensures
        sole_mark(s) == Some(s[i]),
{
    let c = choose|c: int| is_sole_mark(s, c);
    assert(is_sole_mark(s, c));
    if c != i {
        assert(is_white_space(s[c]));
    }
}

/// Reads the operator's answer from the line that was typed.
///
/// Returns `None` for a line that is no answer; the operator is then asked
/// again.
pub fn get_prompt(line: &str) -> (answer: Option<Prompt>)
    ensures
        answer == prompt_of(line@),
{
    let cs = chars_of(line);
    let mut mark: Option<usize> = None;
    let mut i: usize = 0;
    while i < cs.len()
        invariant
            i <= cs.len(),
            cs@ == line@,
            mark is None ==> forall|j: int| 0 <= j < i ==> is_white_space(#[trigger] cs@[j]),
            mark matches Some(m) ==> m < i && !is_white_space(cs@[m as int]) && forall|j: int|
                0 <= j < i && j != m ==> is_white_space(#[trigger] cs@[j]),
        decreases cs.len() - i,
    {
        if !cs[i].is_whitespace() {
            if mark.is_some() {
                proof {
                    let m = mark->0 as int;
                    assert forall|k: int| !is_sole_mark(cs@, k) by {
                        if is_sole_mark(cs@, k) {
                            if k == m {
                                assert(is_white_space(cs@[i as int]));
                            } else {
                                assert(is_white_space(cs@[m]));
                            }
                        }
                    }
                }
                return None;
            }
            mark = Some(i);
        }
        i += 1;
    }
    match mark {
        None => {
            proof {
                assert forall|k: int| !is_sole_mark(cs@, k) by {
                    if 0 <= k < cs@.len() {
                        assert(is_white_space(cs@[k]));
                    }
                }
            }
            None
        },
        Some(m) => {
            proof {
                lemma_sole_mark(cs@, m as int);
            }
            let c = cs[m];
            if c == 'y' || c == 'Y' {
                Some(Prompt::Yes)
            } else if c == 'n' || c == 'N' {
                Some(Prompt::No)
            } else if c == 'q' || c == 'Q' {
                Some(Prompt::Quit)
            } else {
                None
            }
        },
    }
}

} // verus!
