//! What a request is sent with and what comes back.

use vstd::prelude::*;
use crate::text::{
    chars_of, equals_ignoring_case, find, first_occurrence, same_ignoring_case, trim, trimmed,
};

verus! {

/// The name under which every request is sent.
pub const USER_AGENT: &'static str = "bors roll-up";

/// A response, as it arrived: the bytes of its body and the lines of its
/// head.
#[derive(Debug)]
pub struct Response {
    pub body: Vec<u8>,
    pub headers: Vec<String>,
}

/// The value that a header line gives to the field `name`: what follows the
/// first colon, without the blanks around it, where what stands before the
/// colon is `name` in any case of letters. `None` for every other line.
pub open spec fn header_value(line: Seq<char>, name: Seq<char>) -> Option<Seq<char>> {
    match first_occurrence(line, seq![':']) {
        Some(colon) => if same_ignoring_case(line.take(colon), name) {
            Some(trim(line.skip(colon + 1)))
        } else {
            None
        },
        None => None,
    }
}

/// The values that the lines give to the field `name`, in the order of the
/// lines.
pub open spec fn header_values(lines: Seq<Seq<char>>, name: Seq<char>) -> Seq<Seq<char>>
    decreases lines.len(),
{
    if lines.len() == 0 {
        seq![]
    } else {
        let before = header_values(lines.drop_last(), name);
        match header_value(lines.last(), name) {
            Some(value) => before.push(value),
            None => before,
        }
    }
}

/// Reads the value that one header line gives to the field `name`.
pub fn read_header(line: &str, name: &Vec<char>) -> (value: Option<String>)
    ensures
        match value {
            Some(v) => header_value(line@, name@) == Some(v@),
            None => header_value(line@, name@) is None,
        },
{
    let cs = chars_of(line);
    let mut colon_mark: Vec<char> = Vec::new();
    colon_mark.push(':');
    assert(colon_mark@ == seq![':']);
    match find(&cs, &colon_mark) {
        Some(colon) => {
            assert(cs@.subrange(0, colon as int) == cs@.take(colon as int));
            assert(cs@.subrange(colon + 1, cs.len() as int) == cs@.skip(colon + 1));
            if equals_ignoring_case(&cs, 0, colon, name) {
                Some(trimmed(&cs, colon + 1, cs.len()))
            } else {
                None
            }
        },
        None => None,
    }
}

impl Response {
    /// The values of the header field `name`, in the order in which the
    /// response gave them.
    pub fn get_header(&self, name: &str) -> (values: Vec<String>)
        ensures
            values.deep_view() == header_values(self.headers.deep_view(), name@),
    {
        let wanted = chars_of(name);
        let mut values: Vec<String> = Vec::new();
        let mut i: usize = 0;
        assert(self.headers.deep_view().take(0) == Seq::<Seq<char>>::empty());
        while i < self.headers.len()
            invariant
                i <= self.headers.len(),
                wanted@ == name@,
                values.deep_view() == header_values(
                    self.headers.deep_view().take(i as int),
                    name@,
                ),
            decreases self.headers.len() - i,
        {
            let ghost lines = self.headers.deep_view();
            let ghost before = values.deep_view();
            proof {
                assert(lines.take(i + 1).drop_last() == lines.take(i as int));
                assert(lines.take(i + 1).last() == self.headers[i as int]@);
            }
            match read_header(self.headers[i].as_str(), &wanted) {
                Some(value) => {
                    values.push(value);
                    assert(values.deep_view() == before.push(value@));
                },
                None => {},
            }
            i += 1;
        }
        assert(self.headers.deep_view().take(self.headers.len() as int)
            == self.headers.deep_view());
        values
    }
}

} // verus!
