//! JSON values, and the parser that makes them.
//!
//! The parser is `rustc_serialize`'s. It keeps some of its counts in narrow
//! integers, calls itself once for every level of nesting, and loses its
//! place at a comma before the closing brace of an object inside another
//! value. So a text is looked over before it is handed on: `within_limits`
//! says which texts are, and `parse` refuses the others.

use vstd::prelude::*;
use rustc_serialize::json::ParserError;
use crate::error::{DecoderError, Fault, Kind};
use crate::text::{chars_of, is_digit};

verus! {

/// A JSON value.
#[derive(Debug)]
pub enum Value {
    /// A whole number held with a sign. The parser gives this form to the
    /// numbers below zero only.
    I64(i64),
    /// A whole number held without a sign.
    U64(u64),
    /// A number with a fraction or an exponent. What number it is, is not
    /// kept.
    Float,
    Text(String),
    Boolean(bool),
    Array(Vec<Value>),
    /// The fields of an object, by name.
    Object(Vec<(String, Value)>),
    Null,
}

/// A JSON value as mathematics.
pub ghost enum Tree {
    I64(i64),
    U64(u64),
    Float,
    Text(Seq<char>),
    Boolean(bool),
    Array(Seq<Tree>),
    Object(Seq<(Seq<char>, Tree)>),
    Null,
}

impl Tree {
    /// The kind of the value.
    pub open spec fn kind(self) -> Kind {
        match self {
            Tree::I64(_) => Kind::I64,
            Tree::U64(_) => Kind::U64,
            Tree::Float => Kind::Float,
            Tree::Text(_) => Kind::Text,
            Tree::Boolean(_) => Kind::Boolean,
            Tree::Array(_) => Kind::Array,
            Tree::Object(_) => Kind::Object,
            Tree::Null => Kind::Null,
        }
    }
}

/// The value as mathematics: every text is a sequence of characters, and
/// every array and object a sequence of what it holds.
pub open spec fn tree_of(value: Value) -> Tree
    decreases value,
{
    match value {
        Value::I64(n) => Tree::I64(n),
        Value::U64(n) => Tree::U64(n),
        Value::Float => Tree::Float,
        Value::Text(text) => Tree::Text(text@),
        Value::Boolean(b) => Tree::Boolean(b),
        Value::Array(items) => Tree::Array(
            Seq::new(
                items@.len(),
                |i: int|
                    if 0 <= i < items@.len() {
                        tree_of(items@[i])
                    } else {
                        Tree::Null
                    },
            ),
        ),
        Value::Object(fields) => Tree::Object(
            Seq::new(
                fields@.len(),
                |i: int|
                    if 0 <= i < fields@.len() {
                        (fields@[i].0@, tree_of(fields@[i].1))
                    } else {
                        (Seq::empty(), Tree::Null)
                    },
            ),
        ),
        Value::Null => Tree::Null,
    }
}

impl View for Value {
    type V = Tree;

    open spec fn view(&self) -> Tree {
        tree_of(*self)
    }
}

/// The items of an array as mathematics.
pub open spec fn items_view(items: Seq<Value>) -> Seq<Tree> {
    Seq::new(items.len(), |i: int| items[i]@)
}

/// The fields of an object as mathematics.
pub open spec fn fields_view(fields: Seq<(String, Value)>) -> Seq<(Seq<char>, Tree)> {
    Seq::new(fields.len(), |i: int| (fields[i].0@, fields[i].1@))
}

/// An array is its items.
pub proof fn lemma_array_view(items: Vec<Value>)
    ensures
        Value::Array(items)@ == Tree::Array(items_view(items@)),
{
    assert(Value::Array(items)@->Array_0 =~= items_view(items@));
}

/// An object is its fields.
pub proof fn lemma_object_view(fields: Vec<(String, Value)>)
    ensures
        Value::Object(fields)@ == Tree::Object(fields_view(fields@)),
{
    assert(Value::Object(fields)@->Object_0 =~= fields_view(fields@));
}

impl Value {
    /// The kind of the value.
    pub open spec fn spec_kind(&self) -> Kind {
        self@.kind()
    }

    /// The kind of the value.
    #[verifier::when_used_as_spec(spec_kind)]
    pub fn kind(&self) -> (kind: Kind)
        ensures
            kind == self.spec_kind(),
    {
        match self {
            Value::I64(_) => Kind::I64,
            Value::U64(_) => Kind::U64,
            Value::Float => Kind::Float,
            Value::Text(_) => Kind::Text,
            Value::Boolean(_) => Kind::Boolean,
            Value::Array(_) => Kind::Array,
            Value::Object(_) => Kind::Object,
            Value::Null => Kind::Null,
        }
    }
}

/// How many characters a text may have.
pub const MAX_LENGTH: usize = 0xffff_ffff;

/// How deep arrays and objects may stand in one another.
pub const MAX_DEPTH: u32 = 128;

/// How many bytes may stand between the quotes of a field's name. A name
/// takes no more bytes once its escapes are read than it has between its
/// quotes.
pub const MAX_NAME: u32 = 511;

/// How many bytes the names of the open fields may have together: what the
/// parser can count in 16 bits.
pub const MAX_NAMES: u32 = 0xffff;

/// How many digits an exponent may have.
pub const MAX_EXPONENT: u32 = 9;

/// What is said of a text that is beyond the limits.
pub const BEYOND_LIMITS: &'static str = "JSON beyond the limits of the parser";

/// Where an exponent stands, outside of texts.
#[derive(Clone, Copy, Debug, PartialEq, Eq, Structural)]
pub enum Exponent {
    /// No exponent is under way.
    Off,
    /// The letter `e` has just come.
    Mark,
    /// The sign, or this many digits, have come.
    Digits(u32),
}

/// What looking over a text has found so far. A text is read as the parser
/// reads it up to its first error: a quote opens a text and the next quote
/// that no backslash stands before closes it.
#[derive(Clone, Copy, Debug, PartialEq, Eq, Structural)]
pub struct Scan {
    /// No limit has been passed.
    pub ok: bool,
    /// The place is between two quotes.
    pub quoted: bool,
    /// The character before was a backslash between quotes that escapes
    /// this one.
    pub escaped: bool,
    /// How many arrays and objects are open.
    pub depth: u32,
    /// How many bytes the text between the last two quotes has; past
    /// `MAX_NAME` it is not counted on.
    pub length: u32,
    /// A text has closed and nothing but blanks has followed it.
    pub closed: bool,
    /// The exponent under way.
    pub exponent: Exponent,
    /// A comma has come outside of quotes and nothing but blanks has
    /// followed it.
    pub comma: bool,
}

/// How many bytes a character takes in UTF-8.
pub open spec fn spec_width(c: char) -> u32 {
    if c <= '\u{7f}' {
        1
    } else if c <= '\u{7ff}' {
        2
    } else if c <= '\u{ffff}' {
        3
    } else {
        4
    }
}

/// How many bytes a character takes in UTF-8.
#[verifier::when_used_as_spec(spec_width)]
pub fn width(c: char) -> (bytes: u32)
    ensures
        bytes == spec_width(c),
{
    if c <= '\u{7f}' {
        1
    } else if c <= '\u{7ff}' {
        2
    } else if c <= '\u{ffff}' {
        3
    } else {
        4
    }
}

/// Whether the parser skips a character between values.
pub open spec fn is_space(c: char) -> bool {
    c == ' ' || c == '\n' || c == '\t' || c == '\r'
}

impl Scan {
    /// Before the first character.
    pub open spec fn start() -> Scan {
        Scan {
            ok: true,
            quoted: false,
            escaped: false,
            depth: 0,
            length: 0,
            closed: false,
            exponent: Exponent::Off,
            comma: false,
        }
    }

    /// One character more in a text between quotes.
    pub open spec fn longer(self, c: char) -> u32 {
        if self.length <= MAX_NAME {
            (self.length + spec_width(c)) as u32
        } else {
            self.length
        }
    }

    /// After a character between quotes.
    pub open spec fn inside(self, c: char) -> Scan {
        if self.escaped {
            Scan { escaped: false, length: self.longer(c), ..self }
        } else if c == '\\' {
            Scan { escaped: true, length: self.longer(c), ..self }
        } else if c == '"' {
            Scan { quoted: false, closed: true, ..self }
        } else {
            Scan { length: self.longer(c), ..self }
        }
    }

    /// Whether the character closes an object inside another value right
    /// after a comma: there the parser takes the wrong thing off its stack.
    pub open spec fn stray_comma(self, c: char) -> bool {
        self.comma && c == '}' && self.depth > 1
    }

    /// Whether the text that has closed is the name of a field, which the
    /// colon after it shows, and is longer than a name may be.
    pub open spec fn long_name(self, c: char) -> bool {
        self.closed && c == ':' && self.length > MAX_NAME
    }

    /// The exponent after a character outside of quotes. Every `e` may
    /// start one; a sign may follow it at once, and then digits.
    pub open spec fn exponent_after(self, c: char) -> Exponent {
        if c == 'e' || c == 'E' {
            Exponent::Mark
        } else if (c == '+' || c == '-') && self.exponent == Exponent::Mark {
            Exponent::Digits(0)
        } else if is_digit(c) {
            match self.exponent {
                Exponent::Off => Exponent::Off,
                Exponent::Mark => Exponent::Digits(1),
                Exponent::Digits(n) => if n <= MAX_EXPONENT {
                    Exponent::Digits((n + 1) as u32)
                } else {
                    Exponent::Digits(n)
                },
            }
        } else {
            Exponent::Off
        }
    }

    /// After a character outside of quotes.
    pub open spec fn outside(self, c: char) -> Scan {
        let exponent = self.exponent_after(c);
        Scan {
            ok: self.ok && !self.long_name(c) && !self.stray_comma(c) && !((c == '[' || c == '{')
                && self.depth >= MAX_DEPTH) && !(exponent matches Exponent::Digits(n) && n
                > MAX_EXPONENT),
            quoted: c == '"',
            escaped: false,
            depth: if c == '[' || c == '{' {
                if self.depth >= MAX_DEPTH {
                    self.depth
                } else {
                    (self.depth + 1) as u32
                }
            } else if c == ']' || c == '}' {
                if self.depth > 0 {
                    (self.depth - 1) as u32
                } else {
                    0
                }
            } else {
                self.depth
            },
            length: if c == '"' {
                0
            } else {
                self.length
            },
            closed: self.closed && is_space(c),
            exponent,
            comma: c == ',' || (self.comma && is_space(c)),
        }
    }

    /// After one more character.
    pub open spec fn spec_step(self, c: char) -> Scan {
        if self.quoted {
            self.inside(c)
        } else {
            self.outside(c)
        }
    }

    /// Looks at one more character.
    #[verifier::when_used_as_spec(spec_step)]
    pub fn step(self, c: char) -> (after: Scan)
        ensures
            after == self.spec_step(c),
    {
        if self.quoted {
            let longer = if self.length <= MAX_NAME {
                self.length + width(c)
            } else {
                self.length
            };
            if self.escaped {
                Scan { escaped: false, length: longer, ..self }
            } else if c == '\\' {
                Scan { escaped: true, length: longer, ..self }
            } else if c == '"' {
                Scan { quoted: false, closed: true, ..self }
            } else {
                Scan { length: longer, ..self }
            }
        } else {
            let opens = c == '[' || c == '{';
            let closes = c == ']' || c == '}';
            let exponent = if c == 'e' || c == 'E' {
                Exponent::Mark
            } else if (c == '+' || c == '-') && self.exponent == Exponent::Mark {
                Exponent::Digits(0)
            } else if '0' <= c && c <= '9' {
                match self.exponent {
                    Exponent::Off => Exponent::Off,
                    Exponent::Mark => Exponent::Digits(1),
                    Exponent::Digits(n) => if n <= MAX_EXPONENT {
                        Exponent::Digits(n + 1)
                    } else {
                        Exponent::Digits(n)
                    },
                }
            } else {
                Exponent::Off
            };
            let long_exponent = match exponent {
                Exponent::Digits(n) => n > MAX_EXPONENT,
                _ => false,
            };
            let long_name = self.closed && c == ':' && self.length > MAX_NAME;
            let stray_comma = self.comma && c == '}' && self.depth > 1;
            let blank = c == ' ' || c == '\n' || c == '\t' || c == '\r';
            Scan {
                ok: self.ok && !long_name && !stray_comma && !(opens && self.depth >= MAX_DEPTH)
                    && !long_exponent,
                quoted: c == '"',
                escaped: false,
                depth: if opens {
                    if self.depth >= MAX_DEPTH {
                        self.depth
                    } else {
                        self.depth + 1
                    }
                } else if closes {
                    if self.depth > 0 {
                        self.depth - 1
                    } else {
                        0
                    }
                } else {
                    self.depth
                },
                length: if c == '"' {
                    0
                } else {
                    self.length
                },
                closed: self.closed && blank,
                exponent,
                comma: c == ',' || (self.comma && blank),
            }
        }
    }
}

/// What looking over the whole of a text finds.
pub open spec fn scan(text: Seq<char>) -> Scan
    decreases text.len(),
{
    if text.len() == 0 {
        Scan::start()
    } else {
        scan(text.drop_last()).spec_step(text.last())
    }
}

/// Whether a text is within the limits of the parser: it has at most
/// `MAX_LENGTH` characters; arrays and objects stand at most `MAX_DEPTH`
/// deep in one another; no text that a colon follows, as it follows the name
/// of a field, has more than `MAX_NAME` bytes between its quotes; no `e`
/// outside of quotes is followed by more than `MAX_EXPONENT` digits; and no
/// comma outside of quotes is followed, blanks aside, by the brace that
/// closes an object inside another value.
pub open spec fn within_limits(text: Seq<char>) -> bool {
    text.len() <= MAX_LENGTH && scan(text).ok
}

/// The names of the fields that are open at one time fit into what the
/// parser can count: there are at most `MAX_DEPTH` of them, each of at most
/// `MAX_NAME` bytes.
pub proof fn lemma_names_fit()
    ensures
        MAX_DEPTH * MAX_NAME <= MAX_NAMES,
{
}

/// Tells whether a text is within the limits of the parser.
pub fn is_within_limits(text: &str) -> (within: bool)
    ensures
        within == within_limits(text@),
{
    let cs = chars_of(text);
    if cs.len() > MAX_LENGTH {
        return false;
    }
    let mut state = Scan {
        ok: true,
        quoted: false,
        escaped: false,
        depth: 0,
        length: 0,
        closed: false,
        exponent: Exponent::Off,
        comma: false,
    };
    let mut i: usize = 0;
    assert(cs@.take(0) == Seq::<char>::empty());
    while i < cs.len()
        invariant
            i <= cs.len(),
            state == scan(cs@.take(i as int)),
        decreases cs.len() - i,
    {
        assert(cs@.take(i + 1).drop_last() == cs@.take(i as int));
        state = state.step(cs[i]);
        i += 1;
    }
    assert(cs@.take(cs.len() as int) == cs@);
    state.ok
}

/// The parser's own form of a value. The library only hands it on.
#[verifier::external_type_specification]
#[verifier::external_body]
pub struct ExParsed(rustc_serialize::json::Json);

/// The value that a text stands for as JSON; `None` for a text that the
/// parser does not accept.
pub uninterp spec fn json_value(text: Seq<char>) -> Option<Tree>;

/// Brings a `rustc_serialize::json::Json` into the library's form, variant by
/// variant. Of a number with a fraction or an exponent only the kind is
/// kept; the fields of an object come in the order in which its map hands
/// them out. Nothing is promised of the result here: `from_str` speaks for
/// both.
#[verifier::external_body]
fn convert(parsed: rustc_serialize::json::Json) -> Value {
    match parsed {
        rustc_serialize::json::Json::I64(n) => Value::I64(n),
        rustc_serialize::json::Json::U64(n) => Value::U64(n),
        rustc_serialize::json::Json::F64(_) => Value::Float,
        rustc_serialize::json::Json::String(s) => Value::Text(s),
        rustc_serialize::json::Json::Boolean(b) => Value::Boolean(b),
        rustc_serialize::json::Json::Array(a) => Value::Array(a.into_iter().map(convert).collect()),
        rustc_serialize::json::Json::Object(o) => Value::Object(
            o.into_iter().map(|(k, v)| (k, convert(v))).collect(),
        ),
        rustc_serialize::json::Json::Null => Value::Null,
    }
}

/// `rustc_serialize::json::Json::from_str` parses a text as one JSON value.
///
/// The parser adds the digits of an exponent up in a `usize`, counts the
/// bytes of the names of the open fields in a `u16` and the items of an
/// array in a `u32`, and calls itself once for every array or object inside
/// another. At a comma before the closing brace of an object that stands
/// inside another value it takes the name or the place of that value off
/// its stack, and what builds the value from its events then finds the stack
/// in a state that it takes for impossible. A text within the limits comes
/// to none of these: its exponents stay below ten digits, its names below
/// `MAX_NAMES` bytes together, its items below its length, its nesting at
/// `MAX_DEPTH`, and it has no such comma. The contract says that on such a
/// text the outcome depends on the text alone: the value is `json_value` of
/// the text, and an error comes exactly where that is `None`.
#[verifier::external_body]
fn from_str(text: &str) -> (parsed: Result<Value, ParserError>)
    requires
        within_limits(text@),
    ensures
        match parsed {
            Ok(value) => json_value(text@) == Some(value@),
            Err(_) => json_value(text@) is None,
        },
{
    match rustc_serialize::json::Json::from_str(text) {
        Ok(value) => Ok(convert(value)),
        Err(error) => Err(error),
    }
}

/// What parsing a text gives: the value that the text stands for, or why
/// there is none: the text is beyond the limits of the parser, or it is no
/// JSON.
pub open spec fn parsed(text: Seq<char>) -> Result<Tree, Fault> {
    if !within_limits(text) {
        Err(Fault::Application(BEYOND_LIMITS@))
    } else {
        match json_value(text) {
            Some(value) => Ok(value),
            None => Err(Fault::Parse),
        }
    }
}

/// Parses a text as one JSON value.
///
/// A text beyond the limits of the parser is not handed to it: it is
/// refused with the words `BEYOND_LIMITS`.
pub fn parse(text: &str) -> (value: Result<Value, DecoderError>)
    ensures
        match value {
            Ok(v) => parsed(text@) == Ok::<Tree, Fault>(v@),
            Err(error) => parsed(text@) == Err::<Tree, Fault>(error@),
        },
{
    if !is_within_limits(text) {
        return Err(DecoderError::ApplicationError(String::from_str(BEYOND_LIMITS)));
    }
    match from_str(text) {
        Ok(v) => Ok(v),
        Err(error) => Err(DecoderError::ParseError(error)),
    }
}

} // verus!
