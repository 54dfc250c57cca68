//! What can go wrong in a run.

use vstd::prelude::*;
use vstd::std_specs::convert::FromSpecImpl;

verus! {

/// The error of the JSON parser. The library only carries it.
#[verifier::external_type_specification]
#[verifier::external_body]
pub struct ExParserError(rustc_serialize::json::ParserError);

/// A transfer that failed: the code that the transfer library gave.
#[derive(Debug)]
pub struct ErrCode(pub u32);

/// A command that failed: the code of the operating system, where it gave
/// one, and what went wrong, in words.
#[derive(Debug)]
pub struct IoError {
    pub code: Option<i32>,
    pub detail: String,
}

/// A failed command as mathematics.
pub ghost struct IoFault {
    pub code: Option<i32>,
    pub detail: Seq<char>,
}

impl View for IoError {
    type V = IoFault;

    open spec fn view(&self) -> IoFault {
        IoFault { code: self.code, detail: self.detail@ }
    }
}

/// A command line that could not be understood, in words.
#[derive(Debug)]
pub struct UsageError {
    pub detail: String,
}

/// The kinds of JSON values.
#[derive(Clone, Copy, Debug, PartialEq, Eq, Structural)]
pub enum Kind {
    /// A whole number held with a sign.
    I64,
    /// A whole number held without a sign.
    U64,
    /// A number with a fraction or an exponent.
    Float,
    Text,
    Boolean,
    Array,
    Object,
    Null,
}

/// Why a response could not be read.
#[derive(Debug)]
pub enum DecoderError {
    /// The text is not JSON.
    ParseError(rustc_serialize::json::ParserError),
    /// A value of the first kind was needed where one of the second kind
    /// stands.
    ExpectedError(Kind, Kind),
    /// An object lacks the field of this name.
    MissingFieldError(String),
    /// The response as a whole is not what the service is known to send.
    ApplicationError(String),
}

/// Why a response could not be read, as mathematics.
pub ghost enum Fault {
    Parse,
    Expected(Kind, Kind),
    MissingField(Seq<char>),
    Application(Seq<char>),
}

impl View for DecoderError {
    type V = Fault;

    open spec fn view(&self) -> Fault {
        match self {
            DecoderError::ParseError(_) => Fault::Parse,
            DecoderError::ExpectedError(wanted, found) => Fault::Expected(*wanted, *found),
            DecoderError::MissingFieldError(name) => Fault::MissingField(name@),
            DecoderError::ApplicationError(words) => Fault::Application(words@),
        }
    }
}

/// Every failure of a run. Each of them ends the run.
#[derive(Debug)]
pub enum Error {
    HTTPError(ErrCode),
    JSONDecoderError(DecoderError),
    JSONParserError(rustc_serialize::json::ParserError),
    GitError(IoError),
    DocoptError(UsageError),
}

impl From<ErrCode> for Error {
    fn from(error: ErrCode) -> (e: Error) {
        Error::HTTPError(error)
    }
}

impl FromSpecImpl<ErrCode> for Error {
    open spec fn obeys_from_spec() -> bool {
        true
    }

    open spec fn from_spec(error: ErrCode) -> Error {
        Error::HTTPError(error)
    }
}

impl From<DecoderError> for Error {
    fn from(error: DecoderError) -> (e: Error) {
        Error::JSONDecoderError(error)
    }
}

impl FromSpecImpl<DecoderError> for Error {
    open spec fn obeys_from_spec() -> bool {
        true
    }

    open spec fn from_spec(error: DecoderError) -> Error {
        Error::JSONDecoderError(error)
    }
}

impl From<rustc_serialize::json::ParserError> for Error {
    fn from(error: rustc_serialize::json::ParserError) -> (e: Error) {
        Error::JSONParserError(error)
    }
}

impl FromSpecImpl<rustc_serialize::json::ParserError> for Error {
    open spec fn obeys_from_spec() -> bool {
        true
    }

    open spec fn from_spec(error: rustc_serialize::json::ParserError) -> Error {
        Error::JSONParserError(error)
    }
}

impl From<IoError> for Error {
    fn from(error: IoError) -> (e: Error) {
        Error::GitError(error)
    }
}

impl FromSpecImpl<IoError> for Error {
    open spec fn obeys_from_spec() -> bool {
        true
    }

    open spec fn from_spec(error: IoError) -> Error {
        Error::GitError(error)
    }
}

impl From<UsageError> for Error {
    fn from(error: UsageError) -> (e: Error) {
        Error::DocoptError(error)
    }
}

impl FromSpecImpl<UsageError> for Error {
    open spec fn obeys_from_spec() -> bool {
        true
    }

    open spec fn from_spec(error: UsageError) -> Error {
        Error::DocoptError(error)
    }
}

} // verus!
