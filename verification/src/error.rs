//! The errors that the request handlers answer with.

use vstd::prelude::*;
use vstd::std_specs::convert::FromSpecImpl;

verus! {

/// The status code of every error that carries no code of its own.
pub const INTERNAL_ERROR: u16 = 500;

/// An error of the directory, as a message.
#[derive(Debug)]
pub enum TenKbError {
    Msg(String),
}

/// An error that is answered as a page: the status code and the text.
#[derive(Debug)]
pub struct HtmlError {
    code: u16,
    status: String,
}

/// An error that is answered as a JSON object: the status code and the text.
#[derive(Debug)]
pub struct JsonError {
    code: u16,
    status: String,
}

/// An error of either kind as plain values.
pub struct ErrorModel {
    pub code: u16,
    pub status: Seq<char>,
}

impl View for TenKbError {
    type V = Seq<char>;

    open spec fn view(&self) -> Seq<char> {
        match *self {
            TenKbError::Msg(text) => text@,
        }
    }
}

impl TenKbError {
    /// The message of the error.
    pub fn message(&self) -> (text: &str)
        ensures
            text@ == self@,
    {
        match self {
            TenKbError::Msg(text) => text.as_str(),
        }
    }
}

impl View for HtmlError {
    type V = ErrorModel;

    closed spec fn view(&self) -> ErrorModel {
        ErrorModel { code: self.code, status: self.status@ }
    }
}

impl View for JsonError {
    type V = ErrorModel;

    closed spec fn view(&self) -> ErrorModel {
        ErrorModel { code: self.code, status: self.status@ }
    }
}

impl HtmlError {
    /// The status code to answer with.
    pub fn code(&self) -> (code: u16)
        ensures
            code == self@.code,
    {
        self.code
    }

    /// The text to answer with: the body of the page.
    pub fn status(&self) -> (text: &str)
        ensures
            text@ == self@.status,
    {
        self.status.as_str()
    }

    /// An error with a status code of its own.
    pub fn with_code(code: u16, status: String) -> (e: HtmlError)
        ensures
            e@ == (ErrorModel { code, status: status@ }),
    {
        HtmlError { code, status }
    }
}

impl JsonError {
    /// The status code to answer with.
    pub fn code(&self) -> (code: u16)
        ensures
            code == self@.code,
    {
        self.code
    }

    /// The text to answer with.
    pub fn status(&self) -> (text: &str)
        ensures
            text@ == self@.status,
    {
        self.status.as_str()
    }

    /// An error with a status code of its own.
    pub fn with_code(code: u16, status: String) -> (e: JsonError)
        ensures
            e@ == (ErrorModel { code, status: status@ }),
    {
        JsonError { code, status }
    }
}

impl From<TenKbError> for HtmlError {
    fn from(err: TenKbError) -> (e: HtmlError)
        ensures
            e@ == (ErrorModel { code: 500, status: err@ }),
    {
        match err {
            TenKbError::Msg(text) => HtmlError { code: INTERNAL_ERROR, status: text },
        }
    }
}

impl FromSpecImpl<TenKbError> for HtmlError {
    open spec fn obeys_from_spec() -> bool {
        true
    }

    closed spec fn from_spec(err: TenKbError) -> HtmlError {
        match err {
            TenKbError::Msg(text) => HtmlError { code: INTERNAL_ERROR, status: text },
        }
    }
}

impl From<String> for HtmlError {
    fn from(err: String) -> (e: HtmlError)
        ensures
            e@ == (ErrorModel { code: 500, status: err@ }),
    {
        HtmlError { code: INTERNAL_ERROR, status: err }
    }
}

impl FromSpecImpl<String> for HtmlError {
    open spec fn obeys_from_spec() -> bool {
        true
    }

    closed spec fn from_spec(err: String) -> HtmlError {
        HtmlError { code: INTERNAL_ERROR, status: err }
    }
}

impl From<&'static str> for JsonError {
    fn from(msg: &'static str) -> (e: JsonError)
        ensures
            e@ == (ErrorModel { code: 500, status: msg@ }),
    {
        JsonError { code: INTERNAL_ERROR, status: String::from_str(msg) }
    }
}

/// The text of the error is a new string, of which only the characters are
/// known: what `from` gives is stated by its own contract.
impl FromSpecImpl<&'static str> for JsonError {
    open spec fn obeys_from_spec() -> bool {
        false
    }

    closed spec fn from_spec(msg: &'static str) -> JsonError {
        arbitrary()
    }
}

impl From<String> for JsonError {
    fn from(msg: String) -> (e: JsonError)
        ensures
            e@ == (ErrorModel { code: 500, status: msg@ }),
    {
        JsonError { code: INTERNAL_ERROR, status: msg }
    }
}

impl FromSpecImpl<String> for JsonError {
    open spec fn obeys_from_spec() -> bool {
        true
    }

    closed spec fn from_spec(msg: String) -> JsonError {
        JsonError { code: INTERNAL_ERROR, status: msg }
    }
}

impl From<TenKbError> for JsonError {
    fn from(err: TenKbError) -> (e: JsonError)
        ensures
            e@ == (ErrorModel { code: 500, status: err@ }),
    {
        match err {
            TenKbError::Msg(text) => JsonError { code: INTERNAL_ERROR, status: text },
        }
    }
}

impl FromSpecImpl<TenKbError> for JsonError {
    open spec fn obeys_from_spec() -> bool {
        true
    }

    closed spec fn from_spec(err: TenKbError) -> JsonError {
        match err {
            TenKbError::Msg(text) => JsonError { code: INTERNAL_ERROR, status: text },
        }
    }
}

} // verus!
