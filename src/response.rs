use vstd::prelude::*;

use crate::error::{description_text, encoded_status, error_code, source_text, AssuanError};
use crate::text::{decimal, decimal_string};

verus! {

/// One outcome to send to the client.
#[derive(Debug, PartialEq)]
pub enum Response {
    Success(Option<String>),
    Error(AssuanError),
    Data(String),
}

/// Mathematical model of a `Response`: its texts as character sequences.
pub enum ResponseModel {
    Success(Option<Seq<char>>),
    Error(AssuanError),
    Data(Seq<char>),
}

impl View for Response {
    type V = ResponseModel;

    open spec fn view(&self) -> ResponseModel {
        match self {
            Response::Success(Some(t)) => ResponseModel::Success(Some(t@)),
            Response::Success(None) => ResponseModel::Success(None),
            Response::Error(e) => ResponseModel::Error(*e),
            Response::Data(t) => ResponseModel::Data(t@),
        }
    }
}

/// The status line of an error: `ERR <encoded status> <description> <source>`.
pub open spec fn error_line(e: AssuanError) -> Seq<char> {
    "ERR "@ + decimal(encoded_status(error_code(e)) as nat) + " "@ + description_text(e) + " "@
        + source_text()
}

/// The status line of a response, without line terminator.
pub open spec fn render(r: ResponseModel) -> Seq<char> {
    match r {
        ResponseModel::Success(Some(t)) => "OK "@ + t,
        ResponseModel::Success(None) => "OK"@,
        ResponseModel::Error(e) => error_line(e),
        ResponseModel::Data(t) => "D "@ + t,
    }
}

impl AssuanError {
    /// The `ERR` status line of this error.
    pub fn to_string(&self) -> (r: String)
        ensures
            r@ == error_line(*self),
    {
        let mut r = String::from_str("ERR ");
        let code = decimal_string(self.assuan_code());
        r.append(code.as_str());
        r.append(" ");
        r.append(self.description());
        r.append(" ");
        r.append(self.source());
        r
    }
}

impl Response {
    /// The status line of this response, without line terminator.
    pub fn to_string(&self) -> (r: String)
        ensures
            r@ == render(self@),
    {
        match self {
            Response::Success(Some(t)) => String::from_str("OK ").concat(t.as_str()),
            Response::Success(None) => String::from_str("OK"),
            Response::Error(e) => e.to_string(),
            Response::Data(t) => String::from_str("D ").concat(t.as_str()),
        }
    }
}

} // verus!
