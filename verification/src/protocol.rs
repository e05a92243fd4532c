//! JSON-RPC requests and errors.

use vstd::prelude::*;
use vstd::string::*;

use crate::json::{Json, JsonView};

verus! {

/// The method of a request is not known.
pub const METHOD_NOT_FOUND: i32 = -32601;

/// The parameters of a request do not have the required shape.
pub const INVALID_PARAMS: i32 = -32602;

/// A JSON-RPC request.
#[derive(Debug, Clone)]
pub struct Request {
    pub jsonrpc: String,
    pub id: Option<Json>,
    pub method: String,
    pub params: Json,
}

/// A JSON-RPC error object.
#[derive(Debug)]
pub struct Error {
    pub code: i32,
    pub message: String,
    pub data: Option<Json>,
}

/// The mathematical model of an [`Error`].
pub struct ErrorView {
    pub code: int,
    pub message: Seq<char>,
    pub data: Option<JsonView>,
}

impl View for Error {
    type V = ErrorView;

    open spec fn view(&self) -> ErrorView {
        ErrorView {
            code: self.code as int,
            message: self.message@,
            data: match self.data {
                Some(d) => Some(d@),
                None => None,
            },
        }
    }
}

impl Error {
    /// An error without data.
    pub fn new(code: i32, message: &str) -> (e: Error)
        ensures
            e@ == (ErrorView { code: code as int, message: message@, data: None }),
    {
        Error { code, message: message.to_owned(), data: None }
    }

    /// An error with data.
    pub fn with_data(code: i32, message: &str, data: Json) -> (e: Error)
        ensures
            e@ == (ErrorView { code: code as int, message: message@, data: Some(data@) }),
    {
        Error { code, message: message.to_owned(), data: Some(data) }
    }
}

} // verus!
