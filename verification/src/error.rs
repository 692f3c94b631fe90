use vstd::prelude::*;
use crate::util;

verus! {

/// An error of the service layer: a message and a response code.
#[derive(Clone, Debug)]
pub enum Error {
    E(String, i32),
}

impl Error {
    /// The message of the error, as it is shown to a client.
    pub open spec fn message(&self) -> Seq<char> {
        match self {
            Error::E(m, _) => m@,
        }
    }

    /// The response code of the error.
    pub open spec fn code(&self) -> i32 {
        match self {
            Error::E(_, c) => *c,
        }
    }

    /// An error with a message and the failure code.
    pub fn from_message(message: &str) -> (e: Error)
        ensures
            e.message() == message@,
            e.code() == util::CODE_FAIL,
    {
        Error::E(message.to_string(), util::CODE_FAIL)
    }

    /// An error with a message and a code.
    pub fn with_code(message: &str, code: i32) -> (e: Error)
        ensures
            e.message() == message@,
            e.code() == code,
    {
        Error::E(message.to_string(), code)
    }

    /// An error that carries a code alone, with an empty message.
    pub fn from_code(code: i32) -> (e: Error)
        ensures
            e.message() == Seq::<char>::empty(),
            e.code() == code,
    {
        Error::E(String::new(), code)
    }

    /// The text of the error: its message.
    pub fn to_string(&self) -> (s: String)
        ensures
            s@ == self.message(),
    {
        match self {
            Error::E(m, _) => m.clone(),
        }
    }
}

} // verus!
