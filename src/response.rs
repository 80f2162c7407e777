//! The envelope every answer of the repository's API comes in: a status,
//! the payload on success and a message on failure.

use vstd::prelude::*;

verus! {

/// Whether the service reports success.
#[derive(Debug, Clone, Copy, PartialEq, Eq, Structural)]
pub enum Status {
    OK,
    ERROR,
}

impl Status {
    pub fn as_str(&self) -> (r: &'static str)
        ensures
            *self == Status::OK ==> r@ == "OK"@,
            *self == Status::ERROR ==> r@ == "ERROR"@,
    {
        match self {
            Status::OK => "OK",
            Status::ERROR => "ERROR",
        }
    }

    pub fn is_ok(&self) -> (r: bool)
        ensures
            r == (*self == Status::OK),
    {
        match self {
            Status::OK => true,
            Status::ERROR => false,
        }
    }

    pub fn is_err(&self) -> (r: bool)
        ensures
            r == (*self == Status::ERROR),
    {
        match self {
            Status::OK => false,
            Status::ERROR => true,
        }
    }
}

/// A message that the service sends either as plain text or wrapped in an
/// object with a `message` field.
#[derive(Debug, Clone)]
pub enum Message {
    PlainMessage(String),
    NestedMessage(NestedMessage),
}

#[derive(Debug, Clone)]
pub struct NestedMessage {
    pub message: Option<String>,
}

impl NestedMessage {
    /// The text of the message.
    pub fn to_text(&self) -> (r: String)
        requires
            self.message is Some,
        ensures
            r@ == self.message.unwrap()@,
    {
        match &self.message {
            Some(m) => m.clone(),
            None => String::new(),
        }
    }
}

impl Message {
    /// The text of the message, whichever form it came in.
    pub open spec fn text(&self) -> Seq<char> {
        match self {
            Message::PlainMessage(m) => m@,
            Message::NestedMessage(n) => n.message.unwrap()@,
        }
    }

    /// Whether the message carries text.
    pub open spec fn has_text(&self) -> bool {
        match self {
            Message::PlainMessage(_) => true,
            Message::NestedMessage(n) => n.message is Some,
        }
    }

    pub fn to_text(&self) -> (r: String)
        requires
            self.has_text(),
        ensures
            r@ == self.text(),
    {
        match self {
            Message::PlainMessage(m) => m.clone(),
            Message::NestedMessage(n) => n.to_text(),
        }
    }
}

/// A decoded answer of the service.
#[derive(Debug, Clone)]
#[allow(non_snake_case)]
pub struct Response<T> {
    pub status: Status,
    pub data: Option<T>,
    pub message: Option<Message>,
    pub requestUrl: Option<String>,
    pub requestMethod: Option<String>,
}

} // verus!
