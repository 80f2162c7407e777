//! The ticket broker: asks the service where a file of a given size may be
//! stored, and tells single-part tickets from multipart ones.

use vstd::prelude::*;
use crate::error::TransferError;
use crate::request::{ApiCall, Method, RequestType};
use crate::response::{Message, Response, Status};
use crate::text::{decimal, replace_all, replace_text, starts_with, to_decimal};

verus! {

/// Where to store one file: a single pre-signed address, or one address per
/// chunk, and the identifier the stored object will be known by.
#[derive(Debug, Clone)]
pub struct TicketResponse {
    pub url: Option<String>,
    pub urls: Vec<String>,
    pub storage_identifier: Option<String>,
}

/// The destination of a single-part upload.
#[derive(Debug, Clone)]
pub struct UploadTarget {
    pub url: String,
    pub storage_identifier: Option<String>,
}

/// The endpoint that hands out tickets.
pub const TICKET_PATH: &'static str = "/api/datasets/:persistentId/uploadurls";

/// A ticket without a single-part address asks for a multipart upload.
pub fn is_multipart(ticket: &TicketResponse) -> (r: bool)
    ensures
        r == ticket.url is None,
{
    ticket.url.is_none()
}

/// The host name some storage services put into addresses that are only
/// reachable from inside their own network.
pub const INTERNAL_STORAGE_HOST: &'static str = "http://localstack";

/// What such addresses are rewritten to.
pub const LOCAL_STORAGE_HOST: &'static str = "http://localhost";

/// The address to send a file to: one that starts with the internal
/// storage host has that host replaced by the local one.
pub open spec fn storage_address(url: Seq<char>) -> Seq<char> {
    if INTERNAL_STORAGE_HOST@.is_prefix_of(url) {
        replace_all(url, INTERNAL_STORAGE_HOST@, LOCAL_STORAGE_HOST@)
    } else {
        url
    }
}

/// The address to send a file to, for the address a ticket gives.
pub fn parse_s3_url(url: Option<String>) -> (r: String)
    requires
        url is Some,
    ensures
        r@ == storage_address(url.unwrap()@),
{
    let url = match url {
        Some(u) => u,
        None => String::new(),
    };
    if starts_with(url.as_str(), INTERNAL_STORAGE_HOST) {
        proof {
            reveal_strlit("http://localstack");
        }
        replace_text(url.as_str(), INTERNAL_STORAGE_HOST, LOCAL_STORAGE_HOST)
    } else {
        url
    }
}

/// `r` asks for a ticket for a file of `size` bytes, to be stored in the
/// dataset `pid`.
pub open spec fn is_ticket_call(r: ApiCall, pid: Seq<char>, size: u64) -> bool {
    &&& r.method == Method::GET
    &&& r.path@ == TICKET_PATH@
    &&& r.context is Plain
    &&& r.parameters is Some
    &&& r.parameters.unwrap()@.len() == 2
    &&& r.parameters.unwrap()@[0].0@ == "persistentId"@
    &&& r.parameters.unwrap()@[0].1@ == pid
    &&& r.parameters.unwrap()@[1].0@ == "size"@
    &&& r.parameters.unwrap()@[1].1@ == decimal(size as nat)
}

/// The call that asks for a ticket for a file of `size` bytes, to be
/// stored in the dataset `pid`.
pub fn ticket_request(pid: &str, size: u64) -> (r: ApiCall)
    ensures
        is_ticket_call(r, pid@, size),
{
    let mut parameters: Vec<(String, String)> = Vec::new();
    parameters.push((String::from_str("persistentId"), pid.to_owned()));
    parameters.push((String::from_str("size"), to_decimal(size)));
    ApiCall {
        method: Method::GET,
        path: String::from_str(TICKET_PATH),
        parameters: Some(parameters),
        context: RequestType::Plain,
    }
}

/// The text of the message an answer carries, empty if it carries none.
pub open spec fn message_text(m: Option<Message>) -> Seq<char> {
    match m {
        Some(m) => if m.has_text() {
            m.text()
        } else {
            Seq::empty()
        },
        None => Seq::empty(),
    }
}

fn message_to_text(m: &Option<Message>) -> (r: String)
    ensures
        r@ == message_text(*m),
{
    match m {
        Some(msg) => {
            let has_text = match msg {
                Message::PlainMessage(_) => true,
                Message::NestedMessage(n) => n.message.is_some(),
            };
            if has_text {
                msg.to_text()
            } else {
                String::new()
            }
        },
        None => String::new(),
    }
}

/// What an answer to a ticket request leads to.
pub open spec fn ticket_outcome_ok(answer: Response<TicketResponse>, r: Result<UploadTarget, TransferError>) -> bool {
    if answer.status == Status::ERROR {
        r matches Err(TransferError::Service(m)) && m@ == message_text(answer.message)
    } else {
        match answer.data {
            None => r matches Err(TransferError::MissingData),
            Some(t) => if t.url is None {
                r matches Err(TransferError::MultipartUnsupported)
            } else {
                r matches Ok(target) && target.url@ == storage_address(t.url.unwrap()@)
                    && target.storage_identifier == t.storage_identifier
            },
        }
    }
}

/// Reads an answer to a ticket request: an error status fails with the
/// service's message, a missing ticket fails, and a multipart ticket fails
/// as unsupported before anything is uploaded; a single-part ticket gives
/// the address and the storage identifier.
pub fn process_ticket(answer: Response<TicketResponse>) -> (r: Result<UploadTarget, TransferError>)
    ensures
        ticket_outcome_ok(answer, r),
{
    if answer.status.is_err() {
        return Err(TransferError::Service(message_to_text(&answer.message)));
    }
    match answer.data {
        None => Err(TransferError::MissingData),
        Some(ticket) => {
            if is_multipart(&ticket) {
                Err(TransferError::MultipartUnsupported)
            } else {
                Ok(
                    UploadTarget {
                        url: parse_s3_url(ticket.url),
                        storage_identifier: ticket.storage_identifier,
                    },
                )
            }
        },
    }
}

} // verus!
