use vstd::prelude::*;
use vstd::string::StringExecFns;

use crate::bytes::to_vec;
use crate::error::Error;

verus! {

/// What is sent with a report: the body, and its length for the
/// `content-length` header.
#[derive(Debug)]
pub struct Request {
    pub body: Vec<u8>,
    pub content_length: usize,
}

/// The body of a report: the payload, or nothing.
pub open spec fn spec_body(payload: Option<Seq<u8>>) -> Seq<u8> {
    match payload {
        Some(bytes) => bytes,
        None => Seq::empty(),
    }
}

/// Whether a status is one of success: 200 to 299.
pub open spec fn spec_is_success(status: u16) -> bool {
    200 <= status < 300
}

#[verifier::when_used_as_spec(spec_is_success)]
pub fn is_success(status: u16) -> (success: bool)
    ensures
        success == spec_is_success(status),
{
    200 <= status && status < 300
}

/// Where a report goes: the backend's address, a question mark, the name of
/// the query parameter, an equals sign and the value.
pub open spec fn spec_report_url(base: Seq<char>, param: Seq<char>, value: Seq<char>) -> Seq<char> {
    base + "?"@ + param + "="@ + value
}

pub fn report_url(base: &str, param: &str, value: &str) -> (url: String)
    ensures
        url@ == spec_report_url(base@, param@, value@),
{
    let mut url = String::from_str(base);
    url.append("?");
    url.append(param);
    url.append("=");
    url.append(value);
    url
}

/// The reporter's decisions before and after the transport does its work.
#[derive(Clone, Copy, Debug, PartialEq, Eq, Structural)]
pub struct Client {}

impl Client {
    /// Before a report: refused while the network is down, else the request
    /// to send.
    pub fn prepare(network_up: bool, payload: Option<&[u8]>) -> (request: Result<Request, Error>)
        ensures
            !network_up ==> (request matches Err(e) && e == Error::NetworkDown),
            network_up ==> (request matches Ok(r) && r.body@ == spec_body(
                match payload {
                    Some(bytes) => Some(bytes@),
                    None => None,
                },
            ) && r.content_length == r.body@.len()),
    {
        if !network_up {
            return Err(Error::NetworkDown);
        }
        let body = match payload {
            Some(bytes) => to_vec(bytes),
            None => Vec::new(),
        };
        let content_length = body.len();
        Ok(Request { body, content_length })
    }

    /// After a report: the status if it is one of success, else a failure
    /// that names it.
    pub fn conclude(status: u16) -> (r: Result<u16, Error>)
        ensures
            r == (if spec_is_success(status) {
                Ok::<u16, Error>(status)
            } else {
                Err::<u16, Error>(Error::RequestFailed(status))
            }),
    {
        if is_success(status) {
            Ok(status)
        } else {
            Err(Error::RequestFailed(status))
        }
    }
}

} // verus!
