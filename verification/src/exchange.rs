//! What goes to the transport and what comes back from it.

use vstd::prelude::*;

verus! {

/// An authenticated GET: the address, and the one header that carries the
/// credential.
#[derive(Debug, Clone, PartialEq, Eq)]
pub struct Request {
    pub url: String,
    pub header_name: String,
    pub header_value: String,
}

/// A [`Request`] as three sequences of characters.
pub struct RequestView {
    pub url: Seq<char>,
    pub header_name: Seq<char>,
    pub header_value: Seq<char>,
}

impl View for Request {
    type V = RequestView;

    open spec fn view(&self) -> RequestView {
        RequestView {
            url: self.url@,
            header_name: self.header_name@,
            header_value: self.header_value@,
        }
    }
}

/// What the transport reports of one request.
#[derive(Debug, Clone, PartialEq, Eq)]
pub enum Exchange {
    /// The server answered, with this status code and this body.
    Completed { status: u16, body: String },
    /// No answer came: the network could not be reached, the transport timed
    /// out, or the answer could not be read.
    Failed { cause: String },
}

/// Why a client could not be made, or a query gave no record.
#[derive(Debug, Clone, PartialEq, Eq)]
pub enum ClientError {
    /// The transport could not be set up.
    Configuration(String),
    /// The exchange failed, or the server answered with a status outside
    /// 200..=299. `status` is the server's, where it answered; `detail` is the
    /// body it sent, or else the transport's account of the failure.
    Request { status: Option<u16>, detail: String },
    /// The body is not a document of the expected shape.
    Decode(String),
}

impl ClientError {
    /// The text that the error carries.
    pub open spec fn detail(self) -> String {
        match self {
            ClientError::Configuration(reason) => reason,
            ClientError::Request { status, detail } => detail,
            ClientError::Decode(message) => message,
        }
    }
}

/// The status codes that stand for success.
pub open spec fn is_success(status: u16) -> bool {
    200 <= status < 300
}

/// What an exchange comes to before its body is read: the body itself, or the
/// error that the exchange stands for.
pub open spec fn accepted(exchange: Exchange) -> Result<String, ClientError> {
    match exchange {
        Exchange::Completed { status, body } => if is_success(status) {
            Ok(body)
        } else {
            Err(ClientError::Request { status: Some(status), detail: body })
        },
        Exchange::Failed { cause } => Err(ClientError::Request { status: None, detail: cause }),
    }
}

/// What a decoder's verdict comes to: the record, or a decode error with the
/// decoder's message.
pub open spec fn decoded<T>(verdict: Result<T, String>) -> Result<T, ClientError> {
    match verdict {
        Ok(record) => Ok(record),
        Err(message) => Err(ClientError::Decode(message)),
    }
}

/// What a query comes to, given the exchange and the verdict `verdict` that the
/// decoder gives on a delivered body. The verdict counts only where a body was
/// delivered.
pub open spec fn fetched<T>(exchange: Exchange, verdict: Result<T, String>) -> Result<
    T,
    ClientError,
> {
    match accepted(exchange) {
        Ok(body) => decoded(verdict),
        Err(error) => Err(error),
    }
}

/// Sorts an exchange into a body to decode and a request error.
pub fn accept(exchange: Exchange) -> (r: Result<String, ClientError>)
    ensures
        r == accepted(exchange),
{
    match exchange {
        Exchange::Completed { status, body } => {
            if 200 <= status && status < 300 {
                Ok(body)
            } else {
                Err(ClientError::Request { status: Some(status), detail: body })
            }
        },
        Exchange::Failed { cause } => Err(ClientError::Request { status: None, detail: cause }),
    }
}

/// Turns a decoder's verdict into the query's result.
pub fn settle<T>(verdict: Result<T, String>) -> (r: Result<T, ClientError>)
    ensures
        r == decoded(verdict),
{
    match verdict {
        Ok(record) => Ok(record),
        Err(message) => Err(ClientError::Decode(message)),
    }
}

/// The shared path from an exchange to a typed record.
///
/// A failed exchange and a status outside 200..=299 are request errors, and
/// `decode` is not called. Otherwise `decode` is called once, on the body, and
/// its verdict is the result: the record, or a decode error.
pub fn fetch_data<T, D: FnOnce(String) -> Result<T, String>>(exchange: Exchange, decode: D) -> (r:
    Result<T, ClientError>)
    requires
        accepted(exchange) matches Ok(body) ==> call_requires(decode, (body,)),
    ensures
        exists|verdict: Result<T, String>|
            {
                &&& accepted(exchange) matches Ok(body) ==> call_ensures(decode, (body,), verdict)
                &&& r == fetched(exchange, verdict)
            },
{
    match accept(exchange) {
        Ok(body) => {
            let verdict = decode(body);
            let r = settle(verdict);
            assert(call_ensures(decode, (body,), verdict) && r == fetched(exchange, verdict));
            r
        },
        Err(error) => {
            let r = Err(error);
            assert(r == fetched::<T>(exchange, Err(error.detail())));
            r
        },
    }
}

} // verus!
