//! The probe that passes while a URL answers with a 2xx status.

use crate::check::Check;
use crate::duration::Duration;
use vstd::prelude::*;
use vstd::string::*;

verus! {

/// The text in which `reqwest::StatusCode` shows the status with the number
/// `code`: the number, a space, and the reason phrase that the crate keeps
/// for the number.
pub uninterp spec fn status_line(code: u16) -> Seq<char>;

/// Calls `reqwest::StatusCode::is_success` on the status with the number
/// `code`. Not verified: that the call answers yes exactly for the numbers
/// from 200 to 299. `reqwest::StatusCode::from_u16` makes the status and
/// refuses numbers outside 100 to 999, which `requires` leaves out.
#[verifier::external_body]
fn status_is_success(code: u16) -> (ok: bool)
    requires
        100 <= code <= 999,
    ensures
        ok == (200 <= code <= 299),
{
    reqwest::StatusCode::from_u16(code).unwrap().is_success()
}

/// Calls `to_string`, by the `Display` of `reqwest::StatusCode`, on the
/// status with the number `code`. Not verified: that the text depends on
/// the number alone, which is all that [`status_line`] says of it.
/// `reqwest::StatusCode::from_u16` makes the status and refuses numbers
/// outside 100 to 999, which `requires` leaves out.
#[verifier::external_body]
fn status_to_string(code: u16) -> (line: String)
    requires
        100 <= code <= 999,
    ensures
        line@ == status_line(code),
{
    reqwest::StatusCode::from_u16(code).unwrap().to_string()
}

/// The status of an HTTP response: a number from 100 to 999.
#[derive(Clone, Copy, Debug, PartialEq, Eq)]
pub struct HttpStatus {
    code: u16,
}

impl View for HttpStatus {
    type V = u16;

    closed spec fn view(&self) -> u16 {
        self.code
    }
}

impl HttpStatus {
    /// The number lies from 100 to 999.
    #[verifier::type_invariant]
    pub closed spec fn wf(&self) -> bool {
        100 <= self.code <= 999
    }

    /// The status with the number `code`, where that is from 100 to 999.
    pub fn from_u16(code: u16) -> (r: Option<HttpStatus>)
        ensures
            100 <= code <= 999 <==> r is Some,
            r matches Some(status) ==> status@ == code && status.wf(),
    {
        if 100 <= code && code <= 999 {
            Some(HttpStatus { code })
        } else {
            None
        }
    }

    /// The number of the status.
    pub fn as_u16(&self) -> (code: u16)
        ensures
            code == self@,
            100 <= code <= 999,
    {
        proof {
            use_type_invariant(self);
        }
        self.code
    }

    /// Whether the status reports success: a number from 200 to 299.
    pub fn is_success(&self) -> (ok: bool)
        ensures
            ok == (200 <= self@ <= 299),
    {
        proof {
            use_type_invariant(self);
        }
        status_is_success(self.code)
    }

    /// The status as shown in diagnostics.
    pub fn line(&self) -> (line: String)
        ensures
            line@ == status_line(self@),
    {
        proof {
            use_type_invariant(self);
        }
        status_to_string(self.code)
    }
}

/// How one request ended.
#[derive(Debug)]
pub enum HttpReply {
    /// A response arrived; holds its status.
    Status(HttpStatus),
    /// No response arrived; holds the cause.
    Failed(String),
}

/// A probe for a URL, with the limit for one request.
#[derive(Debug)]
pub struct HttpCheck {
    url: String,
    description: String,
    timeout: Duration,
}

/// The reason given where `url` answered with a status that is shown as
/// `line` and does not report success.
pub open spec fn status_failure(url: Seq<char>, line: Seq<char>) -> Seq<char> {
    "http "@ + url + " returned status "@ + line
}

/// The reason given where the request to `url` got no response because of
/// `cause`.
pub open spec fn request_failure(url: Seq<char>, cause: Seq<char>) -> Seq<char> {
    "http "@ + url + ": "@ + cause
}

/// Words the reason for a response to `url` whose status, shown as `line`,
/// does not report success.
pub fn describe_status_failure(url: &str, line: &str) -> (reason: String)
    ensures
        reason@ == status_failure(url@, line@),
{
    String::from_str("http ").concat(url).concat(" returned status ").concat(line)
}

impl HttpCheck {
    /// The name is `http:` followed by the URL.
    #[verifier::type_invariant]
    pub closed spec fn wf(&self) -> bool {
        &&& self.description@ == "http:"@ + self.url@
        &&& self.timeout.wf()
    }

    /// The URL that is requested.
    pub closed spec fn url(&self) -> Seq<char> {
        self.url@
    }

    /// The limit for one request, in nanoseconds.
    pub closed spec fn limit(&self) -> nat {
        self.timeout@
    }

    /// A probe for `url` that gives each request `timeout`.
    pub fn new(url: String, timeout: Duration) -> (check: HttpCheck)
        ensures
            check.url() == url@,
            check.limit() == timeout@,
            check.wf(),
    {
        proof {
            use_type_invariant(timeout);
        }
        let description = String::from_str("http:").concat(url.as_str());
        HttpCheck { url, description, timeout }
    }

    /// The URL that is requested.
    pub fn target(&self) -> (url: &str)
        ensures
            url@ == self.url(),
    {
        self.url.as_str()
    }

    /// The limit for one request.
    pub fn timeout(&self) -> (limit: Duration)
        ensures
            limit@ == self.limit(),
            limit.wf(),
    {
        proof {
            use_type_invariant(self);
        }
        self.timeout
    }

    /// Judges one request: the probe passes where a response with a status
    /// from 200 to 299 arrived, and fails with a reason otherwise.
    pub fn evaluate(&self, reply: &HttpReply) -> (r: Result<(), String>)
        ensures
            r is Ok <==> (*reply matches HttpReply::Status(status) && 200 <= status@ <= 299),
            r matches Err(reason) ==> reason@ == (match *reply {
                HttpReply::Status(status) => status_failure(self.url(), status_line(status@)),
                HttpReply::Failed(cause) => request_failure(self.url(), cause@),
            }),
    {
        match reply {
            HttpReply::Status(status) => {
                if status.is_success() {
                    Ok(())
                } else {
                    let line = status.line();
                    Err(describe_status_failure(self.url.as_str(), line.as_str()))
                }
            },
            HttpReply::Failed(cause) => Err(
                String::from_str("http ").concat(self.url.as_str()).concat(": ").concat(
                    cause.as_str(),
                ),
            ),
        }
    }
}

impl Check for HttpCheck {
    open spec fn label(&self) -> Seq<char> {
        "http:"@ + self.url()
    }

    fn description(&self) -> (d: &str) {
        proof {
            use_type_invariant(self);
        }
        self.description.as_str()
    }
}

} // verus!
