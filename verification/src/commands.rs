//! The probe itself: what it asks of an HTTP client, what the client's
//! answer amounts to, and how the process ends on it.

use crate::args::{resolve, Config, ConfigError, ConfigErrorView, ConfigView};
use crate::decimal::{decimal, push_decimal};
use crate::env::Env;
use crate::url::is_probe_url;
use vstd::prelude::*;

verus! {

/// The exit status of a probe that found the service well.
pub const EXIT_SUCCESS: i32 = 0;

/// The exit status of a probe that got a bad status or no response at all.
pub const EXIT_FAILURE: i32 = 1;

/// The one GET that a probe makes, as an HTTP client needs it.
#[derive(Debug, PartialEq, Eq)]
pub struct ProbeRequest {
    pub url: String,
    /// Seconds allowed for establishing the connection.
    pub connect_timeout: u64,
    /// Seconds allowed for the whole exchange.
    pub request_timeout: u64,
    /// Whether the client accepts any certificate that the server presents.
    pub insecure: bool,
}

/// What came of the one attempt.
#[derive(Debug, PartialEq, Eq)]
pub enum ProbeResult {
    /// A response arrived, with this status code. The client follows
    /// redirects, so the code is that of the last response.
    Status(u16),
    /// No response arrived: the name did not resolve, the connection was
    /// refused, a timeout ran out, TLS failed. Holds the cause in words.
    Failed(String),
}

/// Why a probe failed.
#[derive(Debug, PartialEq, Eq)]
pub enum Error {
    /// No response arrived. Holds the cause in words.
    RequestError(String),
    /// A response arrived with a status outside `200..300`.
    InvalidResponseCode(u16),
}

/// How a probe ended.
#[derive(Debug, PartialEq, Eq)]
pub enum Outcome {
    Success,
    BadStatus(u16),
    TransportFailure(String),
}

/// Whether a status code says that the request succeeded: from 200 up to,
/// and not including, 300.
pub open spec fn is_success(code: u16) -> bool {
    200 <= code && code < 300
}

/// The line that reports a request that got no response.
fn request_error_line(cause: &String) -> (line: String)
    ensures
        line@ == "request error: "@ + cause@ + "\n"@,
{
    let mut line = String::from_str("request error: ");
    line.append(cause.as_str());
    line.append("\n");
    line
}

/// The line that reports a response with a bad status.
fn bad_status_line(code: u16) -> (line: String)
    ensures
        line@ == "bad response code: "@ + decimal(code as nat) + "\n"@,
{
    let mut line = String::from_str("bad response code: ");
    push_decimal(&mut line, code as u64);
    line.append("\n");
    line
}

impl Error {
    /// The line that reports the failure, its line break included.
    pub open spec fn text(self) -> Seq<char> {
        match self {
            Error::RequestError(cause) => "request error: "@ + cause@ + "\n"@,
            Error::InvalidResponseCode(code) => "bad response code: "@ + decimal(code as nat)
                + "\n"@,
        }
    }

    /// The line that reports the failure, its line break included.
    pub fn message(&self) -> (message: String)
        ensures
            message@ == self.text(),
    {
        match self {
            Error::RequestError(cause) => request_error_line(cause),
            Error::InvalidResponseCode(code) => bad_status_line(*code),
        }
    }
}

impl Outcome {
    /// The outcome that a result amounts to. A status is a success if and only
    /// if it lies in `200..300`; any other is reported with its code.
    pub open spec fn of(result: ProbeResult) -> Outcome {
        match result {
            ProbeResult::Status(code) => if is_success(code) {
                Outcome::Success
            } else {
                Outcome::BadStatus(code)
            },
            ProbeResult::Failed(cause) => Outcome::TransportFailure(cause),
        }
    }

    /// The outcome as a `Result`: success, or the failure that it holds.
    pub open spec fn verdict(self) -> Result<(), Error> {
        match self {
            Outcome::Success => Ok(()),
            Outcome::BadStatus(code) => Err(Error::InvalidResponseCode(code)),
            Outcome::TransportFailure(cause) => Err(Error::RequestError(cause)),
        }
    }

    /// The exit status that the outcome calls for.
    pub open spec fn status(self) -> i32 {
        match self {
            Outcome::Success => EXIT_SUCCESS,
            _ => EXIT_FAILURE,
        }
    }

    /// What the outcome puts on the error stream: nothing on success.
    pub open spec fn text(self) -> Option<Seq<char>> {
        match self.verdict() {
            Ok(_) => None,
            Err(error) => Some(error.text()),
        }
    }

    /// The outcome that `result` amounts to.
    pub fn classify(result: ProbeResult) -> (outcome: Outcome)
        ensures
            outcome == Outcome::of(result),
    {
        match result {
            ProbeResult::Status(code) => {
                if code >= 200 && code < 300 {
                    Outcome::Success
                } else {
                    Outcome::BadStatus(code)
                }
            },
            ProbeResult::Failed(cause) => Outcome::TransportFailure(cause),
        }
    }

    /// The outcome as a `Result`: success, or the failure that it holds.
    pub fn into_result(self) -> (r: Result<(), Error>)
        ensures
            r == self.verdict(),
    {
        match self {
            Outcome::Success => Ok(()),
            Outcome::BadStatus(code) => Err(Error::InvalidResponseCode(code)),
            Outcome::TransportFailure(cause) => Err(Error::RequestError(cause)),
        }
    }

    /// The exit status that the outcome calls for.
    pub fn exit_code(&self) -> (code: i32)
        ensures
            code == self.status(),
    {
        match self {
            Outcome::Success => EXIT_SUCCESS,
            _ => EXIT_FAILURE,
        }
    }

    /// The line for the error stream, if the outcome has one.
    pub fn message(&self) -> (message: Option<String>)
        ensures
            match message {
                Some(line) => self.text() == Some(line@),
                None => self.text() is None,
            },
    {
        match self {
            Outcome::Success => None,
            Outcome::BadStatus(code) => Some(bad_status_line(*code)),
            Outcome::TransportFailure(cause) => Some(request_error_line(cause)),
        }
    }
}

/// A probe ends with status 0 if and only if a response arrived whose status
/// lies in `200..300`. Then, and only then, it has nothing to report; in every
/// other case it ends with status 1.
pub proof fn lemma_only_success_exits_with_zero(result: ProbeResult)
    ensures
        Outcome::of(result).status() == EXIT_SUCCESS <==> (result matches ProbeResult::Status(code)
            && is_success(code)),
        Outcome::of(result).status() != EXIT_SUCCESS ==> Outcome::of(result).status()
            == EXIT_FAILURE,
        Outcome::of(result).text() is None <==> Outcome::of(result).status() == EXIT_SUCCESS,
        Outcome::of(result).verdict() is Ok <==> Outcome::of(result).status() == EXIT_SUCCESS,
{
}

/// A probe that is ready to run: its request is fixed, its result is yet to
/// come.
#[derive(Debug, PartialEq, Eq)]
pub struct THC {
    config: Config,
}

impl THC {
    /// The configuration that the probe was made with.
    pub closed spec fn config(&self) -> ConfigView {
        self.config@
    }

    /// What a result of [`THC::new`] says in terms of plain text and numbers.
    pub open spec fn made(r: Result<THC, ConfigError>) -> Result<ConfigView, ConfigErrorView> {
        match r {
            Ok(thc) => Ok(thc.config()),
            Err(error) => Err(error@),
        }
    }

    /// Prepares a probe from the command line and the environment. Nothing
    /// is sent yet.
    pub fn new(args: &[String], env: &Env) -> (r: Result<THC, ConfigError>)
        ensures
            THC::made(r) == resolve(args@.len(), env@),
            r matches Ok(thc) ==> thc.config().wf(),
    {
        match Config::new(args, env) {
            Ok(config) => Ok(THC { config }),
            Err(error) => Err(error),
        }
    }

    /// The request to make: the URL and both timeouts are those of the
    /// configuration. `insecure` says whether the client may accept a
    /// certificate that it cannot verify; it holds for this request alone and
    /// is handed on as given.
    pub fn request(&self, insecure: bool) -> (request: ProbeRequest)
        ensures
            request.url@ == self.config().url(),
            request.connect_timeout == self.config().connect_timeout,
            request.request_timeout == self.config().request_timeout,
            request.insecure == insecure,
            is_probe_url(request.url@),
    {
        ProbeRequest {
            url: self.config.url(),
            connect_timeout: self.config.connect_timeout(),
            request_timeout: self.config.request_timeout(),
            insecure,
        }
    }

    /// Ends the probe on the result of its request: `Ok` for a status in
    /// `200..300`, the failure for anything else.
    pub fn exec(self, result: ProbeResult) -> (r: Result<(), Error>)
        ensures
            r == Outcome::of(result).verdict(),
    {
        Outcome::classify(result).into_result()
    }
}

} // verus!
