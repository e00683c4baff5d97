//! The replies of the remote account and controller service.

use crate::services::text::join;
use vstd::prelude::*;

verus! {

/// The requests that the application makes of the service.
#[derive(Clone, Copy, Debug, PartialEq, Eq, Structural)]
pub enum Endpoint {
    /// Sign a student in.
    Login,
    /// List the boards of a student.
    Controllers,
    /// Renew the access token.
    Refresh,
    /// Give a board back.
    Release,
    /// Reserve a board.
    Select,
}

/// Whether an HTTP status is one of success, 200 to 299.
pub open spec fn is_success(status: u16) -> bool {
    200 <= status < 300
}

impl Endpoint {
    /// The address of the request.
    pub fn url(self) -> (url: &'static str)
        ensures
            url@ == (match self {
                Endpoint::Login => "http://cloud.vm1.vithsutra.com:18083/auth/student/login"@,
                Endpoint::Controllers => "http://cloud.vm1.vithsutra.com:18083/student/controllers"@,
                Endpoint::Refresh => "http://cloud.vm1.vithsutra.com:18083/auth/token/refresh"@,
                Endpoint::Release => "http://cloud.vm1.vithsutra.com:18083/student/controllers/release"@,
                Endpoint::Select => "http://cloud.vm1.vithsutra.com:18083/student/controllers/select"@,
            }),
    {
        match self {
            Endpoint::Login => "http://cloud.vm1.vithsutra.com:18083/auth/student/login",
            Endpoint::Controllers => "http://cloud.vm1.vithsutra.com:18083/student/controllers",
            Endpoint::Refresh => "http://cloud.vm1.vithsutra.com:18083/auth/token/refresh",
            Endpoint::Release => "http://cloud.vm1.vithsutra.com:18083/student/controllers/release",
            Endpoint::Select => "http://cloud.vm1.vithsutra.com:18083/student/controllers/select",
        }
    }

    /// Whether a reply with this status carries an answer. Releasing and
    /// selecting a board take status 200 alone; the others take any status
    /// of success.
    pub open spec fn accepts(self, status: u16) -> bool {
        match self {
            Endpoint::Release => status == 200,
            Endpoint::Select => status == 200,
            _ => is_success(status),
        }
    }

    /// Sorts a reply: the body of an accepted reply is the answer, to be
    /// parsed; the body of any other reply is the error.
    pub fn sort_reply(self, status: u16, body: String) -> (sorted: Result<String, String>)
        ensures
            self.accepts(status) ==> sorted == Ok::<String, String>(body),
            !self.accepts(status) ==> sorted == Err::<String, String>(body),
    {
        let accepted = match self {
            Endpoint::Release => status == 200,
            Endpoint::Select => status == 200,
            _ => 200 <= status && status < 300,
        };
        if accepted {
            Ok(body)
        } else {
            Err(body)
        }
    }

    /// What is answered when the request could not be made, for the reason
    /// `detail`.
    pub fn request_failure(self, detail: &str) -> (message: String)
        ensures
            message@ == (match self {
                Endpoint::Refresh => "Request failed: "@ + detail@,
                _ => detail@,
            }),
    {
        match self {
            Endpoint::Refresh => join("Request failed: ", detail),
            _ => String::from_str(detail),
        }
    }

    /// What is answered when an accepted reply could not be parsed, for the
    /// reason `detail`.
    pub fn parse_failure(self, detail: &str) -> (message: String)
        ensures
            message@ == (match self {
                Endpoint::Login => "Login parse error: "@,
                _ => "Parse error: "@,
            }) + detail@,
    {
        match self {
            Endpoint::Login => join("Login parse error: ", detail),
            _ => join("Parse error: ", detail),
        }
    }
}

/// What is answered once a binary has been uploaded.
pub const UPLOAD_DONE: &'static str = "Upload successful";

/// The address of the message bus.
pub const NATS_ADDRESS: &'static str = "127.0.0.1:4222";

} // verus!
