//! Replies of the Auth Gateway and of the osu! API, before their bodies are read.

use vstd::prelude::*;

verus! {

/// What `http::StatusCode` shows: the code and its standard reason.
pub uninterp spec fn status_line(code: u16) -> Seq<char>;

/// `http::StatusCode::from_u16`, shown: the code and its standard reason. The
/// table of reasons is the crate's and is only named here.
#[verifier::external_body]
pub(crate) fn show_status(code: u16) -> (r: String)
    requires
        100 <= code <= 999,
    ensures
        r@ == status_line(code),
{
    axum::http::StatusCode::from_u16(code).expect("a status of three digits").to_string()
}

/// How a request to another service failed.
#[derive(Debug, PartialEq)]
pub enum Failure {
    /// No reply came.
    Unreachable { cause: String },
    /// The reply was no success. `status` is a number of three digits.
    Refused { status: u16, body: String },
    /// The body of the reply could not be read.
    Unreadable { cause: String },
}

impl Failure {
    /// Statuses have three digits.
    pub open spec fn valid(self) -> bool {
        self matches Failure::Refused { status, .. } ==> 100 <= status <= 999
    }
}

/// True for the statuses of success.
pub open spec fn success(status: u16) -> bool {
    200 <= status < 300
}

/// Tests a status for success.
pub fn is_success(status: u16) -> (r: bool)
    ensures
        r == success(status),
{
    200 <= status && status < 300
}

/// The statuses of success are those of the second hundred.
pub proof fn law_success_is_the_second_hundred(status: u16)
    ensures
        success(status) <==> status / 100 == 2,
{
}

} // verus!
