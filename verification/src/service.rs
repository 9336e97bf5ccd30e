//! The service around the router: what a request over the web means, and what it
//! is answered.
//!
//! The functions here take what was read from the other parts of the exchange,
//! and say what to ask them next or what to answer.
use vstd::prelude::*;

pub mod accounts;
pub mod batches;
pub mod conditional;
pub mod equity;
pub mod positions;
pub mod trades;
pub mod trading;
pub mod transfers;

verus! {

/// A request that failed: the status of the answer, the code of the error and
/// its message.
#[derive(Debug)]
pub struct ApiError<S = String> {
    pub http_status: u16,
    pub code: u32,
    pub message: S,
}

impl View for ApiError<String> {
    type V = ApiError<Seq<char>>;

    open spec fn view(&self) -> ApiError<Seq<char>> {
        ApiError { http_status: self.http_status, code: self.code, message: self.message@ }
    }
}

/// A request that is wrong.
pub open spec fn bad_request(code: u32, message: Seq<char>) -> ApiError<Seq<char>> {
    ApiError { http_status: 400, code, message }
}

/// A request for something that there is not.
pub open spec fn not_found(message: Seq<char>) -> ApiError<Seq<char>> {
    ApiError { http_status: 404, code: 404, message }
}

/// Makes the error of a request that is wrong.
pub(crate) fn bad(code: u32, message: String) -> (r: ApiError)
    ensures
        r@ == bad_request(code, message@),
{
    ApiError { http_status: 400, code, message }
}

/// Makes the error of a request for something that there is not.
pub(crate) fn missing(message: String) -> (r: ApiError)
    ensures
        r@ == not_found(message@),
{
    ApiError { http_status: 404, code: 404, message }
}

/// The name of the service and its state, when it is asked whether it lives.
pub fn health_check() -> (r: (String, String))
    ensures
        r.0@ == "ok"@,
        r.1@ == "qaexchange"@,
{
    ("ok".to_string(), "qaexchange".to_string())
}

/// A request that is wrong is answered as such, with the code and the message that
/// are given; one for something that there is not, as not found.
pub proof fn errors_have_their_status(code: u32, message: Seq<char>)
    ensures
        bad_request(code, message).http_status == 400,
        bad_request(code, message).code == code,
        bad_request(code, message).message == message,
        not_found(message).http_status == 404,
        not_found(message).code == 404,
        not_found(message).message == message,
{
}

} // verus!
