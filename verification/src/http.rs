//! Building HTTP responses with actix-web.

use vstd::prelude::*;

use actix_web::http::StatusCode;
use actix_web::body::BoxBody;
use actix_web::HttpResponse;

verus! {

#[verifier::external_type_specification]
#[verifier::external_body]
#[verifier::reject_recursive_types(B)]
pub struct ExHttpResponse<B>(HttpResponse<B>);

#[verifier::external_type_specification]
#[verifier::external_body]
pub struct ExBoxBody(BoxBody);

/// The status code that a response carries.
pub uninterp spec fn response_status(r: HttpResponse) -> u16;

/// The body that a response carries, as text.
pub uninterp spec fn response_body(r: HttpResponse) -> Seq<char>;

/// Calls `HttpResponseBuilder::body` on a builder for `status`. The response
/// carries that status and `body`. `StatusCode::from_u16` accepts exactly the
/// codes from 100 to 999. Nothing is said of the other parts of the response
/// (its head comes from a pool shared by the thread).
#[verifier::external_body]
pub(crate) fn respond_with_body(status: u16, body: String) -> (r: HttpResponse)
    requires
        100 <= status <= 999,
    ensures
        response_status(r) == status,
        response_body(r) == body@,
{
    HttpResponse::build(StatusCode::from_u16(status).unwrap()).body(body)
}

/// Calls `HttpResponseBuilder::finish` on a builder for `status`. The
/// response carries that status and an empty body. Nothing is said of the
/// other parts of the response.
#[verifier::external_body]
pub(crate) fn respond_without_body(status: u16) -> (r: HttpResponse)
    requires
        100 <= status <= 999,
    ensures
        response_status(r) == status,
        response_body(r) == Seq::<char>::empty(),
{
    HttpResponse::build(StatusCode::from_u16(status).unwrap()).finish()
}

} // verus!
