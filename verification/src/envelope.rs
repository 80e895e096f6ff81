//! The envelopes in which messages travel: the transport's request and
//! response types, and the two calls that the handler makes on them.
//!
//! The types are opaque here, and the contracts of the two calls are taken on
//! trust from the transport's source: they are stated, not proved.

use crate::message::{HelloReply, HelloRequest};
use vstd::prelude::*;

verus! {

/// `tonic::Request`, the request envelope: a message beside the call's
/// metadata. Declared so that it can stand in signatures; nothing inside it
/// is visible.
#[verifier::external_type_specification]
#[verifier::external_body]
#[verifier::reject_recursive_types(T)]
pub struct ExRequest<T>(tonic::Request<T>);

/// `tonic::Response`, the response envelope: a message beside the answer's
/// metadata. Declared so that it can stand in signatures; nothing inside it
/// is visible.
#[verifier::external_type_specification]
#[verifier::external_body]
#[verifier::reject_recursive_types(T)]
pub struct ExResponse<T>(tonic::Response<T>);

/// `tonic::Status`, the error with which a call is refused. Declared so
/// that it can stand in the handler's result; the handler never makes one.
#[verifier::external_type_specification]
#[verifier::external_body]
pub struct ExStatus(tonic::Status);

/// The message that a request envelope carries, by its view: the name to
/// greet. It is what `tonic::Request::into_inner` hands out.
pub uninterp spec fn request_message(request: tonic::Request<HelloRequest>) -> Seq<char>;

/// The message that a response envelope carries, by its view: the text of
/// the reply. It is what `tonic::Response::new` was given.
pub uninterp spec fn response_message(response: tonic::Response<HelloReply>) -> Seq<char>;

/// Calls `tonic::Request::into_inner`, which consumes the request and
/// returns the message it holds, as it is, leaving the metadata behind.
///
/// Trusted: the message handed out is the one that the request carried.
#[verifier::external_body]
pub(crate) fn open_request(request: tonic::Request<HelloRequest>) -> (message: HelloRequest)
    ensures
        message@ == request_message(request),
{
    request.into_inner()
}

/// Calls `tonic::Response::new`, which stores the message given in a new
/// response with empty metadata.
///
/// Trusted: the response carries the reply given, unchanged.
#[verifier::external_body]
pub(crate) fn seal_reply(reply: HelloReply) -> (response: tonic::Response<HelloReply>)
    ensures
        response_message(response) == reply@,
{
    tonic::Response::new(reply)
}

} // verus!
