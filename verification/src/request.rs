//! What the registry is handed from the wire: subscribe requests and
//! notification frames.
use crate::id::{local_id_of, LocalId, ServerId};
use vstd::prelude::*;
use vstd::utf8::encode_utf8;

verus! {

/// `alloy_json_rpc::SerializedRequest`, as a type that Verus does not look
/// into.
#[verifier::external_type_specification]
#[verifier::external_body]
pub struct ExSerializedRequest(alloy_json_rpc::SerializedRequest);

/// The JSON text of the parameters of a serialized request, as
/// `SerializedRequest::params` finds it in the request; `None` for a request
/// that has no parameters.
pub uninterp spec fn request_params(request: alloy_json_rpc::SerializedRequest) -> Option<Seq<char>>;

/// Calls `SerializedRequest::params` and copies the text it points at.
/// Claims that the text is the one that [`request_params`] names, and that
/// there is none where it names none; this is not proved. `params` parses
/// the request and unwraps the outcome; a serialized request can only be
/// made by serializing a request, so the parse does not fail.
#[verifier::external_body]
fn serialized_params(request: &alloy_json_rpc::SerializedRequest) -> (params: Option<String>)
    ensures
        match params {
            Some(text) => request_params(*request) == Some(text@),
            None => request_params(*request) is None,
        },
{
    match request.params() {
        Some(params) => Some(params.get().to_owned()),
        None => None,
    }
}

/// A serialized subscribe request, with the text of its parameters set beside
/// it.
///
/// The parameters are what identifies a subscription: two requests with the
/// same parameter text, byte for byte, ask for the same subscription.
#[derive(Debug)]
pub struct SubscriptionRequest {
    request: alloy_json_rpc::SerializedRequest,
    params: Option<String>,
}

impl SubscriptionRequest {
    /// The serialized request as it was handed in.
    pub closed spec fn serialized(&self) -> alloy_json_rpc::SerializedRequest {
        self.request
    }

    /// The JSON text of the request's parameters, if it has any.
    pub closed spec fn params(&self) -> Option<Seq<char>> {
        match self.params {
            Some(params) => Some(params@),
            None => None,
        }
    }

    /// The bytes that identify the subscription: the parameter text in UTF-8,
    /// and no bytes at all for a request without parameters.
    pub open spec fn canonical_bytes(&self) -> Seq<u8> {
        match self.params() {
            Some(params) => encode_utf8(params),
            None => Seq::empty(),
        }
    }

    /// The local identity of the subscription that this request asks for.
    pub open spec fn local_id(&self) -> LocalId {
        local_id_of(self.canonical_bytes())
    }

    /// Takes a serialized request and reads its parameters out of it.
    pub fn new(request: alloy_json_rpc::SerializedRequest) -> (r: Self)
        ensures
            r.serialized() == request,
            r.params() == request_params(request),
    {
        let params = serialized_params(&request);
        SubscriptionRequest { request, params }
    }

    /// The serialized request as it was handed in.
    pub fn request(&self) -> (r: &alloy_json_rpc::SerializedRequest)
        ensures
            *r == self.serialized(),
    {
        &self.request
    }

    /// Gives the serialized request back.
    pub fn into_request(self) -> (r: alloy_json_rpc::SerializedRequest)
        ensures
            r == self.serialized(),
    {
        self.request
    }

    /// The hash of the request's parameters: the local identity of the
    /// subscription.
    pub fn params_hash(&self) -> (id: LocalId)
        ensures
            id == self.local_id(),
    {
        match &self.params {
            Some(params) => LocalId::of_params(params.as_str().as_bytes()),
            None => {
                let nothing: [u8; 0] = [];
                assert(nothing@ == Seq::<u8>::empty());
                LocalId::of_params(&nothing)
            },
        }
    }
}

/// A notification frame: a payload that the server sent for one of its
/// subscriptions.
#[derive(Debug)]
pub struct Notification {
    /// The server's identity of the subscription.
    pub subscription: ServerId,
    /// The payload, as JSON text that has not been decoded.
    pub result: String,
}

} // verus!
