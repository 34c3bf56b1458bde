//! What every endpoint returns, and the reading of a response whose status is
//! not the endpoint's success status.

use vstd::prelude::*;
use crate::envelope::envelope_of_body;
use crate::json::parse_json;
use crate::objects::ResponseBodyFail;
use crate::signer::SignError;

verus! {

/// The outcome of a call that reached the server: the success body, or the
/// status with the failure body when it could be read and the raw bytes when not.
#[derive(Debug)]
pub enum EndpointRet<T> {
    Success(T),
    Other((u16, Result<ResponseBodyFail, Vec<u8>>)),
}

impl<T: Clone> Clone for EndpointRet<T> {
    fn clone(&self) -> Self {
        match self {
            EndpointRet::Success(t) => EndpointRet::Success(t.clone()),
            EndpointRet::Other((status, body)) => EndpointRet::Other(
                (
                    *status,
                    match body {
                        Ok(f) => Ok(f.clone()),
                        Err(raw) => Err(raw.clone()),
                    },
                ),
            ),
        }
    }
}

/// Why a body could not be read as the record that the status promised.
#[derive(Debug)]
pub enum BodyError {
    /// The body is not a form.
    Form(serde_urlencoded::de::Error),
    /// The body is not JSON.
    Json(serde_json::Error),
    /// The named field is missing, repeated, or holds a value of another kind.
    Field(String),
}

/// Why an endpoint could not render its request or read its response.
#[derive(Debug)]
pub enum EndpointError {
    MakeReqwestRequestBuilderFailed(reqwest_oauth1::SignerError),
    MakeReqwestRequestFailed(reqwest::Error),
    DeResponseBodyOkFailed(BodyError),
    DeResponseBodyOkJsonFailed(BodyError),
}

/// `ret` reports `status` with the failure body that `body` holds, or with
/// `body` itself where it holds none.
pub open spec fn is_other_response<T>(ret: EndpointRet<T>, status: u16, body: Seq<u8>) -> bool {
    match ret {
        EndpointRet::Other((s, res)) => s == status && match res {
            Ok(f) => envelope_of_body(body) == Some(f.spec_errors()),
            Err(raw) => envelope_of_body(body) is None && raw@ == body,
        },
        EndpointRet::Success(_) => false,
    }
}

/// Reads a response whose status is not the success status: the failure body
/// if the bytes hold one, else the bytes themselves.
pub fn parse_other<T>(status: u16, body: Vec<u8>) -> (r: EndpointRet<T>)
    ensures
        is_other_response(r, status, body@),
{
    let parsed = parse_json(body.as_slice());
    match parsed {
        Ok(v) => match ResponseBodyFail::from_json(&v) {
            Some(f) => EndpointRet::Other((status, Ok(f))),
            None => EndpointRet::Other((status, Err(body))),
        },
        Err(_) => EndpointRet::Other((status, Err(body))),
    }
}

/// Splits a response by its status: the body, to be read as the success
/// record, where the status is `success_status`; else the failure, read.
pub fn dispatch<T>(status: u16, success_status: u16, body: Vec<u8>) -> (r: Result<
    Vec<u8>,
    EndpointRet<T>,
>)
    ensures
        status == success_status ==> (r matches Ok(b) && b@ == body@),
        status != success_status ==> (r matches Err(ret) && is_other_response(ret, status, body@)),
{
    if status == success_status {
        Ok(body)
    } else {
        Err(parse_other(status, body))
    }
}

/// The endpoint error for a signing failure.
pub fn sign_error(e: SignError) -> (r: EndpointError)
    ensures
        e is Signer ==> r is MakeReqwestRequestBuilderFailed,
        e is Build ==> r is MakeReqwestRequestFailed,
{
    match e {
        SignError::Signer(e) => EndpointError::MakeReqwestRequestBuilderFailed(e),
        SignError::Build(e) => EndpointError::MakeReqwestRequestFailed(e),
    }
}

} // verus!
