//! The messages of the request/response protocols.

use vstd::prelude::*;

verus! {

/// Identifier of an outbound request.
#[derive(Debug, Clone, Copy, PartialEq, Eq, Structural)]
pub enum RequestId {
    /// An identifier chosen by the application that made the request.
    Application(usize),
    /// The request was made by the behaviour itself; whatever comes back for
    /// it stays inside the behaviour.
    Behaviour,
}

/// A request sent to or received from a peer.
#[derive(Debug, Clone, PartialEq)]
pub enum RPCRequest {
    Status(Vec<u8>),
    Goodbye(Vec<u8>),
    Ping(Vec<u8>),
    MetaData,
}

/// A successful response sent to or received from a peer.
#[derive(Debug, Clone, PartialEq)]
pub enum RPCResponse {
    Status(Vec<u8>),
    Pong(Vec<u8>),
    MetaData(Vec<u8>),
}

/// The code of a failed response.
#[derive(Debug, Clone, Copy, PartialEq, Eq, Structural)]
pub enum RPCResponseErrorCode {
    InvalidRequest,
    ServerError,
    Unknown,
}

/// A response as it travels on the wire: a success, or a failure with its
/// code and a reason.
#[derive(Debug, Clone, PartialEq)]
pub enum RPCCodedResponse {
    Success(RPCResponse),
    InvalidRequest(String),
    ServerError(String),
    Unknown(String),
}

/// What an [`RPCRequest`] is, with its payload as a byte sequence.
pub enum RPCRequestView {
    Status(Seq<u8>),
    Goodbye(Seq<u8>),
    Ping(Seq<u8>),
    MetaData,
}

/// What an [`RPCResponse`] is, with its payload as a byte sequence.
pub enum RPCResponseView {
    Status(Seq<u8>),
    Pong(Seq<u8>),
    MetaData(Seq<u8>),
}

/// What an [`RPCCodedResponse`] is.
pub enum RPCCodedResponseView {
    Success(RPCResponseView),
    InvalidRequest(Seq<char>),
    ServerError(Seq<char>),
    Unknown(Seq<char>),
}

impl View for RPCRequest {
    type V = RPCRequestView;

    open spec fn view(&self) -> RPCRequestView {
        match self {
            RPCRequest::Status(bytes) => RPCRequestView::Status(bytes@),
            RPCRequest::Goodbye(bytes) => RPCRequestView::Goodbye(bytes@),
            RPCRequest::Ping(bytes) => RPCRequestView::Ping(bytes@),
            RPCRequest::MetaData => RPCRequestView::MetaData,
        }
    }
}

impl View for RPCResponse {
    type V = RPCResponseView;

    open spec fn view(&self) -> RPCResponseView {
        match self {
            RPCResponse::Status(bytes) => RPCResponseView::Status(bytes@),
            RPCResponse::Pong(bytes) => RPCResponseView::Pong(bytes@),
            RPCResponse::MetaData(bytes) => RPCResponseView::MetaData(bytes@),
        }
    }
}

impl View for RPCCodedResponse {
    type V = RPCCodedResponseView;

    open spec fn view(&self) -> RPCCodedResponseView {
        match self {
            RPCCodedResponse::Success(response) => RPCCodedResponseView::Success(response@),
            RPCCodedResponse::InvalidRequest(reason) => RPCCodedResponseView::InvalidRequest(
                reason@,
            ),
            RPCCodedResponse::ServerError(reason) => RPCCodedResponseView::ServerError(reason@),
            RPCCodedResponse::Unknown(reason) => RPCCodedResponseView::Unknown(reason@),
        }
    }
}

/// The failed response that carries `code` and `reason`.
pub open spec fn error_response(
    code: RPCResponseErrorCode,
    reason: Seq<char>,
) -> RPCCodedResponseView {
    match code {
        RPCResponseErrorCode::InvalidRequest => RPCCodedResponseView::InvalidRequest(reason),
        RPCResponseErrorCode::ServerError => RPCCodedResponseView::ServerError(reason),
        RPCResponseErrorCode::Unknown => RPCCodedResponseView::Unknown(reason),
    }
}

impl RPCCodedResponse {
    /// Builds the failed response for an error code and a reason.
    pub fn from_error_code(code: RPCResponseErrorCode, reason: String) -> (response: Self)
        ensures
            response@ == error_response(code, reason@),
    {
        match code {
            RPCResponseErrorCode::InvalidRequest => RPCCodedResponse::InvalidRequest(reason),
            RPCResponseErrorCode::ServerError => RPCCodedResponse::ServerError(reason),
            RPCResponseErrorCode::Unknown => RPCCodedResponse::Unknown(reason),
        }
    }
}

} // verus!
