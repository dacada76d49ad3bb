//! The text forms of the messages, as they are shown in logs.

use crate::rpc::handler::SubstreamId;
use crate::rpc::methods::{
    RPCCodedResponse, RPCCodedResponseView, RPCRequest, RPCRequestView, RPCResponse,
    RPCResponseView, RequestId,
};
use crate::rpc::{RPCSend, RPCSendView};
use vstd::prelude::*;

verus! {

/// The numeral of a number below ten.
pub open spec fn digit_text(digit: nat) -> Seq<char> {
    if digit == 0 {
        "0"@
    } else if digit == 1 {
        "1"@
    } else if digit == 2 {
        "2"@
    } else if digit == 3 {
        "3"@
    } else if digit == 4 {
        "4"@
    } else if digit == 5 {
        "5"@
    } else if digit == 6 {
        "6"@
    } else if digit == 7 {
        "7"@
    } else if digit == 8 {
        "8"@
    } else {
        "9"@
    }
}

/// A number in decimal notation.
pub open spec fn decimal_text(n: nat) -> Seq<char>
    decreases n,
{
    if n < 10 {
        digit_text(n)
    } else {
        decimal_text(n / 10) + digit_text(n % 10)
    }
}

/// The text of a request id.
pub open spec fn request_id_text(id: RequestId) -> Seq<char> {
    match id {
        RequestId::Application(n) => "Application("@ + decimal_text(n as nat) + ")"@,
        RequestId::Behaviour => "Behaviour"@,
    }
}

/// The text of a substream id.
pub open spec fn substream_id_text(id: SubstreamId) -> Seq<char> {
    "SubstreamId("@ + decimal_text(id.0 as nat) + ")"@
}

impl RPCRequestView {
    /// The text of a request: the name of its protocol.
    pub open spec fn text(self) -> Seq<char> {
        match self {
            RPCRequestView::Status(_) => "Status"@,
            RPCRequestView::Goodbye(_) => "Goodbye"@,
            RPCRequestView::Ping(_) => "Ping"@,
            RPCRequestView::MetaData => "MetaData"@,
        }
    }
}

impl RPCResponseView {
    /// The text of a response: the name of what it carries.
    pub open spec fn text(self) -> Seq<char> {
        match self {
            RPCResponseView::Status(_) => "Status"@,
            RPCResponseView::Pong(_) => "Pong"@,
            RPCResponseView::MetaData(_) => "MetaData"@,
        }
    }
}

impl RPCCodedResponseView {
    /// The text of a response on the wire: that of the response it carries,
    /// or the kind of failure and its reason.
    pub open spec fn text(self) -> Seq<char> {
        match self {
            RPCCodedResponseView::Success(response) => response.text(),
            RPCCodedResponseView::InvalidRequest(reason) => "Invalid Request: "@ + reason,
            RPCCodedResponseView::ServerError(reason) => "Server Error: "@ + reason,
            RPCCodedResponseView::Unknown(reason) => "Unknown Error: "@ + reason,
        }
    }
}

impl RPCSendView {
    /// The text of what is sent to a handler.
    pub open spec fn text(self) -> Seq<char> {
        match self {
            RPCSendView::Request(id, request) => "RPC Request(id: "@ + request_id_text(id) + ", "@
                + request.text() + ")"@,
            RPCSendView::Response(id, response) => "RPC Response(id: "@ + substream_id_text(id)
                + ", "@ + response.text() + ")"@,
        }
    }
}

fn digit(d: usize) -> (text: &'static str)
    requires
        d < 10,
    ensures
        text@ == digit_text(d as nat),
{
    if d == 0 {
        "0"
    } else if d == 1 {
        "1"
    } else if d == 2 {
        "2"
    } else if d == 3 {
        "3"
    } else if d == 4 {
        "4"
    } else if d == 5 {
        "5"
    } else if d == 6 {
        "6"
    } else if d == 7 {
        "7"
    } else if d == 8 {
        "8"
    } else {
        "9"
    }
}

/// A number in decimal notation.
pub fn decimal(n: usize) -> (text: String)
    ensures
        text@ == decimal_text(n as nat),
    decreases n,
{
    if n < 10 {
        String::from_str(digit(n))
    } else {
        decimal(n / 10).concat(digit(n % 10))
    }
}

impl RequestId {
    /// The text of the id.
    pub fn to_string(&self) -> (text: String)
        ensures
            text@ == request_id_text(*self),
    {
        match self {
            RequestId::Application(n) => {
                let number = decimal(*n);
                String::from_str("Application(").concat(number.as_str()).concat(")")
            },
            RequestId::Behaviour => String::from_str("Behaviour"),
        }
    }
}

impl SubstreamId {
    /// The text of the id.
    pub fn to_string(&self) -> (text: String)
        ensures
            text@ == substream_id_text(*self),
    {
        let number = decimal(self.0);
        String::from_str("SubstreamId(").concat(number.as_str()).concat(")")
    }
}

impl RPCRequest {
    /// The text of the request.
    pub fn to_string(&self) -> (text: String)
        ensures
            text@ == self@.text(),
    {
        match self {
            RPCRequest::Status(_) => String::from_str("Status"),
            RPCRequest::Goodbye(_) => String::from_str("Goodbye"),
            RPCRequest::Ping(_) => String::from_str("Ping"),
            RPCRequest::MetaData => String::from_str("MetaData"),
        }
    }
}

impl RPCResponse {
    /// The text of the response.
    pub fn to_string(&self) -> (text: String)
        ensures
            text@ == self@.text(),
    {
        match self {
            RPCResponse::Status(_) => String::from_str("Status"),
            RPCResponse::Pong(_) => String::from_str("Pong"),
            RPCResponse::MetaData(_) => String::from_str("MetaData"),
        }
    }
}

impl RPCCodedResponse {
    /// The text of the response.
    pub fn to_string(&self) -> (text: String)
        ensures
            text@ == self@.text(),
    {
        match self {
            RPCCodedResponse::Success(response) => response.to_string(),
            RPCCodedResponse::InvalidRequest(reason) => String::from_str(
                "Invalid Request: ",
            ).concat(reason.as_str()),
            RPCCodedResponse::ServerError(reason) => String::from_str("Server Error: ").concat(
                reason.as_str(),
            ),
            RPCCodedResponse::Unknown(reason) => String::from_str("Unknown Error: ").concat(
                reason.as_str(),
            ),
        }
    }
}

impl RPCSend {
    /// The text of what is sent to a handler.
    pub fn to_string(&self) -> (text: String)
        ensures
            text@ == self@.text(),
    {
        match self {
            RPCSend::Request(id, request) => {
                let id = id.to_string();
                let request = request.to_string();
                String::from_str("RPC Request(id: ").concat(id.as_str()).concat(", ").concat(
                    request.as_str(),
                ).concat(")")
            },
            RPCSend::Response(id, response) => {
                let id = id.to_string();
                let response = response.to_string();
                String::from_str("RPC Response(id: ").concat(id.as_str()).concat(", ").concat(
                    response.as_str(),
                ).concat(")")
            },
        }
    }
}

} // verus!
