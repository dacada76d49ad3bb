use mothra_network::rpc::handler::SubstreamId;
use mothra_network::rpc::methods::{RPCCodedResponse, RPCRequest, RPCResponse, RequestId};
use mothra_network::rpc::text::decimal;
use mothra_network::rpc::RPCSend;

#[test]
fn decimal_notation() {
    assert_eq!(decimal(0), "0");
    assert_eq!(decimal(7), "7");
    assert_eq!(decimal(10), "10");
    assert_eq!(decimal(42), "42");
    assert_eq!(decimal(1234567890), "1234567890");
    assert_eq!(decimal(usize::MAX), format!("{}", usize::MAX));
}

#[test]
fn ids_read_as_their_debug_form() {
    assert_eq!(RequestId::Behaviour.to_string(), "Behaviour");
    assert_eq!(RequestId::Application(42).to_string(), "Application(42)");
    assert_eq!(RequestId::Application(42).to_string(), format!("{:?}", RequestId::Application(42)));
    assert_eq!(SubstreamId(7).to_string(), "SubstreamId(7)");
    assert_eq!(SubstreamId(7).to_string(), format!("{:?}", SubstreamId(7)));
}

#[test]
fn a_request_to_send_reads_with_its_id_and_its_protocol() {
    assert_eq!(
        RPCSend::Request(RequestId::Application(42), RPCRequest::Status(vec![9])).to_string(),
        "RPC Request(id: Application(42), Status)"
    );
    assert_eq!(
        RPCSend::Request(RequestId::Behaviour, RPCRequest::MetaData).to_string(),
        "RPC Request(id: Behaviour, MetaData)"
    );
    assert_eq!(
        RPCSend::Request(RequestId::Behaviour, RPCRequest::Ping(vec![])).to_string(),
        "RPC Request(id: Behaviour, Ping)"
    );
    assert_eq!(
        RPCSend::Request(RequestId::Application(0), RPCRequest::Goodbye(vec![])).to_string(),
        "RPC Request(id: Application(0), Goodbye)"
    );
}

#[test]
fn a_response_to_send_reads_with_its_substream_and_its_content() {
    assert_eq!(
        RPCSend::Response(SubstreamId(7), RPCCodedResponse::Success(RPCResponse::Pong(vec![1])))
            .to_string(),
        "RPC Response(id: SubstreamId(7), Pong)"
    );
    assert_eq!(
        RPCSend::Response(SubstreamId(0), RPCCodedResponse::Success(RPCResponse::Status(vec![])))
            .to_string(),
        "RPC Response(id: SubstreamId(0), Status)"
    );
    assert_eq!(
        RPCSend::Response(SubstreamId(1), RPCCodedResponse::Success(RPCResponse::MetaData(vec![])))
            .to_string(),
        "RPC Response(id: SubstreamId(1), MetaData)"
    );
    assert_eq!(
        RPCSend::Response(SubstreamId(12), RPCCodedResponse::InvalidRequest("bad".to_string()))
            .to_string(),
        "RPC Response(id: SubstreamId(12), Invalid Request: bad)"
    );
    assert_eq!(
        RPCSend::Response(SubstreamId(12), RPCCodedResponse::ServerError("busy".to_string()))
            .to_string(),
        "RPC Response(id: SubstreamId(12), Server Error: busy)"
    );
    assert_eq!(
        RPCSend::Response(SubstreamId(12), RPCCodedResponse::Unknown(String::new())).to_string(),
        "RPC Response(id: SubstreamId(12), Unknown Error: )"
    );
}
