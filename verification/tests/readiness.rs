use configurator::request::body_text;
use configurator::readiness::{
    await_local, await_port_taken, await_rpc_healthy, bitcoin_rpc_is_ready,
    local_port_available, rpc_request, BindOutcome, BitcoindError, BitcoindRpcInfo, JsonRpc1Res,
    Poll, ReadinessError, RpcReply,
};

fn answered(status: u16, body: Option<JsonRpc1Res>) -> RpcReply {
    RpcReply::Answered { status, body }
}

fn rpc_error() -> JsonRpc1Res {
    JsonRpc1Res {
        error: Some(BitcoindError { code: -28, message: "Loading block index".to_string() }),
    }
}

#[test]
fn test() {
    let request = rpc_request(&BitcoindRpcInfo {
        host: "localhost",
        port: 8332,
        user: "bitcoin",
        pass: "testhere",
    });
    assert_eq!(request.url, "http://localhost:8332/");
    assert_eq!(request.user, "bitcoin");
    assert_eq!(request.pass, "testhere");
    assert_eq!(
        body_text(&request.body).unwrap(),
        "{\"id\":null,\"jsonrpc\":\"1.0\",\"method\":\"getblockchaininfo\",\"params\":[]}"
    );
    assert!(bitcoin_rpc_is_ready(&answered(200, Some(JsonRpc1Res { error: None }))).unwrap());
}

#[test]
fn port_is_free_if_it_can_be_bound() {
    assert_eq!(local_port_available(8080, BindOutcome::Bound), Ok(true));
    assert_eq!(local_port_available(8080, BindOutcome::AddrInUse), Ok(false));
    let e = local_port_available(8080, BindOutcome::OtherError).unwrap_err();
    assert_eq!(e, ReadinessError::PortCheckFailed { port: 8080 });
    assert_eq!(e.message(), "Couldn't determine port use for 8080");
    assert_eq!(
        ReadinessError::InvalidCredentials.message(),
        "Invalid credentials for bitcoind"
    );
}

#[test]
fn refused_credentials_are_fatal() {
    assert_eq!(
        bitcoin_rpc_is_ready(&answered(401, None)),
        Err(ReadinessError::InvalidCredentials)
    );
    assert_eq!(
        bitcoin_rpc_is_ready(&answered(401, Some(JsonRpc1Res { error: None }))),
        Err(ReadinessError::InvalidCredentials)
    );
    assert_eq!(
        await_rpc_healthy(&answered(401, Some(rpc_error()))),
        Err(ReadinessError::InvalidCredentials)
    );
}

#[test]
fn anything_but_a_clean_answer_means_not_yet() {
    assert_eq!(bitcoin_rpc_is_ready(&RpcReply::Unreachable), Ok(false));
    assert_eq!(bitcoin_rpc_is_ready(&answered(200, None)), Ok(false));
    assert_eq!(bitcoin_rpc_is_ready(&answered(200, Some(rpc_error()))), Ok(false));
    assert_eq!(bitcoin_rpc_is_ready(&answered(500, Some(rpc_error()))), Ok(false));
    assert_eq!(
        bitcoin_rpc_is_ready(&answered(500, Some(JsonRpc1Res { error: None }))),
        Ok(true)
    );
}

#[test]
fn polls_retry_after_their_interval() {
    assert_eq!(await_local(true), Poll::Proceed);
    assert_eq!(await_local(false), Poll::RetryAfter { seconds: 1 });
    assert_eq!(
        await_rpc_healthy(&RpcReply::Unreachable),
        Ok(Poll::RetryAfter { seconds: 1 })
    );
    assert_eq!(
        await_rpc_healthy(&answered(200, Some(JsonRpc1Res { error: None }))),
        Ok(Poll::Proceed)
    );
    assert_eq!(
        await_port_taken(8080, BindOutcome::Bound),
        Ok(Poll::RetryAfter { seconds: 10 })
    );
    assert_eq!(await_port_taken(8080, BindOutcome::AddrInUse), Ok(Poll::Proceed));
    assert_eq!(
        await_port_taken(8080, BindOutcome::OtherError),
        Err(ReadinessError::PortCheckFailed { port: 8080 })
    );
}
