use networking::candle_error::CandleError;
use networking::client_error::ClientError;
use networking::gateway_error::GatewayError;
use networking::network_error::NetworkError;

fn expect_specific(e: CandleError, want: &str) {
    match ClientError::from_candle(e) {
        ClientError::SpecificError(m) => assert_eq!(m, want),
        other => panic!("expected a specific error, got {:?}", other),
    }
}

#[test]
fn candle_errors_fold_into_specific_client_errors() {
    expect_specific(CandleError::CandleIoError("a".to_string()), "Candle IO error: a");
    expect_specific(CandleError::CoreError("b".to_string()), "Candle core error: b");
    expect_specific(CandleError::CudaError("c".to_string()), "Cuda error: c");
    expect_specific(CandleError::DecodingError("d".to_string()), "Decoding error: d");
    expect_specific(CandleError::DownloadError("e".to_string()), "Download error: e");
    expect_specific(CandleError::EncodingError("f".to_string()), "Encoding error: f");
    expect_specific(
        CandleError::InitializationError("g".to_string()),
        "Initialization error: g",
    );
    expect_specific(CandleError::LoadModelError("h".to_string()), "Error loading model: h");
    expect_specific(CandleError::SafeTensorError("i".to_string()), "SafeTensor error: i");
    expect_specific(CandleError::TokenError("j".to_string()), "Token error: j");
    expect_specific(
        CandleError::UninitializedModelError("k".to_string()),
        "Uninitialized model error: k",
    );
    expect_specific(CandleError::UnexpectedDTypeError("l".to_string()), "Unexpected DType: l");
    expect_specific(CandleError::UnexpectedError("m".to_string()), "Unexpected error: m");
    expect_specific(CandleError::UnsupportedDTypeError("n".to_string()), "Unsupported DType: n");
    expect_specific(
        CandleError::WrappedCandleError("o".to_string()),
        "Wrapped Candle error: o",
    );
}

#[test]
fn generic_candle_error_stays_generic() {
    match ClientError::from_candle(CandleError::GenericError("oops".to_string())) {
        ClientError::GenericError(m) => assert_eq!(m, "Generic client error: oops"),
        other => panic!("expected a generic error, got {:?}", other),
    }
}

#[test]
fn candle_error_message_is_the_payload() {
    let e = CandleError::EncodingError("bad text".to_string());
    assert_eq!(e.message().as_str(), "bad text");
    let c = ClientError::AuthenticationError("denied".to_string());
    assert_eq!(c.message().as_str(), "denied");
}

#[test]
fn backend_message_maps_to_unexpected_error() {
    let e = CandleError::from_core(candle_core::Error::Msg("boom".to_string()));
    assert!(matches!(e, CandleError::UnexpectedError(ref m) if m == "boom"));
}

#[test]
fn backend_dtype_surprise_keeps_its_tag() {
    let core = candle_core::Error::UnexpectedDType {
        msg: "op",
        expected: candle_core::DType::F16,
        got: candle_core::DType::F32,
    };
    let e = CandleError::from_core(core);
    assert!(matches!(e, CandleError::UnexpectedDTypeError(ref m) if m == "op: expected F16, got F32"));
}

#[test]
fn backend_other_failures_become_generic() {
    let core = candle_core::Error::UnsupportedDTypeForOp(candle_core::DType::U8, "matmul");
    let e = CandleError::from_core(core);
    assert!(matches!(e, CandleError::GenericError(_)));
}

#[test]
fn client_error_wraps_into_gateway_error() {
    let g = GatewayError::from(ClientError::RateLimitError("slow down".to_string()));
    match g {
        GatewayError::ClientError(ClientError::RateLimitError(m)) => assert_eq!(m, "slow down"),
        other => panic!("unexpected {:?}", other),
    }
}

#[test]
fn gateway_error_unwraps_into_client_error() {
    let c = ClientError::from(GatewayError::ClientError(ClientError::AuthenticationError(
        "denied".to_string(),
    )));
    assert!(matches!(c, ClientError::AuthenticationError(ref m) if m == "denied"));

    let c = ClientError::from(GatewayError::GatewayError("routing".to_string()));
    assert!(matches!(c, ClientError::GenericError(ref m) if m == "routing"));
}

#[test]
fn gateway_error_lifts_into_network_error() {
    let n = NetworkError::from(GatewayError::ClientError(ClientError::SpecificError(
        "s".to_string(),
    )));
    assert!(matches!(n, NetworkError::ClientError(ClientError::SpecificError(ref m)) if m == "s"));

    let n = NetworkError::from(GatewayError::GatewayError("g".to_string()));
    assert!(matches!(n, NetworkError::CustomError(ref m) if m == "g"));
}

#[test]
fn client_error_lifts_into_network_error() {
    let n = NetworkError::from(ClientError::GenericError("x".to_string()));
    assert!(matches!(n, NetworkError::ClientError(ClientError::GenericError(ref m)) if m == "x"));
}

#[test]
fn network_error_kind_names_every_variant() {
    let client = ClientError::GenericError("x".to_string());
    assert_eq!(NetworkError::ClientError(client.clone()).kind(), "ClientError");
    assert_eq!(NetworkError::ConnectionError("c".to_string()).kind(), "ConnectionError");
    assert_eq!(NetworkError::CustomError("c".to_string()).kind(), "CustomError");
    assert_eq!(
        NetworkError::GatewayError(GatewayError::GatewayError("g".to_string())).kind(),
        "GatewayError",
    );
    assert_eq!(NetworkError::HttpError(503).kind(), "HttpError");
    assert_eq!(NetworkError::IoError("io".to_string()).kind(), "IoError");
    assert_eq!(NetworkError::RequestError("r".to_string()).kind(), "RequestError");
    assert_eq!(NetworkError::SerdeError("s".to_string()).kind(), "SerdeError");
}
