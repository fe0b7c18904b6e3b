use voice_core::baidu::{interpret_response, BaiduAsrResponse, TokenResponse};
use voice_core::{AudioData, BaiduClient, VoiceError};

#[test]
fn batch_response_joins_result_strings() {
    let r = interpret_response(BaiduAsrResponse {
        err_no: 0,
        err_msg: "success.".to_string(),
        result: vec!["你".to_string(), "好".to_string()],
    })
    .expect("err_no 0 is success");
    assert_eq!(r.text, "你好");
    assert_eq!(r.language.as_deref(), Some("zh"));
    assert!(r.confidence.is_none());
    assert_eq!(r.segments.len(), 1);
    assert_eq!(r.segments[0].text, "你好");
}

#[test]
fn batch_response_with_empty_result() {
    let r = interpret_response(BaiduAsrResponse { err_no: 0, err_msg: String::new(), result: vec![] })
        .unwrap();
    assert_eq!(r.text, "");
}

#[test]
fn batch_error_carries_code_and_message() {
    let r = interpret_response(BaiduAsrResponse {
        err_no: 3301,
        err_msg: "speech quality error.".to_string(),
        result: vec![],
    });
    match r {
        Err(e @ VoiceError::AsrError(_)) => {
            assert_eq!(e.message(), "ASR service error: Baidu error: 3301 - speech quality error.")
        }
        _ => panic!("expected a backend error"),
    }
}

#[test]
fn token_url_carries_credentials() {
    let c = BaiduClient::new("ak".to_string(), "sk".to_string());
    assert_eq!(
        c.token_url(),
        "https://aip.baidubce.com/oauth/2.0/token?grant_type=client_credentials&client_id=ak&client_secret=sk"
    );
}

#[test]
fn token_cache_respects_expiry() {
    let mut c = BaiduClient::new("ak".to_string(), "sk".to_string());
    assert_eq!(c.cached_token_at(0), None);
    let t = c
        .accept_token(
            1_000,
            true,
            Ok(TokenResponse { access_token: "tok".to_string(), expires_in: 10 }),
        )
        .unwrap();
    assert_eq!(t, "tok");
    assert_eq!(c.cached_token_at(10_999).as_deref(), Some("tok"));
    assert_eq!(c.cached_token_at(11_000), None);
}

#[test]
fn token_expiry_saturates() {
    let mut c = BaiduClient::new("ak".to_string(), "sk".to_string());
    c.accept_token(
        u64::MAX - 5,
        true,
        Ok(TokenResponse { access_token: "tok".to_string(), expires_in: 100 }),
    )
    .unwrap();
    assert_eq!(c.cached_token.as_ref().unwrap().expires_at_ms, u64::MAX);
}

#[test]
fn token_failures_are_auth_errors() {
    let mut c = BaiduClient::new("ak".to_string(), "sk".to_string());
    assert!(matches!(
        c.accept_token(0, false, Err("ignored".to_string())),
        Err(VoiceError::AsrAuthError(_))
    ));
    match c.accept_token(0, true, Err("bad json".to_string())) {
        Err(VoiceError::AsrAuthError(m)) => assert_eq!(m, "bad json"),
        _ => panic!("expected an auth error"),
    }
    assert!(c.cached_token.is_none());
}

#[test]
fn request_carries_wav_in_base64() {
    let c = BaiduClient::new("ak".to_string(), "sk".to_string());
    let audio = AudioData::new(vec![1, -1], 16000, 1);
    let req = c.build_request(&audio, "tok".to_string()).unwrap();
    assert_eq!(req.format, "wav");
    assert_eq!(req.rate, 16000);
    assert_eq!(req.channel, 1);
    assert_eq!(req.cuid, "proxycast");
    assert_eq!(req.token, "tok");
    assert_eq!(req.len, 48);
    assert_eq!(req.speech, "UklGRigAAABXQVZFZm10IBAAAAABAAEAgD4AAAB9AAACABAAZGF0YQQAAAABAP//");
}
