use voice_core::xunfei::{
    after_send, collect_responses, finish_transcription, parse_result, pause_after,
    IncomingMessage, ReceiveLoop, ReceiveOutcome, SendAttempt, SendStep, XunfeiCandidate, XunfeiResponse, XunfeiResponseData,
    XunfeiResult, XunfeiWord, FRAME_SIZE, STATUS_CONTINUE, STATUS_FIRST, STATUS_LAST,
};
use voice_core::{VoiceError, XunfeiClient};

fn client() -> XunfeiClient {
    XunfeiClient::new("app".to_string(), "key".to_string(), "secret".to_string())
}

fn response(code: i32, status: u8, words: &[&str]) -> XunfeiResponse {
    XunfeiResponse {
        code,
        message: if code != 0 { Some("bad request".to_string()) } else { None },
        sid: Some("sid".to_string()),
        data: Some(XunfeiResponseData {
            status,
            result: Some(XunfeiResult {
                ws: words
                    .iter()
                    .map(|w| XunfeiWord { cw: vec![XunfeiCandidate { w: w.to_string() }] })
                    .collect(),
                ls: None,
            }),
        }),
    }
}

#[test]
fn frame_count_is_ceiling_of_length() {
    let c = client();
    for n in [1usize, 1279, 1280, 1281, 2560, 2561, 16000] {
        let bytes = vec![7u8; n];
        let frames = c.build_frames(&bytes);
        assert_eq!(frames.len(), (n + FRAME_SIZE - 1) / FRAME_SIZE, "n = {}", n);
    }
    assert_eq!(c.build_frames(&[]).len(), 0);
}

#[test]
fn frame_statuses_first_continue_last() {
    let c = client().with_language("en_us".to_string());
    let bytes: Vec<u8> = (0..(FRAME_SIZE * 3 + 10)).map(|i| (i % 251) as u8).collect();
    let frames = c.build_frames(&bytes);
    assert_eq!(frames.len(), 4);
    assert_eq!(frames[0].data.status, STATUS_FIRST);
    let b = frames[0].business.as_ref().expect("first frame carries business parameters");
    assert_eq!(b.language, "en_us");
    assert_eq!(b.domain, "iat");
    assert_eq!(b.accent, "mandarin");
    assert_eq!(b.vad_eos, 3000);
    assert_eq!(b.dwa.as_deref(), Some("wpgs"));
    assert_eq!(b.ptt, Some(1));
    assert_eq!(frames[1].data.status, STATUS_CONTINUE);
    assert_eq!(frames[2].data.status, STATUS_CONTINUE);
    assert_eq!(frames[3].data.status, STATUS_LAST);
    for f in &frames[1..] {
        assert!(f.business.is_none());
    }
    for f in &frames {
        assert_eq!(f.common.app_id, "app");
        assert_eq!(f.data.format, "audio/L16;rate=16000");
        assert_eq!(f.data.encoding, "raw");
    }
}

#[test]
fn frame_audio_is_base64_of_its_chunk() {
    let c = client();
    let mut bytes = vec![0u8; FRAME_SIZE];
    bytes.extend_from_slice(b"Man");
    let frames = c.build_frames(&bytes);
    assert_eq!(frames.len(), 2);
    assert_eq!(frames[1].data.audio, "TWFu");
    assert_eq!(frames[0].data.audio.len(), 1708);
}

#[test]
fn single_chunk_is_a_first_frame() {
    let frames = client().build_frames(&[1, 2, 3]);
    assert_eq!(frames.len(), 1);
    assert_eq!(frames[0].data.status, STATUS_FIRST);
    assert_eq!(frames[0].data.audio, "AQID");
}

#[test]
fn parse_result_concatenates_in_arrival_order() {
    let rs = vec![
        response(0, 0, &["今天", "天气"]),
        response(0, 1, &[]),
        response(0, 2, &["很好", "。"]),
    ];
    let r = parse_result(&rs);
    assert_eq!(r.text, "今天天气很好。");
    assert_eq!(r.language.as_deref(), Some("zh"));
    assert_eq!(r.segments.len(), 1);
    assert_eq!(r.segments[0].text, "今天天气很好。");
    assert_eq!(r.segments[0].start_cs, 0);
    assert_eq!(r.segments[0].end_cs, 0);
}

#[test]
fn last_status_ends_receive_loop() {
    let msgs = vec![
        IncomingMessage::Ping,
        IncomingMessage::Response(response(0, 0, &["a"])),
        IncomingMessage::Unparsable,
        IncomingMessage::Response(response(0, 2, &["b"])),
        IncomingMessage::Response(response(0, 1, &["c"])),
        IncomingMessage::Close,
    ];
    let rs = collect_responses(msgs);
    assert_eq!(rs.len(), 2);
    assert_eq!(parse_result(&rs).text, "ab");
}

#[test]
fn close_frame_ends_receive_loop() {
    let mut lp = ReceiveLoop::new();
    assert!(!lp.on_message(IncomingMessage::Response(response(0, 1, &["x"]))));
    assert!(lp.on_message(IncomingMessage::Close));
    assert!(lp.on_message(IncomingMessage::Response(response(0, 2, &["y"]))));
    assert_eq!(lp.responses.len(), 1);
}

#[test]
fn timeout_fails_even_with_collected_responses() {
    let r = finish_transcription(ReceiveOutcome::TimedOut, None);
    match r {
        Err(VoiceError::NetworkError(m)) => {
            assert_eq!(m, "timed out waiting for the recognition result")
        }
        _ => panic!("expected a timeout error"),
    }
    let r = finish_transcription(
        ReceiveOutcome::TimedOut,
        Some(VoiceError::NetworkError("x".to_string())),
    );
    match r {
        Err(VoiceError::NetworkError(m)) => {
            assert_eq!(m, "timed out waiting for the recognition result")
        }
        _ => panic!("expected a timeout error"),
    }
}

#[test]
fn send_error_with_responses_still_yields_text() {
    let r = finish_transcription(
        ReceiveOutcome::Completed(vec![response(0, 2, &["hi"])]),
        Some(VoiceError::NetworkError("broken pipe".to_string())),
    );
    assert_eq!(r.expect("responses arrived").text, "hi");
}

#[test]
fn send_error_without_responses_fails() {
    let r = finish_transcription(
        ReceiveOutcome::Completed(vec![]),
        Some(VoiceError::NetworkError("broken pipe".to_string())),
    );
    match r {
        Err(VoiceError::NetworkError(m)) => assert_eq!(m, "broken pipe"),
        _ => panic!("expected the send error"),
    }
}

#[test]
fn non_zero_code_fails_with_code_and_message() {
    let r = finish_transcription(
        ReceiveOutcome::Completed(vec![response(0, 0, &["a"]), response(10165, 1, &[])]),
        None,
    );
    match r {
        Err(VoiceError::AsrError(m)) => assert_eq!(m, "Xunfei error [10165]: bad request"),
        _ => panic!("expected a backend error"),
    }
    let r = finish_transcription(ReceiveOutcome::Completed(vec![response(-3, 0, &[])]), None);
    match r {
        Err(VoiceError::AsrError(m)) => assert_eq!(m, "Xunfei error [-3]: bad request"),
        _ => panic!("expected a backend error"),
    }
}

#[test]
fn task_failure_is_reported() {
    let r = finish_transcription(ReceiveOutcome::TaskFailed("panicked".to_string()), None);
    match r {
        Err(VoiceError::AsrError(m)) => assert_eq!(m, "receive task failed: panicked"),
        _ => panic!("expected a task error"),
    }
}

#[test]
fn pauses_between_all_but_last_send() {
    assert!(pause_after(0, 3));
    assert!(pause_after(1, 3));
    assert!(!pause_after(2, 3));
    assert!(!pause_after(0, 1));
}

#[test]
fn auth_url_is_signed_and_encoded() {
    let c = client();
    let date = "Mon, 06 Jan 2025 08:00:00 GMT";
    let url = c.auth_url_at(date);
    assert_eq!(
        url,
        "wss://iat-api.xfyun.cn/v2/iat?authorization=YXBpX2tleT0ia2V5IiwgYWxnb3JpdGhtPSJobWFjLXNoYTI1NiIsIGhlYWRlcnM9Imhvc3QgZGF0ZSByZXF1ZXN0LWxpbmUiLCBzaWduYXR1cmU9IkxCUGJTcDBpZjNLRm1yU1ZCTmkxRUdIWU1uNUt6VGdhbzUxT0VrMG54TGc9Ig%3D%3D&date=Mon%2C%2006%20Jan%202025%2008%3A00%3A00%20GMT&host=iat-api.xfyun.cn"
    );
    let other = XunfeiClient::new("app".into(), "key".into(), "other".into());
    assert_ne!(url, other.auth_url_at(date));
}

#[test]
fn auth_url_from_known_mac() {
    let c = client();
    let url = c.auth_url_from_mac("d", &[0u8, 0, 0]);
    let expected_auth = "YXBpX2tleT0ia2V5IiwgYWxnb3JpdGhtPSJobWFjLXNoYTI1NiIsIGhlYWRlcnM9Imhvc3QgZGF0ZSByZXF1ZXN0LWxpbmUiLCBzaWduYXR1cmU9IkFBQUEi";
    assert_eq!(
        url,
        format!("wss://iat-api.xfyun.cn/v2/iat?authorization={}&date=d&host=iat-api.xfyun.cn", expected_auth)
    );
}

#[test]
fn send_failure_stops_sending() {
    assert!(matches!(after_send(0, 3, SendAttempt::Sent), SendStep::Continue { pause: true }));
    assert!(matches!(after_send(2, 3, SendAttempt::Sent), SendStep::Continue { pause: false }));
    match after_send(1, 3, SendAttempt::SendFailed("reset".to_string())) {
        SendStep::Abort(VoiceError::NetworkError(m)) => assert_eq!(m, "sending a frame failed: reset"),
        _ => panic!("expected a network error"),
    }
    match after_send(1, 3, SendAttempt::EncodeFailed("bad".to_string())) {
        SendStep::Abort(VoiceError::AsrError(m)) => assert_eq!(m, "encoding a frame failed: bad"),
        _ => panic!("expected an encoding error"),
    }
}

#[test]
fn generated_url_uses_given_time() {
    let c = client();
    let url = c.generate_auth_url(1736150400).expect("the date is in range");
    assert_eq!(url, c.auth_url_at("Mon, 06 Jan 2025 08:00:00 GMT"));
    assert!(matches!(c.generate_auth_url(i64::MAX), Err(VoiceError::AsrAuthError(_))));
}

#[test]
fn base64_padding_of_short_chunks() {
    let c = client();
    let mut bytes = vec![0u8; FRAME_SIZE];
    bytes.extend_from_slice(b"Ma");
    assert_eq!(c.build_frames(&bytes)[1].data.audio, "TWE=");
    bytes.truncate(FRAME_SIZE + 1);
    assert_eq!(c.build_frames(&bytes)[1].data.audio, "TQ==");
    let all: Vec<u8> = vec![0xfb, 0xff, 0xbf];
    assert_eq!(c.build_frames(&all)[0].data.audio, "+/+/");
}
