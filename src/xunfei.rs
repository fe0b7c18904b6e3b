//! The signed WebSocket streaming backend: authentication URL, outgoing
//! frames, the receive loop's decisions, and the final result.

use vstd::prelude::*;
use crate::audio::{Segment, TranscribeResult};
use crate::codec::{
    MAX_FOUR_DIGIT_YEAR_SECS,
    base64_encode, base64_of, format_rfc1123_at, rfc1123_date_of, hmac_sha256, hmac_sha256_of, url_encode, url_encoded,
};
use crate::error::VoiceError;
use crate::text::{append_decimal, int_decimal};
use vstd::utf8::encode_utf8;

verus! {

/// Bytes of raw audio per frame: 40 ms of 16 kHz mono 16-bit PCM.
pub const FRAME_SIZE: usize = 1280;

/// Status marker of the first frame, which also carries the business parameters.
pub const STATUS_FIRST: u8 = 0;

/// Status marker of every frame between the first and the last.
pub const STATUS_CONTINUE: u8 = 1;

/// Status marker of the last frame, and of the server's final response.
pub const STATUS_LAST: u8 = 2;

/// Silence that ends an utterance, in milliseconds.
pub const VAD_EOS_MS: u32 = 3000;

/// Pause between two sends, in milliseconds.
pub const FRAME_INTERVAL_MS: u64 = 45;

/// Deadline for the whole receive loop, in seconds.
pub const RECEIVE_TIMEOUT_SECS: u64 = 30;

/// Credentials and language of the streaming backend.
pub struct XunfeiClient {
    pub app_id: String,
    pub api_key: String,
    pub api_secret: String,
    pub language: String,
}

/// Parameters common to every frame.
pub struct XunfeiCommon {
    pub app_id: String,
}

/// One-time business parameters, sent with the first frame only.
pub struct XunfeiBusiness {
    pub language: String,
    pub domain: String,
    pub accent: String,
    /// Silence timeout in milliseconds.
    pub vad_eos: u32,
    /// Dynamic correction mode.
    pub dwa: Option<String>,
    /// Punctuation flag.
    pub ptt: Option<u8>,
}

/// The audio part of a frame.
pub struct XunfeiData {
    pub status: u8,
    pub format: String,
    pub encoding: String,
    /// Base64 of this frame's raw audio bytes.
    pub audio: String,
}

/// One outgoing frame.
pub struct XunfeiRequest {
    pub common: XunfeiCommon,
    pub business: Option<XunfeiBusiness>,
    pub data: XunfeiData,
}

/// A candidate word.
pub struct XunfeiCandidate {
    pub w: String,
}

/// A word position with its candidates.
pub struct XunfeiWord {
    pub cw: Vec<XunfeiCandidate>,
}

/// The recognition result carried by a response.
pub struct XunfeiResult {
    pub ws: Vec<XunfeiWord>,
    /// Whether this is the final result.
    pub ls: Option<bool>,
}

/// The data part of a response.
pub struct XunfeiResponseData {
    pub status: u8,
    pub result: Option<XunfeiResult>,
}

/// One incoming response; `code` 0 means success.
pub struct XunfeiResponse {
    pub code: i32,
    pub message: Option<String>,
    /// Session id.
    pub sid: Option<String>,
    pub data: Option<XunfeiResponseData>,
}

/// What the receive loop was handed by the connection.
pub enum IncomingMessage {
    /// A text message that decoded into a response.
    Response(XunfeiResponse),
    /// A text message that did not decode; it is skipped.
    Unparsable,
    /// The peer closed the connection.
    Close,
    Ping,
    /// Reading from the connection failed.
    ReceiveFailed,
    /// Any other frame (binary, pong).
    Other,
}

/// How the receive task ended, as seen by the waiting side.
pub enum ReceiveOutcome {
    /// The loop ended on its own with these responses, in arrival order.
    Completed(Vec<XunfeiResponse>),
    /// The task itself failed (panicked or was cancelled).
    TaskFailed(String),
    /// The deadline passed first.
    TimedOut,
}

/// The candidates' text, in order.
pub open spec fn candidates_text(cw: Seq<XunfeiCandidate>) -> Seq<char>
    decreases cw.len(),
{
    if cw.len() == 0 {
        seq![]
    } else {
        candidates_text(cw.drop_last()) + cw.last().w@
    }
}

/// Every candidate of every word, in order.
pub open spec fn words_text(ws: Seq<XunfeiWord>) -> Seq<char>
    decreases ws.len(),
{
    if ws.len() == 0 {
        seq![]
    } else {
        words_text(ws.drop_last()) + candidates_text(ws.last().cw@)
    }
}

/// The words a response carries; none without data or result.
pub open spec fn response_text(r: XunfeiResponse) -> Seq<char> {
    match r.data {
        Some(d) => match d.result {
            Some(res) => words_text(res.ws@),
            None => seq![],
        },
        None => seq![],
    }
}

/// The words of all responses, in arrival order then word order.
pub open spec fn responses_text(rs: Seq<XunfeiResponse>) -> Seq<char>
    decreases rs.len(),
{
    if rs.len() == 0 {
        seq![]
    } else {
        responses_text(rs.drop_last()) + response_text(rs.last())
    }
}

/// A response whose embedded status is the `Last` marker.
pub open spec fn is_last_response(r: XunfeiResponse) -> bool {
    r.data matches Some(d) && d.status == STATUS_LAST
}

/// One step of the receive loop over (collected responses, finished).
pub open spec fn receive_step(state: (Seq<XunfeiResponse>, bool), m: IncomingMessage) -> (
    Seq<XunfeiResponse>,
    bool,
) {
    if state.1 {
        state
    } else {
        match m {
            IncomingMessage::Response(r) => (state.0.push(r), is_last_response(r)),
            IncomingMessage::Close => (state.0, true),
            IncomingMessage::ReceiveFailed => (state.0, true),
            _ => state,
        }
    }
}

/// The receive loop's state after a sequence of messages.
pub open spec fn receive_all(msgs: Seq<IncomingMessage>) -> (Seq<XunfeiResponse>, bool)
    decreases msgs.len(),
{
    if msgs.len() == 0 {
        (seq![], false)
    } else {
        receive_step(receive_all(msgs.drop_last()), msgs.last())
    }
}

/// The first response with a non-zero code.
pub open spec fn first_code_error(rs: Seq<XunfeiResponse>) -> Option<XunfeiResponse>
    decreases rs.len(),
{
    if rs.len() == 0 {
        None
    } else if rs[0].code != 0 {
        Some(rs[0])
    } else {
        first_code_error(rs.drop_first())
    }
}

/// The text of an optional message, empty when absent.
pub open spec fn message_or_empty(m: Option<String>) -> Seq<char> {
    match m {
        Some(s) => s@,
        None => seq![],
    }
}

/// The error text for a response with a non-zero code.
pub open spec fn code_error_text(r: XunfeiResponse) -> Seq<char> {
    "Xunfei error ["@ + int_decimal(r.code as int) + "]: "@ + message_or_empty(r.message)
}

/// The result of the streaming backend for the words `text`: language "zh",
/// no confidence, and one zero-duration segment holding the whole text.
pub open spec fn is_stream_result(res: TranscribeResult, text: Seq<char>) -> bool {
    &&& res.text@ == text
    &&& res.language matches Some(l) && l@ == "zh"@
    &&& res.confidence is None
    &&& res.segments@.len() == 1
    &&& res.segments@[0].start_cs == 0
    &&& res.segments@[0].end_cs == 0
    &&& res.segments@[0].text@ == text
}

/// The error for a deadline that passed before the receive loop ended.
pub open spec fn is_timeout_error(e: VoiceError) -> bool {
    e matches VoiceError::NetworkError(s) && s@ == "timed out waiting for the recognition result"@
}

/// The outcome of a streaming call: a timeout or a failed task fails; a send
/// failure with nothing received fails with that error; else the first
/// response with a non-zero code fails; else the words make the result.
pub open spec fn finish_matches(
    outcome: ReceiveOutcome,
    send_error: Option<VoiceError>,
    r: Result<TranscribeResult, VoiceError>,
) -> bool {
    match outcome {
        ReceiveOutcome::TimedOut => r matches Err(e) && is_timeout_error(e),
        ReceiveOutcome::TaskFailed(m) => r matches Err(VoiceError::AsrError(s)) && s@
            == "receive task failed: "@ + m@,
        ReceiveOutcome::Completed(rs) => if send_error is Some && rs@.len() == 0 {
            r == Err::<TranscribeResult, VoiceError>(send_error->0)
        } else {
            match first_code_error(rs@) {
                Some(bad) => r matches Err(VoiceError::AsrError(s)) && s@ == code_error_text(bad),
                None => r matches Ok(res) && is_stream_result(res, responses_text(rs@)),
            }
        },
    }
}

/// Number of frames for `n` bytes of audio: `ceil(n / FRAME_SIZE)`.
pub open spec fn frame_count(n: nat) -> nat {
    ((n + FRAME_SIZE - 1) / FRAME_SIZE as int) as nat
}

/// The bytes that frame `i` carries.
pub open spec fn chunk_of(bytes: Seq<u8>, i: nat) -> Seq<u8> {
    let start = i * FRAME_SIZE;
    let end = if (i + 1) * FRAME_SIZE <= bytes.len() {
        (i + 1) * FRAME_SIZE
    } else {
        bytes.len() as int
    };
    bytes.subrange(start, end)
}

/// Status marker of frame `i` among `total`: the first frame is `First`
/// (also when it is the only one), the final one `Last`, the rest `Continue`.
pub open spec fn frame_status(i: nat, total: nat) -> u8 {
    if i == 0 {
        STATUS_FIRST
    } else if i + 1 == total {
        STATUS_LAST
    } else {
        STATUS_CONTINUE
    }
}

/// The audio part of a frame with the given status and bytes.
pub open spec fn data_matches(d: XunfeiData, status: u8, chunk: Seq<u8>) -> bool {
    &&& d.status == status
    &&& d.format@ == "audio/L16;rate=16000"@
    &&& d.encoding@ == "raw"@
    &&& d.audio@ == base64_of(chunk)
}

/// The business parameters for a language.
pub open spec fn business_matches(b: XunfeiBusiness, language: Seq<char>) -> bool {
    &&& b.language@ == language
    &&& b.domain@ == "iat"@
    &&& b.accent@ == "mandarin"@
    &&& b.vad_eos == VAD_EOS_MS
    &&& b.dwa matches Some(dwa) && dwa@ == "wpgs"@
    &&& b.ptt == Some(1u8)
}

/// The canonical text that is signed: host, date and request line.
pub open spec fn signature_origin(date: Seq<char>) -> Seq<char> {
    "host: iat-api.xfyun.cn\ndate: "@ + date + "\nGET /v2/iat HTTP/1.1"@
}

/// The structured authorization value around a base64 signature.
pub open spec fn authorization_origin(api_key: Seq<char>, signature: Seq<char>) -> Seq<char> {
    "api_key=\""@ + api_key
        + "\", algorithm=\"hmac-sha256\", headers=\"host date request-line\", signature=\""@
        + signature + "\""@
}

/// The connection URL for a given signature (MAC bytes) and date.
pub open spec fn auth_url_with(api_key: Seq<char>, mac: Seq<u8>, date: Seq<char>) -> Seq<char> {
    "wss://iat-api.xfyun.cn/v2/iat?authorization="@ + url_encoded(
        base64_of(encode_utf8(authorization_origin(api_key, base64_of(mac)))),
    ) + "&date="@ + url_encoded(date) + "&host="@ + url_encoded("iat-api.xfyun.cn"@)
}

/// The connection URL: the canonical text for `date`, signed with
/// HMAC-SHA256 under the secret.
pub open spec fn auth_url(api_key: Seq<char>, api_secret: Seq<char>, date: Seq<char>) -> Seq<
    char,
> {
    auth_url_with(
        api_key,
        hmac_sha256_of(encode_utf8(api_secret), encode_utf8(signature_origin(date))),
        date,
    )
}

/// Appends the candidates' text.
fn append_candidates(out: &mut String, cw: &Vec<XunfeiCandidate>)
    ensures
        final(out)@ == old(out)@ + candidates_text(cw@),
{
    let mut k: usize = 0;
    while k < cw.len()
        invariant
            k <= cw@.len(),
            out@ == old(out)@ + candidates_text(cw@.subrange(0, k as int)),
        decreases cw@.len() - k,
    {
        out.append(cw[k].w.as_str());
        proof {
            let pre = cw@.subrange(0, k as int + 1);
            assert(pre.drop_last() =~= cw@.subrange(0, k as int));
        }
        k = k + 1;
    }
    assert(cw@.subrange(0, cw@.len() as int) =~= cw@);
}

/// Appends the words' text.
fn append_words(out: &mut String, ws: &Vec<XunfeiWord>)
    ensures
        final(out)@ == old(out)@ + words_text(ws@),
{
    let mut j: usize = 0;
    while j < ws.len()
        invariant
            j <= ws@.len(),
            out@ == old(out)@ + words_text(ws@.subrange(0, j as int)),
        decreases ws@.len() - j,
    {
        append_candidates(out, &ws[j].cw);
        proof {
            let pre = ws@.subrange(0, j as int + 1);
            assert(pre.drop_last() =~= ws@.subrange(0, j as int));
        }
        j = j + 1;
    }
    assert(ws@.subrange(0, ws@.len() as int) =~= ws@);
}

/// Builds the result from the collected responses: all candidate words
/// concatenated in arrival order, as one zero-duration segment.
pub fn parse_result(responses: &[XunfeiResponse]) -> (r: TranscribeResult)
    ensures
        is_stream_result(r, responses_text(responses@)),
{
    let mut full_text = String::new();
    let mut i: usize = 0;
    while i < responses.len()
        invariant
            i <= responses@.len(),
            full_text@ == responses_text(responses@.subrange(0, i as int)),
        decreases responses@.len() - i,
    {
        let resp = &responses[i];
        if let Some(data) = &resp.data {
            if let Some(result) = &data.result {
                append_words(&mut full_text, &result.ws);
            }
        }
        proof {
            let pre = responses@.subrange(0, i as int + 1);
            assert(pre.drop_last() =~= responses@.subrange(0, i as int));
        }
        i = i + 1;
    }
    assert(responses@.subrange(0, responses@.len() as int) =~= responses@);
    let segment = Segment { start_cs: 0, end_cs: 0, text: full_text.clone() };
    let mut segments: Vec<Segment> = Vec::new();
    segments.push(segment);
    TranscribeResult {
        text: full_text,
        language: Some(String::from_str("zh")),
        confidence: None,
        segments,
    }
}

/// The receive loop's state: the responses so far, and whether it has ended.
pub struct ReceiveLoop {
    pub responses: Vec<XunfeiResponse>,
    pub finished: bool,
}

impl ReceiveLoop {
    pub open spec fn state(&self) -> (Seq<XunfeiResponse>, bool) {
        (self.responses@, self.finished)
    }

    pub fn new() -> (r: ReceiveLoop)
        ensures
            r.state() == receive_all(seq![]),
    {
        ReceiveLoop { responses: Vec::new(), finished: false }
    }

    /// Takes one message; returns whether the loop has ended. A response
    /// with the `Last` status, a close frame or a read failure ends it; an
    /// undecodable message is skipped; after the end nothing changes.
    pub fn on_message(&mut self, msg: IncomingMessage) -> (done: bool)
        ensures
            final(self).state() == receive_step(old(self).state(), msg),
            done == final(self).finished,
    {
        if self.finished {
            return true;
        }
        match msg {
            IncomingMessage::Response(r) => {
                let last = match &r.data {
                    Some(d) => d.status == STATUS_LAST,
                    None => false,
                };
                self.responses.push(r);
                self.finished = last;
            },
            IncomingMessage::Close => {
                self.finished = true;
            },
            IncomingMessage::ReceiveFailed => {
                self.finished = true;
            },
            _ => {},
        }
        self.finished
    }
}

/// Runs the receive loop over a sequence of messages and returns the
/// responses it collected.
pub fn collect_responses(messages: Vec<IncomingMessage>) -> (r: Vec<XunfeiResponse>)
    ensures
        r@ == receive_all(messages@).0,
{
    let ghost all = messages@;
    let mut rest = messages;
    let n: usize = rest.len();
    let mut lp = ReceiveLoop::new();
    let mut i: usize = 0;
    while rest.len() > 0
        invariant
            n == all.len(),
            i <= all.len(),
            i + rest@.len() == all.len(),
            rest@ == all.subrange(i as int, all.len() as int),
            lp.state() == receive_all(all.subrange(0, i as int)),
        decreases rest@.len(),
    {
        let m = rest.remove(0);
        lp.on_message(m);
        proof {
            let pre = all.subrange(0, i as int + 1);
            assert(pre.drop_last() =~= all.subrange(0, i as int));
            assert(rest@ =~= all.subrange(i as int + 1, all.len() as int));
        }
        i = i + 1;
    }
    assert(all.subrange(0, i as int) =~= all);
    lp.responses
}

/// Whether the sender pauses `FRAME_INTERVAL_MS` after frame `i` of `total`:
/// after every frame but the last.
pub fn pause_after(i: usize, total: usize) -> (r: bool)
    ensures
        r == (i + 1 < total),
{
    i < total && total - i > 1
}

/// How one attempt to send a frame went.
pub enum SendAttempt {
    Sent,
    /// The frame could not be encoded as a message.
    EncodeFailed(String),
    /// The connection refused the message.
    SendFailed(String),
}

/// What the sender does next.
pub enum SendStep {
    /// Go on with the next frame, after a pause when `pause` holds.
    Continue { pause: bool },
    /// Send nothing more; the error is kept for the final decision.
    Abort(VoiceError),
}

/// The sender's step after an attempt on frame `i` of `total`.
pub open spec fn send_step_matches(i: nat, total: nat, attempt: SendAttempt, r: SendStep) -> bool {
    match attempt {
        SendAttempt::Sent => r matches SendStep::Continue { pause } && pause == (i + 1 < total),
        SendAttempt::EncodeFailed(m) => r matches SendStep::Abort(VoiceError::AsrError(s)) && s@
            == "encoding a frame failed: "@ + m@,
        SendAttempt::SendFailed(m) => r matches SendStep::Abort(VoiceError::NetworkError(s)) && s@
            == "sending a frame failed: "@ + m@,
    }
}

/// Decides what the sender does after trying frame `i` of `total`: a sent
/// frame is followed by the next one (with a pause unless it was the last);
/// a failure stops sending without ending the call.
pub fn after_send(i: usize, total: usize, attempt: SendAttempt) -> (r: SendStep)
    ensures
        send_step_matches(i as nat, total as nat, attempt, r),
{
    match attempt {
        SendAttempt::Sent => SendStep::Continue { pause: pause_after(i, total) },
        SendAttempt::EncodeFailed(m) => SendStep::Abort(
            VoiceError::AsrError(String::from_str("encoding a frame failed: ").concat(m.as_str())),
        ),
        SendAttempt::SendFailed(m) => SendStep::Abort(
            VoiceError::NetworkError(
                String::from_str("sending a frame failed: ").concat(m.as_str()),
            ),
        ),
    }
}

/// Decides the outcome of a streaming call from how the receive task ended
/// and whether sending failed.
pub fn finish_transcription(outcome: ReceiveOutcome, send_error: Option<VoiceError>) -> (r: Result<
    TranscribeResult,
    VoiceError,
>)
    ensures
        finish_matches(outcome, send_error, r),
{
    let responses = match outcome {
        ReceiveOutcome::TimedOut => {
            return Err(
                VoiceError::NetworkError(
                    String::from_str("timed out waiting for the recognition result"),
                ),
            );
        },
        ReceiveOutcome::TaskFailed(m) => {
            return Err(
                VoiceError::AsrError(
                    String::from_str("receive task failed: ").concat(m.as_str()),
                ),
            );
        },
        ReceiveOutcome::Completed(rs) => rs,
    };
    if let Some(e) = send_error {
        if responses.len() == 0 {
            return Err(e);
        }
    }
    let mut i: usize = 0;
    assert(responses@.subrange(0, responses@.len() as int) =~= responses@);
    while i < responses.len()
        invariant
            outcome matches ReceiveOutcome::Completed(rs) && rs@ == responses@,
            !(send_error is Some && responses@.len() == 0),
            i <= responses@.len(),
            first_code_error(responses@) == first_code_error(
                responses@.subrange(i as int, responses@.len() as int),
            ),
        decreases responses@.len() - i,
    {
        let resp = &responses[i];
        proof {
            let tail = responses@.subrange(i as int, responses@.len() as int);
            assert(tail.drop_first() =~= responses@.subrange(i as int + 1, responses@.len() as int));
            assert(tail[0] == responses@[i as int]);
            if tail[0].code != 0 {
                assert(first_code_error(tail) == Some(tail[0]));
            } else {
                assert(first_code_error(tail) == first_code_error(tail.drop_first()));
            }
        }
        if resp.code != 0 {
            let mut text = String::from_str("Xunfei error [");
            append_decimal(&mut text, resp.code as i64);
            text.append("]: ");
            match &resp.message {
                Some(m) => text.append(m.as_str()),
                None => {},
            }
            assert(text@ =~= code_error_text(*resp));
            assert(first_code_error(responses@) == Some(*resp));
            return Err(VoiceError::AsrError(text));
        }
        i = i + 1;
    }
    assert(first_code_error(responses@.subrange(i as int, responses@.len() as int)) is None);
    Ok(parse_result(responses.as_slice()))
}

impl XunfeiClient {
    /// `req` is this client's frame with the given status and bytes; only a
    /// `First` frame carries business parameters.
    pub open spec fn is_frame(&self, req: XunfeiRequest, status: u8, chunk: Seq<u8>) -> bool {
        &&& req.common.app_id@ == self.app_id@
        &&& data_matches(req.data, status, chunk)
        &&& if status == STATUS_FIRST {
            req.business matches Some(b) && business_matches(b, self.language@)
        } else {
            req.business is None
        }
    }

    pub fn new(app_id: String, api_key: String, api_secret: String) -> (r: XunfeiClient)
        ensures
            r.app_id@ == app_id@,
            r.api_key@ == api_key@,
            r.api_secret@ == api_secret@,
            r.language@ == "zh_cn"@,
    {
        XunfeiClient { app_id, api_key, api_secret, language: String::from_str("zh_cn") }
    }

    /// The same client with another recognition language.
    pub fn with_language(self, language: String) -> (r: XunfeiClient)
        ensures
            r.app_id@ == self.app_id@,
            r.api_key@ == self.api_key@,
            r.api_secret@ == self.api_secret@,
            r.language@ == language@,
    {
        XunfeiClient { language, ..self }
    }

    /// The connection URL for a signature already computed over the
    /// canonical text for `date`.
    pub fn auth_url_from_mac(&self, date: &str, mac: &[u8]) -> (r: String)
        ensures
            r@ == auth_url_with(self.api_key@, mac@, date@),
    {
        let signature = base64_encode(mac);
        let origin = String::from_str("api_key=\"").concat(self.api_key.as_str()).concat(
            "\", algorithm=\"hmac-sha256\", headers=\"host date request-line\", signature=\"",
        ).concat(signature.as_str()).concat("\"");
        assert(origin@ =~= authorization_origin(self.api_key@, signature@));
        let authorization = base64_encode(origin.as_str().as_bytes());
        let url = String::from_str("wss://iat-api.xfyun.cn/v2/iat?authorization=").concat(
            url_encode(authorization.as_str()).as_str(),
        ).concat("&date=").concat(url_encode(date).as_str()).concat("&host=").concat(
            url_encode("iat-api.xfyun.cn").as_str(),
        );
        assert(url@ =~= auth_url_with(self.api_key@, mac@, date@));
        url
    }

    /// The signed connection URL for an RFC 1123 date.
    pub fn auth_url_at(&self, date: &str) -> (r: String)
        ensures
            r@ == auth_url(self.api_key@, self.api_secret@, date@),
    {
        let origin = String::from_str("host: iat-api.xfyun.cn\ndate: ").concat(date).concat(
            "\nGET /v2/iat HTTP/1.1",
        );
        assert(origin@ =~= signature_origin(date@));
        let mac = hmac_sha256(self.api_secret.as_str().as_bytes(), origin.as_str().as_bytes());
        self.auth_url_from_mac(date, mac.unwrap().as_slice())
    }

    /// The signed connection URL for a time in seconds since the epoch,
    /// written as an RFC 1123 date; fails when no date can be formed for it.
    pub fn generate_auth_url(&self, unix_secs: i64) -> (r: Result<String, VoiceError>)
        ensures
            0 <= unix_secs <= MAX_FOUR_DIGIT_YEAR_SECS ==> r is Ok,
            r is Ok ==> r->Ok_0@ == auth_url(
                self.api_key@,
                self.api_secret@,
                rfc1123_date_of(unix_secs as int),
            ),
            r is Err ==> r->Err_0 is AsrAuthError,
    {
        match format_rfc1123_at(unix_secs, "%a, %d %b %Y %H:%M:%S GMT") {
            Some(date) => Ok(self.auth_url_at(date.as_str())),
            None => Err(
                VoiceError::AsrAuthError(String::from_str("the time cannot be written as a date")),
            ),
        }
    }

    fn build_data(status: u8, chunk: &[u8]) -> (r: XunfeiData)
        ensures
            data_matches(r, status, chunk@),
    {
        XunfeiData {
            status,
            format: String::from_str("audio/L16;rate=16000"),
            encoding: String::from_str("raw"),
            audio: base64_encode(chunk),
        }
    }

    /// The first frame, with the business parameters.
    pub fn build_first_frame(&self, chunk: &[u8]) -> (r: XunfeiRequest)
        ensures
            self.is_frame(r, STATUS_FIRST, chunk@),
    {
        XunfeiRequest {
            common: XunfeiCommon { app_id: self.app_id.clone() },
            business: Some(
                XunfeiBusiness {
                    language: self.language.clone(),
                    domain: String::from_str("iat"),
                    accent: String::from_str("mandarin"),
                    vad_eos: VAD_EOS_MS,
                    dwa: Some(String::from_str("wpgs")),
                    ptt: Some(1u8),
                },
            ),
            data: Self::build_data(STATUS_FIRST, chunk),
        }
    }

    /// A frame between the first and the last.
    pub fn build_continue_frame(&self, chunk: &[u8]) -> (r: XunfeiRequest)
        ensures
            self.is_frame(r, STATUS_CONTINUE, chunk@),
    {
        XunfeiRequest {
            common: XunfeiCommon { app_id: self.app_id.clone() },
            business: None,
            data: Self::build_data(STATUS_CONTINUE, chunk),
        }
    }

    /// The last frame.
    pub fn build_last_frame(&self, chunk: &[u8]) -> (r: XunfeiRequest)
        ensures
            self.is_frame(r, STATUS_LAST, chunk@),
    {
        XunfeiRequest {
            common: XunfeiCommon { app_id: self.app_id.clone() },
            business: None,
            data: Self::build_data(STATUS_LAST, chunk),
        }
    }

    /// Splits raw audio into frames of `FRAME_SIZE` bytes, in sending order.
    pub fn build_frames(&self, bytes: &[u8]) -> (r: Vec<XunfeiRequest>)
        ensures
            r@.len() == frame_count(bytes@.len()),
            forall|i: int|
                0 <= i < r@.len() ==> self.is_frame(
                    #[trigger] r@[i],
                    frame_status(i as nat, r@.len()),
                    chunk_of(bytes@, i as nat),
                ),
    {
        let n: usize = bytes.len();
        let total: usize = n / FRAME_SIZE + if n % FRAME_SIZE != 0 {
            1usize
        } else {
            0usize
        };
        assert(total == frame_count(n as nat));
        let mut frames: Vec<XunfeiRequest> = Vec::new();
        let mut i: usize = 0;
        while i < total
            invariant
                n == bytes@.len(),
                total == frame_count(n as nat),
                i <= total,
                frames@.len() == i,
                forall|k: int|
                    0 <= k < i ==> self.is_frame(
                        #[trigger] frames@[k],
                        frame_status(k as nat, total as nat),
                        chunk_of(bytes@, k as nat),
                    ),
            decreases total - i,
        {
            assert(i * 1280 < n) by (nonlinear_arith)
                requires
                    i < total,
                    total == (n + 1279) / 1280,
            ;
            let start: usize = i * FRAME_SIZE;
            let end: usize = if n - start > FRAME_SIZE {
                start + FRAME_SIZE
            } else {
                n
            };
            let mut chunk: Vec<u8> = Vec::new();
            let mut j: usize = start;
            while j < end
                invariant
                    start <= j <= end <= n,
                    n == bytes@.len(),
                    chunk@ =~= bytes@.subrange(start as int, j as int),
                decreases end - j,
            {
                chunk.push(bytes[j]);
                j = j + 1;
            }
            assert(chunk@ =~= chunk_of(bytes@, i as nat));
            let frame = if i == 0 {
                self.build_first_frame(chunk.as_slice())
            } else if i + 1 == total {
                self.build_last_frame(chunk.as_slice())
            } else {
                self.build_continue_frame(chunk.as_slice())
            };
            frames.push(frame);
            i = i + 1;
        }
        frames
    }
}

/// Audio of more than one frame's bytes gives `ceil(n / FRAME_SIZE)` frames:
/// the first has status `First` and carries the business parameters, the
/// final one (and no other) has status `Last`, and all between are
/// `Continue` frames without business parameters.
pub proof fn lemma_frame_layout(
    client: XunfeiClient,
    bytes: Seq<u8>,
    frames: Seq<XunfeiRequest>,
)
    requires
        bytes.len() > FRAME_SIZE,
        frames.len() == frame_count(bytes.len()),
        forall|i: int|
            0 <= i < frames.len() ==> client.is_frame(
                #[trigger] frames[i],
                frame_status(i as nat, frames.len()),
                chunk_of(bytes, i as nat),
            ),
    ensures
        frames.len() >= 2,
        (frames.len() - 1) * FRAME_SIZE < bytes.len() <= frames.len() * FRAME_SIZE,
        frames[0].data.status == STATUS_FIRST,
        frames[0].business is Some,
        forall|i: int|
            0 <= i < frames.len() ==> (#[trigger] frames[i].data.status == STATUS_LAST <==> i
                == frames.len() - 1),
        forall|i: int|
            0 < i < frames.len() - 1 ==> #[trigger] frames[i].data.status == STATUS_CONTINUE
                && frames[i].business is None,
{
    let n = bytes.len();
    let c = frames.len();
    assert(c >= 2 && (c - 1) * 1280 < n <= c * 1280) by (nonlinear_arith)
        requires
            n > 1280,
            c == (n + 1279) / 1280,
    ;
    assert(client.is_frame(frames[0], frame_status(0, c), chunk_of(bytes, 0)));
    assert forall|i: int| 0 <= i < c implies (#[trigger] frames[i].data.status == STATUS_LAST
        <==> i == c - 1) by {
        assert(client.is_frame(frames[i], frame_status(i as nat, c), chunk_of(bytes, i as nat)));
    }
    assert forall|i: int| 0 < i < c - 1 implies #[trigger] frames[i].data.status
        == STATUS_CONTINUE && frames[i].business is None by {
        assert(client.is_frame(frames[i], frame_status(i as nat, c), chunk_of(bytes, i as nat)));
    }
}

/// The words of two batches of responses, received one after the other, are
/// the words of the first followed by the words of the second.
pub proof fn lemma_responses_text_concat(a: Seq<XunfeiResponse>, b: Seq<XunfeiResponse>)
    ensures
        responses_text(a + b) == responses_text(a) + responses_text(b),
    decreases b.len(),
{
    if b.len() == 0 {
        assert(a + b =~= a);
        assert(responses_text(b) =~= seq![]);
        assert(responses_text(a) + responses_text(b) =~= responses_text(a));
    } else {
        assert((a + b).drop_last() =~= a + b.drop_last());
        assert((a + b).last() == b.last());
        lemma_responses_text_concat(a, b.drop_last());
        assert(responses_text(a + b) =~= responses_text(a) + responses_text(b));
    }
}

/// Once a response with the `Last` status is taken, the receive loop has
/// ended and no later message changes what it collected.
pub proof fn lemma_last_status_ends_receive(
    before: Seq<IncomingMessage>,
    last: XunfeiResponse,
    after: Seq<IncomingMessage>,
)
    requires
        is_last_response(last),
    ensures
        receive_all(before.push(IncomingMessage::Response(last))).1,
        receive_all(before.push(IncomingMessage::Response(last)) + after) == receive_all(
            before.push(IncomingMessage::Response(last)),
        ),
    decreases after.len(),
{
    let head = before.push(IncomingMessage::Response(last));
    assert(head.drop_last() =~= before);
    if after.len() == 0 {
        assert(head + after =~= head);
    } else {
        lemma_last_status_ends_receive(before, last, after.drop_last());
        assert((head + after).drop_last() =~= head + after.drop_last());
    }
}

proof fn lemma_no_code_error(rs: Seq<XunfeiResponse>)
    requires
        forall|i: int| 0 <= i < rs.len() ==> (#[trigger] rs[i]).code == 0,
    ensures
        first_code_error(rs) is None,
    decreases rs.len(),
{
    if rs.len() > 0 {
        assert(rs[0].code == 0);
        assert forall|i: int| 0 <= i < rs.drop_first().len() implies (
        #[trigger] rs.drop_first()[i]).code == 0 by {
            assert(rs.drop_first()[i] == rs[i + 1]);
        }
        lemma_no_code_error(rs.drop_first());
    }
}

/// A receive loop that completes with responses all of code 0 (and, where
/// sending failed, at least one response) makes the call succeed, and its
/// text is every candidate word of every response in arrival order, then
/// word order, then candidate order.
pub proof fn lemma_success_text(
    responses: Vec<XunfeiResponse>,
    send_error: Option<VoiceError>,
    r: Result<TranscribeResult, VoiceError>,
)
    requires
        forall|i: int| 0 <= i < responses@.len() ==> (#[trigger] responses@[i]).code == 0,
        !(send_error is Some && responses@.len() == 0),
        finish_matches(ReceiveOutcome::Completed(responses), send_error, r),
    ensures
        r matches Ok(res) && res.text@ == responses_text(responses@),
{
    lemma_no_code_error(responses@);
}

/// A receive loop that missed its deadline fails the call with the timeout
/// error, whatever was sent and however many responses had arrived.
pub proof fn lemma_timeout_fails(
    send_error: Option<VoiceError>,
    r: Result<TranscribeResult, VoiceError>,
)
    requires
        finish_matches(ReceiveOutcome::TimedOut, send_error, r),
    ensures
        r matches Err(e) && is_timeout_error(e),
{
}

} // verus!
