//! The token-authenticated batch HTTP backend: token cache, request body and
//! response handling.

use vstd::prelude::*;
use crate::audio::{wav_file, wav_fits, AudioData, Segment, TranscribeResult};
use crate::codec::{base64_encode, base64_of};
use crate::error::VoiceError;
use crate::text::{append_decimal, int_decimal};

verus! {

/// Client identifier sent with every request.
pub open spec fn client_id() -> Seq<char> {
    "proxycast"@
}

/// A bearer token and the time (milliseconds since the epoch) it expires.
pub struct CachedToken {
    pub token: String,
    pub expires_at_ms: u64,
}

/// Credentials of the batch backend and its token cache.
pub struct BaiduClient {
    pub api_key: String,
    pub secret_key: String,
    pub cached_token: Option<CachedToken>,
}

/// The body of a token exchange answer.
pub struct TokenResponse {
    pub access_token: String,
    /// Lifetime in seconds.
    pub expires_in: u64,
}

/// A transcription request.
pub struct BaiduAsrRequest {
    pub format: String,
    pub rate: u32,
    pub channel: u16,
    pub cuid: String,
    pub token: String,
    /// Base64 of the WAV file.
    pub speech: String,
    /// Length of the WAV file in bytes.
    pub len: usize,
}

/// A transcription answer; `err_no` 0 means success.
pub struct BaiduAsrResponse {
    pub err_no: i32,
    pub err_msg: String,
    pub result: Vec<String>,
}

/// The strings joined with nothing between them.
pub open spec fn concat_all(parts: Seq<String>) -> Seq<char>
    decreases parts.len(),
{
    if parts.len() == 0 {
        seq![]
    } else {
        concat_all(parts.drop_last()) + parts.last()@
    }
}

/// The token exchange URL for a key pair.
pub open spec fn token_url_of(api_key: Seq<char>, secret_key: Seq<char>) -> Seq<char> {
    "https://aip.baidubce.com/oauth/2.0/token?grant_type=client_credentials&client_id="@ + api_key
        + "&client_secret="@ + secret_key
}

/// Expiry time of a token received at `now_ms` that lives `expires_in` seconds,
/// saturating at the largest time.
pub open spec fn expiry_of(now_ms: u64, expires_in: u64) -> u64 {
    if now_ms + expires_in * 1000 <= u64::MAX {
        (now_ms + expires_in * 1000) as u64
    } else {
        u64::MAX
    }
}

/// The error text for a failed transcription answer.
pub open spec fn baidu_error_text(err_no: i32, err_msg: Seq<char>) -> Seq<char> {
    "Baidu error: "@ + int_decimal(err_no as int) + " - "@ + err_msg
}

/// The batch backend's result for `text`: language "zh", no confidence and
/// one zero-duration segment with the whole text.
pub open spec fn is_batch_result(res: TranscribeResult, text: Seq<char>) -> bool {
    &&& res.text@ == text
    &&& res.language matches Some(l) && l@ == "zh"@
    &&& res.confidence is None
    &&& res.segments@.len() == 1
    &&& res.segments@[0].start_cs == 0
    &&& res.segments@[0].end_cs == 0
    &&& res.segments@[0].text@ == text
}

/// The outcome for a transcription answer.
pub open spec fn baidu_outcome(resp: BaiduAsrResponse, r: Result<TranscribeResult, VoiceError>) -> bool {
    if resp.err_no != 0 {
        r matches Err(VoiceError::AsrError(s)) && s@ == baidu_error_text(resp.err_no, resp.err_msg@)
    } else {
        r matches Ok(res) && is_batch_result(res, concat_all(resp.result@))
    }
}

/// Joins the strings with nothing between them.
pub fn join_all(parts: &Vec<String>) -> (r: String)
    ensures
        r@ == concat_all(parts@),
{
    let mut out = String::new();
    let mut i: usize = 0;
    while i < parts.len()
        invariant
            i <= parts@.len(),
            out@ == concat_all(parts@.subrange(0, i as int)),
        decreases parts@.len() - i,
    {
        out.append(parts[i].as_str());
        proof {
            let pre = parts@.subrange(0, i as int + 1);
            assert(pre.drop_last() =~= parts@.subrange(0, i as int));
        }
        i = i + 1;
    }
    assert(parts@.subrange(0, parts@.len() as int) =~= parts@);
    out
}

/// Turns a transcription answer into a result: a non-zero `err_no` is an
/// error with the code and message; otherwise the strings joined are the text.
pub fn interpret_response(resp: BaiduAsrResponse) -> (r: Result<TranscribeResult, VoiceError>)
    ensures
        baidu_outcome(resp, r),
{
    if resp.err_no != 0 {
        let mut text = String::from_str("Baidu error: ");
        append_decimal(&mut text, resp.err_no as i64);
        text.append(" - ");
        text.append(resp.err_msg.as_str());
        assert(text@ =~= baidu_error_text(resp.err_no, resp.err_msg@));
        return Err(VoiceError::AsrError(text));
    }
    let text = join_all(&resp.result);
    let segment = Segment { start_cs: 0, end_cs: 0, text: text.clone() };
    let mut segments: Vec<Segment> = Vec::new();
    segments.push(segment);
    Ok(
        TranscribeResult {
            text,
            language: Some(String::from_str("zh")),
            confidence: None,
            segments,
        },
    )
}

impl BaiduClient {
    pub fn new(api_key: String, secret_key: String) -> (r: BaiduClient)
        ensures
            r.api_key@ == api_key@,
            r.secret_key@ == secret_key@,
            r.cached_token is None,
    {
        BaiduClient { api_key, secret_key, cached_token: None }
    }

    /// The token exchange URL, with the key pair as query parameters.
    pub fn token_url(&self) -> (r: String)
        ensures
            r@ == token_url_of(self.api_key@, self.secret_key@),
    {
        String::from_str(
            "https://aip.baidubce.com/oauth/2.0/token?grant_type=client_credentials&client_id=",
        ).concat(self.api_key.as_str()).concat("&client_secret=").concat(self.secret_key.as_str())
    }

    /// The cached token, if one is held and has not expired at `now_ms`.
    pub fn cached_token_at(&self, now_ms: u64) -> (r: Option<String>)
        ensures
            match self.cached_token {
                Some(c) if now_ms < c.expires_at_ms => r matches Some(t) && t@ == c.token@,
                _ => r is None,
            },
    {
        match &self.cached_token {
            Some(c) => if now_ms < c.expires_at_ms {
                Some(c.token.clone())
            } else {
                None
            },
            None => None,
        }
    }

    /// Takes the outcome of a token exchange made at `now_ms`: a failed HTTP
    /// status or an undecodable body is an authentication error; a token is
    /// cached with its expiry and returned.
    pub fn accept_token(
        &mut self,
        now_ms: u64,
        status_ok: bool,
        body: Result<TokenResponse, String>,
    ) -> (r: Result<String, VoiceError>)
        ensures
            final(self).api_key == old(self).api_key,
            final(self).secret_key == old(self).secret_key,
            !status_ok ==> (r matches Err(e) && e is AsrAuthError),
            !status_ok || body is Err ==> final(self).cached_token == old(self).cached_token,
            status_ok ==> match body {
                Err(m) => (r matches Err(VoiceError::AsrAuthError(s)) && s@ == m@),
                Ok(t) => (r matches Ok(tok) && tok@ == t.access_token@) && (final(self).cached_token matches Some(c) && c.token@ == t.access_token@ && c.expires_at_ms
                    == expiry_of(now_ms, t.expires_in)),
            },
    {
        if !status_ok {
            return Err(VoiceError::AsrAuthError(String::from_str("the token exchange failed")));
        }
        match body {
            Err(e) => Err(VoiceError::AsrAuthError(e)),
            Ok(resp) => {
                let expires_at_ms: u64 = if resp.expires_in <= (u64::MAX - now_ms) / 1000 {
                    now_ms + resp.expires_in * 1000
                } else {
                    u64::MAX
                };
                let token = resp.access_token;
                self.cached_token = Some(
                    CachedToken { token: token.clone(), expires_at_ms },
                );
                Ok(token)
            },
        }
    }

    /// The request body for a buffer: its WAV file in base64, with format,
    /// rate, channel count, client id, token and the file's byte length.
    /// A buffer too long for a WAV header is an audio format error.
    pub fn build_request(&self, audio: &AudioData, token: String) -> (r: Result<
        BaiduAsrRequest,
        VoiceError,
    >)
        ensures
            !wav_fits(audio.samples@.len(), audio.sample_rate as nat, audio.channels as nat) ==> (r
                matches Err(e) && e is AudioFormatError),
            wav_fits(audio.samples@.len(), audio.sample_rate as nat, audio.channels as nat) ==> (r
                matches Ok(req) && {
                let wav = wav_file(audio.samples@, audio.sample_rate as nat, audio.channels as nat);
                &&& req.format@ == "wav"@
                &&& req.rate == audio.sample_rate
                &&& req.channel == audio.channels
                &&& req.cuid@ == client_id()
                &&& req.token@ == token@
                &&& req.speech@ == base64_of(wav)
                &&& req.len == wav.len()
            }),
    {
        let n: usize = audio.samples.len();
        let rate: u64 = audio.sample_rate as u64;
        let ch: u64 = audio.channels as u64;
        assert(rate * ch * 2 <= 0xffff_ffff * 0xffff * 2) by (nonlinear_arith)
            requires
                rate <= 0xffff_ffff,
                ch <= 0xffff,
        ;
        let fits = n <= (0xffff_ffffusize - 36) / 2 && rate * ch * 2 <= 0xffff_ffff && ch * 2
            <= 0xffff;
        if !fits {
            return Err(VoiceError::AudioFormatError(String::from_str("the recording is too long")));
        }
        let wav = audio.to_wav_bytes();
        let speech = base64_encode(wav.as_slice());
        Ok(
            BaiduAsrRequest {
                format: String::from_str("wav"),
                rate: audio.sample_rate,
                channel: audio.channels,
                cuid: String::from_str("proxycast"),
                token,
                speech,
                len: wav.len(),
            },
        )
    }
}

} // verus!
