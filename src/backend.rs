//! The three interchangeable backends behind one tagged type, how one is
//! chosen from a stored credential, and the check every buffer passes
//! before it reaches a backend.

use vstd::prelude::*;
use crate::audio::{long_enough, AudioData};
use crate::baidu::BaiduClient;
use crate::config::{AsrCredentialEntry, AsrProvider};
use crate::error::VoiceError;
use crate::transcriber::WhisperTranscriber;
use crate::xunfei::XunfeiClient;

verus! {

/// How a backend consumes audio.
#[derive(Clone, Copy, Debug, PartialEq, Eq, Structural)]
pub enum Capability {
    /// One request with the whole utterance.
    Batch,
    /// Frames sent over a persistent connection.
    Streaming,
}

/// Identifies which backend produced a result.
pub struct BackendDescriptor {
    pub name: String,
    pub capability: Capability,
}

/// What every backend tells about itself.
pub trait AsrClient {
    spec fn spec_name(&self) -> Seq<char>;

    spec fn spec_capability(&self) -> Capability;

    fn name(&self) -> (r: &'static str)
        ensures
            r@ == self.spec_name(),
    ;

    fn capability(&self) -> (r: Capability)
        ensures
            r == self.spec_capability(),
    ;
}

impl AsrClient for BaiduClient {
    open spec fn spec_name(&self) -> Seq<char> {
        "Baidu speech"@
    }

    open spec fn spec_capability(&self) -> Capability {
        Capability::Batch
    }

    fn name(&self) -> (r: &'static str) {
        "Baidu speech"
    }

    fn capability(&self) -> (r: Capability) {
        Capability::Batch
    }
}

impl AsrClient for XunfeiClient {
    open spec fn spec_name(&self) -> Seq<char> {
        "Xunfei speech"@
    }

    open spec fn spec_capability(&self) -> Capability {
        Capability::Streaming
    }

    fn name(&self) -> (r: &'static str) {
        "Xunfei speech"
    }

    fn capability(&self) -> (r: Capability) {
        Capability::Streaming
    }
}

impl AsrClient for WhisperTranscriber {
    open spec fn spec_name(&self) -> Seq<char> {
        "Whisper (local)"@
    }

    open spec fn spec_capability(&self) -> Capability {
        Capability::Batch
    }

    fn name(&self) -> (r: &'static str) {
        "Whisper (local)"
    }

    fn capability(&self) -> (r: Capability) {
        Capability::Batch
    }
}

/// One of the three backends.
pub enum AsrBackend {
    Batch(BaiduClient),
    Stream(XunfeiClient),
    Local(WhisperTranscriber),
}

impl AsrBackend {
    pub open spec fn spec_name(&self) -> Seq<char> {
        match self {
            AsrBackend::Batch(c) => c.spec_name(),
            AsrBackend::Stream(c) => c.spec_name(),
            AsrBackend::Local(c) => c.spec_name(),
        }
    }

    pub open spec fn spec_capability(&self) -> Capability {
        match self {
            AsrBackend::Batch(c) => c.spec_capability(),
            AsrBackend::Stream(c) => c.spec_capability(),
            AsrBackend::Local(c) => c.spec_capability(),
        }
    }

    /// The name and capability of the chosen backend.
    pub fn descriptor(&self) -> (r: BackendDescriptor)
        ensures
            r.name@ == self.spec_name(),
            r.capability == self.spec_capability(),
    {
        let (name, capability) = match self {
            AsrBackend::Batch(c) => (c.name(), c.capability()),
            AsrBackend::Stream(c) => (c.name(), c.capability()),
            AsrBackend::Local(c) => (c.name(), c.capability()),
        };
        BackendDescriptor { name: String::from_str(name), capability }
    }
}

/// The text of an optional string, or a default.
pub open spec fn text_or(o: Option<String>, default: Seq<char>) -> Seq<char> {
    match o {
        Some(s) => s@,
        None => default,
    }
}

/// The backend a credential configures: the streaming backend needs an app
/// id, key and secret; the batch backend a key and secret; the local model
/// needs nothing and detects the language unless one is given. A missing
/// field is an authentication error.
pub open spec fn backend_matches(e: AsrCredentialEntry, r: Result<AsrBackend, VoiceError>) -> bool {
    match e.provider {
        AsrProvider::Xunfei => if e.app_id is Some && e.api_key is Some && e.api_secret is Some {
            r matches Ok(AsrBackend::Stream(c)) && c.app_id@ == e.app_id->0@ && c.api_key@
                == e.api_key->0@ && c.api_secret@ == e.api_secret->0@ && c.language@ == text_or(
                e.language,
                "zh_cn"@,
            )
        } else {
            r matches Err(err) && err is AsrAuthError
        },
        AsrProvider::Baidu => if e.api_key is Some && e.api_secret is Some {
            r matches Ok(AsrBackend::Batch(c)) && c.api_key@ == e.api_key->0@ && c.secret_key@
                == e.api_secret->0@ && c.cached_token is None
        } else {
            r matches Err(err) && err is AsrAuthError
        },
        AsrProvider::Whisper => r matches Ok(AsrBackend::Local(t)) && t.model == e.whisper_model
            && t.language@ == text_or(e.language, "auto"@),
    }
}

fn missing_credentials() -> (r: VoiceError)
    ensures
        r is AsrAuthError,
{
    VoiceError::AsrAuthError(String::from_str("the credential is incomplete"))
}

/// Builds the backend a stored credential selects.
pub fn backend_for(entry: &AsrCredentialEntry) -> (r: Result<AsrBackend, VoiceError>)
    ensures
        backend_matches(*entry, r),
{
    match entry.provider {
        AsrProvider::Xunfei => match (&entry.app_id, &entry.api_key, &entry.api_secret) {
            (Some(app_id), Some(key), Some(secret)) => {
                let client = XunfeiClient::new(app_id.clone(), key.clone(), secret.clone());
                let client = match &entry.language {
                    Some(l) => client.with_language(l.clone()),
                    None => client,
                };
                Ok(AsrBackend::Stream(client))
            },
            _ => Err(missing_credentials()),
        },
        AsrProvider::Baidu => match (&entry.api_key, &entry.api_secret) {
            (Some(key), Some(secret)) => Ok(
                AsrBackend::Batch(BaiduClient::new(key.clone(), secret.clone())),
            ),
            _ => Err(missing_credentials()),
        },
        AsrProvider::Whisper => {
            let t = match &entry.language {
                Some(l) => WhisperTranscriber::new(entry.whisper_model, l.as_str()),
                None => WhisperTranscriber::new(entry.whisper_model, "auto"),
            };
            Ok(AsrBackend::Local(t))
        },
    }
}

/// Admits a buffer to transcription only when it lasts at least half a second.
pub fn check_audio(audio: &AudioData) -> (r: Result<(), VoiceError>)
    ensures
        r is Ok <==> long_enough(audio.samples@.len(), audio.sample_rate as nat, audio.channels as nat),
        r matches Err(e) ==> e is RecordingTooShort,
{
    if audio.is_valid() {
        Ok(())
    } else {
        Err(VoiceError::RecordingTooShort)
    }
}

} // verus!
