//! Speech-to-text pipeline core: audio buffers, the streaming and batch
//! cloud protocols, local-model request planning, and output ordering.

pub mod audio;
pub mod backend;
pub mod baidu;
pub mod codec;
pub mod config;
pub mod error;
pub mod output;
pub mod recorder;
pub mod text;
pub mod transcriber;
pub mod workspace;
pub mod xunfei;

pub use audio::{AudioData, Segment, TranscribeResult};
pub use error::VoiceError;
pub use backend::{AsrBackend, AsrClient, BackendDescriptor, Capability};
pub use baidu::BaiduClient;
pub use config::{
    get_default_asr_credential, get_instruction, get_instructions, load_voice_config,
    process_text, save_voice_config, AppConfig, AsrCredentialEntry, VoiceInputConfig,
    VoiceInstruction,
};
pub use output::{OutputAction, OutputMode};
pub use recorder::AudioRecorder;
pub use transcriber::{WhisperModel, WhisperTranscriber};
pub use workspace::{WorkspaceCreateRequest, WorkspaceType};
pub use xunfei::XunfeiClient;
