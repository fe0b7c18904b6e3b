use voice_core::backend::backend_for;
use voice_core::config::AsrProvider;
use voice_core::output::{next_output_step, output_actions, OutputStep};
use voice_core::text::{append_decimal, trim_text};
use voice_core::transcriber::RawSegment;
use voice_core::{
    get_default_asr_credential, get_instruction, get_instructions, load_voice_config,
    process_text, save_voice_config, AppConfig, AsrBackend, AsrClient, AsrCredentialEntry,
    BaiduClient, Capability, OutputAction, OutputMode, VoiceError, VoiceInputConfig,
    VoiceInstruction, WhisperModel, WhisperTranscriber, WorkspaceType, XunfeiClient,
};

#[test]
fn both_mode_copies_before_typing() {
    assert_eq!(
        output_actions(OutputMode::Both),
        vec![OutputAction::CopyToClipboard, OutputAction::TypeText]
    );
    assert_eq!(output_actions(OutputMode::Type), vec![OutputAction::TypeText]);
    assert_eq!(output_actions(OutputMode::Clipboard), vec![OutputAction::CopyToClipboard]);
}

fn segs() -> Vec<RawSegment> {
    vec![
        RawSegment { t0: 0, t1: 150, text: " Hello".to_string() },
        RawSegment { t0: 150, t1: 320, text: " world. ".to_string() },
    ]
}

#[test]
fn fixed_language_is_forced_and_declared() {
    let t = WhisperTranscriber::new(WhisperModel::Base, "zh");
    let plan = t.plan();
    assert_eq!(plan.language.as_deref(), Some("zh"));
    assert!(!plan.detect_language);
    assert_eq!(plan.best_of, 1);
    assert!(!plan.print_special && !plan.print_progress && !plan.print_realtime);
    assert!(!plan.print_timestamps && !plan.translate && plan.no_context && !plan.single_segment);
    let r = t.assemble(segs(), Some("en".to_string()));
    assert_eq!(r.language.as_deref(), Some("zh"));
    assert_eq!(r.text, "Hello world.");
    assert_eq!(r.segments.len(), 2);
    assert_eq!(r.segments[1].start_cs, 150);
    assert_eq!(r.segments[1].end_cs, 320);
    assert_eq!(r.segments[1].text, " world. ");
}

#[test]
fn auto_language_reports_detection() {
    let t = WhisperTranscriber::new(WhisperModel::Small, "auto");
    let plan = t.plan();
    assert!(plan.language.is_none());
    assert!(plan.detect_language);
    assert_eq!(t.assemble(segs(), Some("en".to_string())).language.as_deref(), Some("en"));
    assert_eq!(t.assemble(vec![], None).language, None);
    assert_eq!(t.model(), WhisperModel::Small);
    assert_eq!(t.language(), "auto");
}

fn instruction(id: &str, prompt: &str) -> VoiceInstruction {
    VoiceInstruction { id: id.to_string(), name: id.to_string(), prompt: prompt.to_string() }
}

fn entry(provider: AsrProvider, is_default: bool, disabled: bool) -> AsrCredentialEntry {
    AsrCredentialEntry {
        id: format!("{:?}-{}-{}", provider, is_default, disabled),
        provider,
        is_default,
        disabled,
        app_id: Some("app".to_string()),
        api_key: Some("key".to_string()),
        api_secret: Some("secret".to_string()),
        language: None,
        whisper_model: WhisperModel::Tiny,
    }
}

fn config() -> AppConfig {
    AppConfig {
        voice_input: VoiceInputConfig {
            enabled: true,
            shortcut: "CommandOrControl+Shift+V".to_string(),
            output_mode: OutputMode::Both,
            instructions: vec![
                instruction("raw", "{{text}}"),
                instruction("polish", "Polish: {{text}}"),
                instruction("polish", "second"),
            ],
        },
        asr_credentials: vec![
            entry(AsrProvider::Baidu, true, true),
            entry(AsrProvider::Xunfei, false, false),
            entry(AsrProvider::Whisper, true, false),
            entry(AsrProvider::Baidu, true, false),
        ],
    }
}

#[test]
fn template_placeholder_is_replaced_everywhere() {
    let i = instruction("x", "A {{text}} and {{text}}; {{tex}} {{{text}}}");
    assert_eq!(process_text("hi", &i), "A hi and hi; {{tex}} {hi}");
    assert_eq!(process_text("", &instruction("x", "{{text}}")), "");
    assert_eq!(process_text("t", &instruction("x", "none")), "none");
    assert_eq!(process_text("{{text}}", &instruction("x", "<{{text}}>")), "<{{text}}>");
    assert_eq!(process_text("好", &instruction("x", "中{{text}}文")), "中好文");
}

#[test]
fn instruction_lookup_takes_first_match() {
    let c = config();
    assert_eq!(get_instruction(&c, "polish").unwrap().prompt, "Polish: {{text}}");
    assert!(get_instruction(&c, "missing").is_none());
    assert_eq!(get_instructions(&c).len(), 3);
}

#[test]
fn default_credential_skips_disabled() {
    let c = config();
    let d = get_default_asr_credential(&c).unwrap();
    assert_eq!(d.provider, AsrProvider::Whisper);
    let mut none = config();
    none.asr_credentials.retain(|e| !e.is_default || e.disabled);
    assert!(get_default_asr_credential(&none).is_none());
}

#[test]
fn voice_config_round_trip() {
    let mut c = config();
    assert!(load_voice_config(&c).enabled);
    let mut v = VoiceInputConfig {
        enabled: false,
        shortcut: "F9".to_string(),
        output_mode: OutputMode::Type,
        instructions: vec![],
    };
    v.instructions.push(instruction("raw", "{{text}}"));
    save_voice_config(&mut c, v);
    let loaded = load_voice_config(&c);
    assert!(!loaded.enabled);
    assert_eq!(loaded.shortcut, "F9");
    assert_eq!(loaded.output_mode, OutputMode::Type);
    assert_eq!(c.asr_credentials.len(), 4);
}

#[test]
fn backend_selection_from_credentials() {
    match backend_for(&entry(AsrProvider::Xunfei, true, false)) {
        Ok(AsrBackend::Stream(c)) => {
            assert_eq!(c.app_id, "app");
            assert_eq!(c.language, "zh_cn");
        }
        _ => panic!("expected the streaming backend"),
    }
    let mut e = entry(AsrProvider::Baidu, true, false);
    match backend_for(&e) {
        Ok(b @ AsrBackend::Batch(_)) => {
            let d = b.descriptor();
            assert_eq!(d.name, "Baidu speech");
            assert_eq!(d.capability, Capability::Batch);
        }
        _ => panic!("expected the batch backend"),
    }
    e.api_secret = None;
    assert!(matches!(backend_for(&e), Err(VoiceError::AsrAuthError(_))));
    let mut w = entry(AsrProvider::Whisper, true, false);
    w.language = Some("en".to_string());
    match backend_for(&w) {
        Ok(AsrBackend::Local(t)) => assert_eq!(t.language(), "en"),
        _ => panic!("expected the local backend"),
    }
}

#[test]
fn backend_names() {
    let x = XunfeiClient::new("a".into(), "b".into(), "c".into());
    assert_eq!(x.name(), "Xunfei speech");
    assert_eq!(x.capability(), Capability::Streaming);
    let b = BaiduClient::new("a".into(), "b".into());
    assert_eq!(b.name(), "Baidu speech");
    let t = WhisperTranscriber::new(WhisperModel::Tiny, "auto");
    assert_eq!(t.name(), "Whisper (local)");
}

#[test]
fn workspace_type_names() {
    assert_eq!(WorkspaceType::Persistent.as_str(), "persistent");
    assert_eq!(WorkspaceType::Temporary.as_str(), "temporary");
    assert_eq!(WorkspaceType::from_str("temporary"), WorkspaceType::Temporary);
    assert_eq!(WorkspaceType::from_str("persistent"), WorkspaceType::Persistent);
    assert_eq!(WorkspaceType::from_str("other"), WorkspaceType::Persistent);
    assert_eq!(WorkspaceType::default(), WorkspaceType::Persistent);
}

#[test]
fn decimal_rendering() {
    let mut s = String::from("n=");
    append_decimal(&mut s, 0);
    assert_eq!(s, "n=0");
    let mut s = String::new();
    append_decimal(&mut s, i64::MIN);
    assert_eq!(s, "-9223372036854775808");
    let mut s = String::new();
    append_decimal(&mut s, 1234567890);
    assert_eq!(s, "1234567890");
}

#[test]
fn error_messages() {
    assert_eq!(
        VoiceError::RecordingTooShort.message(),
        "recording too short (at least 0.5 s is required)"
    );
    assert_eq!(
        VoiceError::ClipboardError("busy".to_string()).message(),
        "clipboard operation failed: busy"
    );
    assert_eq!(
        VoiceError::KeyboardError("denied".to_string()).message(),
        "keyboard simulation failed: denied"
    );
}

#[test]
fn trimming_unicode_white_space() {
    assert_eq!(trim_text("  a b\t\n"), "a b");
    assert_eq!(trim_text("\u{3000}\u{a0}中文\u{2029}"), "中文");
    assert_eq!(trim_text(" \t "), "");
    assert_eq!(trim_text(""), "");
    assert_eq!(trim_text("x\u{200b}"), "x\u{200b}");
}

#[test]
fn delivery_stops_after_first_failure() {
    match next_output_step(OutputMode::Both, 0, Ok(())) {
        OutputStep::Run(OutputAction::CopyToClipboard) => {}
        _ => panic!("the clipboard comes first"),
    }
    match next_output_step(OutputMode::Both, 1, Ok(())) {
        OutputStep::Run(OutputAction::TypeText) => {}
        _ => panic!("typing comes second"),
    }
    assert!(matches!(next_output_step(OutputMode::Both, 2, Ok(())), OutputStep::Done));
    match next_output_step(OutputMode::Both, 0, Err(VoiceError::ClipboardError("busy".to_string()))) {
        OutputStep::Failed(VoiceError::ClipboardError(m)) => assert_eq!(m, "busy"),
        _ => panic!("a clipboard failure ends delivery"),
    }
}
