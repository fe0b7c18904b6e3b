//! Voice input settings and the instruction templates applied to a
//! transcript. Reading and writing the settings file happens outside; these
//! functions work on the loaded settings.

use vstd::prelude::*;
use crate::output::OutputMode;
use crate::transcriber::WhisperModel;

verus! {

/// Which backend a credential is for.
#[derive(Clone, Copy, Debug, PartialEq, Eq, Structural)]
pub enum AsrProvider {
    Xunfei,
    Baidu,
    Whisper,
}

/// A stored backend credential.
pub struct AsrCredentialEntry {
    pub id: String,
    pub provider: AsrProvider,
    pub is_default: bool,
    pub disabled: bool,
    pub app_id: Option<String>,
    pub api_key: Option<String>,
    pub api_secret: Option<String>,
    /// Recognition language; the backend's own default when absent.
    pub language: Option<String>,
    /// Model size for the local backend.
    pub whisper_model: WhisperModel,
}

/// An instruction template; `{{text}}` in the prompt stands for the transcript.
pub struct VoiceInstruction {
    pub id: String,
    pub name: String,
    pub prompt: String,
}

/// Voice input settings.
pub struct VoiceInputConfig {
    pub enabled: bool,
    pub shortcut: String,
    pub output_mode: OutputMode,
    pub instructions: Vec<VoiceInstruction>,
}

/// The loaded application settings that voice input reads.
pub struct AppConfig {
    pub voice_input: VoiceInputConfig,
    pub asr_credentials: Vec<AsrCredentialEntry>,
}

/// The placeholder for the transcript in a prompt.
pub open spec fn text_placeholder() -> Seq<char> {
    "{{text}}"@
}

/// `s` with every occurrence of a non-empty `pat` replaced by `rep`,
/// scanning from the left and never overlapping two occurrences.
pub open spec fn replace_all(s: Seq<char>, pat: Seq<char>, rep: Seq<char>) -> Seq<char>
    decreases s.len(),
{
    if s.len() == 0 {
        seq![]
    } else if 0 < pat.len() <= s.len() && s.subrange(0, pat.len() as int) == pat {
        rep + replace_all(s.subrange(pat.len() as int, s.len() as int), pat, rep)
    } else {
        seq![s[0]] + replace_all(s.drop_first(), pat, rep)
    }
}

/// Whether a credential is marked default and is enabled.
pub open spec fn is_usable_default(c: AsrCredentialEntry) -> bool {
    c.is_default && !c.disabled
}

/// Whether an instruction has the given id.
pub open spec fn has_id(i: VoiceInstruction, id: Seq<char>) -> bool {
    i.id@ == id
}

/// The voice input settings.
pub fn load_voice_config(config: &AppConfig) -> (r: &VoiceInputConfig)
    ensures
        *r == config.voice_input,
{
    &config.voice_input
}

/// Replaces the voice input settings, leaving the rest.
pub fn save_voice_config(config: &mut AppConfig, voice_config: VoiceInputConfig)
    ensures
        final(config).voice_input == voice_config,
        final(config).asr_credentials == old(config).asr_credentials,
{
    config.voice_input = voice_config;
}

/// The first credential that is marked default and not disabled.
pub fn get_default_asr_credential(config: &AppConfig) -> (r: Option<&AsrCredentialEntry>)
    ensures
        r is None <==> forall|k: int|
            0 <= k < config.asr_credentials@.len() ==> !is_usable_default(
                #[trigger] config.asr_credentials@[k],
            ),
        r matches Some(c) ==> exists|k: int|
            0 <= k < config.asr_credentials@.len() && *c == config.asr_credentials@[k]
                && is_usable_default(config.asr_credentials@[k]) && forall|j: int|
                0 <= j < k ==> !is_usable_default(#[trigger] config.asr_credentials@[j]),
{
    let creds = &config.asr_credentials;
    let mut i: usize = 0;
    while i < creds.len()
        invariant
            creds@ == config.asr_credentials@,
            i <= creds@.len(),
            forall|j: int| 0 <= j < i ==> !is_usable_default(#[trigger] creds@[j]),
        decreases creds@.len() - i,
    {
        if creds[i].is_default && !creds[i].disabled {
            assert(is_usable_default(config.asr_credentials@[i as int]));
            return Some(&creds[i]);
        }
        i = i + 1;
    }
    None
}

/// The instruction templates.
pub fn get_instructions(config: &AppConfig) -> (r: &Vec<VoiceInstruction>)
    ensures
        *r == config.voice_input.instructions,
{
    &config.voice_input.instructions
}

/// The first instruction with the given id.
pub fn get_instruction<'a>(config: &'a AppConfig, id: &str) -> (r: Option<&'a VoiceInstruction>)
    ensures
        r is None <==> forall|k: int|
            0 <= k < config.voice_input.instructions@.len() ==> !has_id(
                #[trigger] config.voice_input.instructions@[k],
                id@,
            ),
        r matches Some(c) ==> exists|k: int|
            0 <= k < config.voice_input.instructions@.len() && *c
                == config.voice_input.instructions@[k] && has_id(
                config.voice_input.instructions@[k],
                id@,
            ) && forall|j: int|
                0 <= j < k ==> !has_id(#[trigger] config.voice_input.instructions@[j], id@),
{
    let list = &config.voice_input.instructions;
    let wanted = String::from_str(id);
    let mut i: usize = 0;
    while i < list.len()
        invariant
            list@ == config.voice_input.instructions@,
            i <= list@.len(),
            wanted@ == id@,
            forall|j: int| 0 <= j < i ==> !has_id(#[trigger] list@[j], id@),
        decreases list@.len() - i,
    {
        if list[i].id == wanted {
            assert(has_id(config.voice_input.instructions@[i as int], id@));
            return Some(&list[i]);
        }
        i = i + 1;
    }
    None
}

/// Whether `pat` occurs in `s` at char position `i`.
fn occurs_at(s: &str, pat: &str, i: usize, n: usize, m: usize) -> (r: bool)
    requires
        n == s@.len(),
        m == pat@.len(),
        i <= n,
    ensures
        r == (i + m <= n && s@.subrange(i as int, i + m) == pat@),
{
    if m > n - i {
        return false;
    }
    let mut k: usize = 0;
    while k < m
        invariant
            n == s@.len(),
            m == pat@.len(),
            i + m <= n,
            k <= m,
            s@.subrange(i as int, i + k) == pat@.subrange(0, k as int),
        decreases m - k,
    {
        if s.get_char(i + k) != pat.get_char(k) {
            assert(s@.subrange(i as int, i + m)[k as int] != pat@[k as int]);
            return false;
        }
        assert(s@.subrange(i as int, i + k + 1) =~= pat@.subrange(0, k as int + 1));
        k = k + 1;
    }
    assert(pat@.subrange(0, m as int) =~= pat@);
    true
}

/// `s` with every occurrence of a non-empty `pat` replaced by `rep`.
pub fn replace_text(s: &str, pat: &str, rep: &str) -> (r: String)
    requires
        pat@.len() > 0,
    ensures
        r@ == replace_all(s@, pat@, rep@),
{
    let n: usize = s.unicode_len();
    let m: usize = pat.unicode_len();
    let mut out = String::new();
    let mut i: usize = 0;
    assert(s@.subrange(0, n as int) =~= s@);
    assert(out@ + replace_all(s@.subrange(0, n as int), pat@, rep@) =~= replace_all(
        s@,
        pat@,
        rep@,
    ));
    while i < n
        invariant
            n == s@.len(),
            m == pat@.len(),
            m > 0,
            i <= n,
            out@ + replace_all(s@.subrange(i as int, n as int), pat@, rep@) == replace_all(
                s@,
                pat@,
                rep@,
            ),
        decreases n - i,
    {
        let ghost rest = s@.subrange(i as int, n as int);
        let ghost before = out@;
        if occurs_at(s, pat, i, n, m) {
            assert(rest.subrange(0, m as int) =~= s@.subrange(i as int, i + m));
            assert(rest.subrange(m as int, rest.len() as int) =~= s@.subrange(i + m, n as int));
            out.append(rep);
            i = i + m;
            assert(out@ + replace_all(s@.subrange(i as int, n as int), pat@, rep@) =~= before
                + replace_all(rest, pat@, rep@));
        } else {
            proof {
                if i + m <= n {
                    assert(rest.subrange(0, m as int) =~= s@.subrange(i as int, i + m));
                }
            }
            assert(rest.drop_first() =~= s@.subrange(i + 1, n as int));
            let one = s.substring_char(i, i + 1);
            assert(one@ =~= seq![rest[0]]);
            out.append(one);
            i = i + 1;
            assert(out@ + replace_all(s@.subrange(i as int, n as int), pat@, rep@) =~= before
                + replace_all(rest, pat@, rep@));
        }
    }
    assert(s@.subrange(n as int, n as int) =~= Seq::<char>::empty());
    assert(out@ =~= out@ + replace_all(s@.subrange(n as int, n as int), pat@, rep@));
    assert(s@.subrange(0, n as int) =~= s@);
    out
}

/// Applies an instruction's template: every `{{text}}` in its prompt
/// becomes the transcript.
pub fn process_text(text: &str, instruction: &VoiceInstruction) -> (r: String)
    ensures
        r@ == replace_all(instruction.prompt@, text_placeholder(), text@),
{
    let placeholder = "{{text}}";
    proof {
        reveal_strlit("{{text}}");
    }
    replace_text(instruction.prompt.as_str(), placeholder, text)
}

} // verus!
