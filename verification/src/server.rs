//! What the speech service decides: the requests and answers it exchanges,
//! the text it hands to the synthesiser, the command lines it runs, and the
//! messages it reports and logs.

use vstd::prelude::*;
use crate::normalize::{normalize_text, spec_normalize};
use crate::stress::{StressDict, trim, trim_chars};
use crate::text::{to_chars, from_chars, push_str, push_chars, int_digits, i64_to_chars};

verus! {

/// A request to speak a text.
#[derive(Debug, Clone)]
pub struct TtsRequest {
    pub text: String,
}

/// The answer to a request that could not be served.
#[derive(Debug, Clone)]
pub struct TtsErrorResponse {
    pub success: bool,
    pub error: String,
}

/// The answer to a health check.
#[derive(Debug, Clone)]
pub struct HealthResponse {
    pub status: String,
    pub version: String,
    pub output_dir: String,
    pub speaker_id: i32,
}

/// The service's settings.
#[derive(Debug, Clone)]
pub struct AppConfig {
    pub output_dir: String,
    pub port: u16,
    pub host: String,
    pub speaker_id: i32,
    pub model_dir: String,
}

/// What every request handler shares.
#[derive(Debug, Clone)]
pub struct AppState {
    pub config: AppConfig,
}

/// The answer to a request whose text is empty once trimmed.
pub open spec fn empty_text_error() -> Seq<char> {
    "Порожній текст"@
}

/// Reads a request: its text trimmed and normalised for speech, or the
/// "empty text" error where nothing is left after trimming.
pub fn prepare_request(req: &TtsRequest, dict: &StressDict) -> (r: Result<String, TtsErrorResponse>)
    ensures
        trim(req.text@).len() == 0 ==> (r matches Err(e) && !e.success && e.error@ == empty_text_error()),
        trim(req.text@).len() > 0 ==> (r matches Ok(s) && s@ == spec_normalize(trim(req.text@), dict@)),
{
    let t = to_chars(req.text.as_str());
    let trimmed = trim_chars(t.as_slice());
    if trimmed.len() == 0 {
        return Err(TtsErrorResponse { success: false, error: String::from_str("Порожній текст") });
    }
    let text = from_chars(trimmed.as_slice());
    Ok(normalize_text(text.as_str(), dict))
}

/// The answer to a health check: "ok", the version, and the settings'
/// output directory and speaker.
pub fn health_response(config: &AppConfig, version: &str) -> (r: HealthResponse)
    ensures
        r.status@ == "ok"@,
        r.version@ == version@,
        r.output_dir@ == config.output_dir@,
        r.speaker_id == config.speaker_id,
{
    HealthResponse {
        status: String::from_str("ok"),
        version: String::from_str(version),
        output_dir: config.output_dir.clone(),
        speaker_id: config.speaker_id,
    }
}

/// The media type of the audio: MP3 where `ffmpeg` is there, else WAV.
pub fn mime_type(use_mp3: bool) -> (r: &'static str)
    ensures
        r@ == if use_mp3 { "audio/mpeg"@ } else { "audio/wav"@ },
{
    if use_mp3 { "audio/mpeg" } else { "audio/wav" }
}

/// The name of the audio format: MP3 where `ffmpeg` is there, else WAV.
pub fn format_label(use_mp3: bool) -> (r: &'static str)
    ensures
        r@ == if use_mp3 { "MP3"@ } else { "WAV"@ },
{
    if use_mp3 { "MP3" } else { "WAV" }
}

/// The answer to a request whose audio could not be made.
pub fn generation_error(reason: &str) -> (r: TtsErrorResponse)
    ensures
        !r.success,
        r.error@ == "Помилка генерації: "@ + reason@,
{
    let mut e = to_chars("Помилка генерації: ");
    let rc = to_chars(reason);
    push_chars(&mut e, rc.as_slice());
    TtsErrorResponse { success: false, error: from_chars(e.as_slice()) }
}

/// The text as it is written to the synthesiser: ending with a newline.
pub fn synthesiser_input(normalized: &str) -> (r: String)
    ensures
        normalized@.len() > 0 && normalized@.last() == '\n' ==> r@ == normalized@,
        !(normalized@.len() > 0 && normalized@.last() == '\n') ==> r@ == normalized@.push('\n'),
{
    let mut v = to_chars(normalized);
    if !(v.len() > 0 && v[v.len() - 1] == '\n') {
        v.push('\n');
    }
    from_chars(v.as_slice())
}

/// The views of a list of strings.
pub open spec fn string_views(v: Seq<String>) -> Seq<Seq<char>> {
    v.map_values(|s: String| s@)
}

/// The arguments of the synthesiser for a model, its configuration and a
/// speaker; with `raw`, it writes raw samples instead of a WAV file.
pub open spec fn synthesiser_args_spec(model: Seq<char>, config: Seq<char>, speaker_id: i32, raw: bool) -> Seq<Seq<char>> {
    seq!["--model"@, model, "--config"@, config] + (if raw { seq!["--output-raw"@] } else { Seq::empty() }) + seq![
        "--speaker"@,
        int_digits(speaker_id as int),
    ]
}

/// The arguments of the synthesiser (see `synthesiser_args_spec`).
pub fn synthesiser_args(model: &str, config: &str, speaker_id: i32, raw: bool) -> (r: Vec<String>)
    ensures
        string_views(r@) == synthesiser_args_spec(model@, config@, speaker_id, raw),
{
    let mut r: Vec<String> = Vec::new();
    r.push(String::from_str("--model"));
    r.push(String::from_str(model));
    r.push(String::from_str("--config"));
    r.push(String::from_str(config));
    if raw {
        r.push(String::from_str("--output-raw"));
    }
    r.push(String::from_str("--speaker"));
    let d = i64_to_chars(speaker_id as i64);
    r.push(from_chars(d.as_slice()));
    assert(string_views(r@) =~= synthesiser_args_spec(model@, config@, speaker_id, raw));
    r
}

/// The arguments of the encoder that turns the synthesiser's raw samples
/// (16-bit, 22050 Hz, mono) on its input into a 32 kbit/s MP3 on its
/// output.
pub open spec fn encoder_args_spec() -> Seq<Seq<char>> {
    seq![
        "-y"@, "-f"@, "s16le"@, "-ar"@, "22050"@, "-ac"@, "1"@, "-i"@, "pipe:0"@, "-codec:a"@, "libmp3lame"@,
        "-b:a"@, "32k"@, "-ac"@, "1"@, "-ar"@, "22050"@, "-f"@, "mp3"@, "pipe:1"@,
    ]
}

/// The arguments of the encoder (see `encoder_args_spec`).
pub fn encoder_args() -> (r: Vec<String>)
    ensures
        string_views(r@) == encoder_args_spec(),
{
    let mut r: Vec<String> = Vec::new();
    r.push(String::from_str("-y"));
    r.push(String::from_str("-f"));
    r.push(String::from_str("s16le"));
    r.push(String::from_str("-ar"));
    r.push(String::from_str("22050"));
    r.push(String::from_str("-ac"));
    r.push(String::from_str("1"));
    r.push(String::from_str("-i"));
    r.push(String::from_str("pipe:0"));
    r.push(String::from_str("-codec:a"));
    r.push(String::from_str("libmp3lame"));
    r.push(String::from_str("-b:a"));
    r.push(String::from_str("32k"));
    r.push(String::from_str("-ac"));
    r.push(String::from_str("1"));
    r.push(String::from_str("-ar"));
    r.push(String::from_str("22050"));
    r.push(String::from_str("-f"));
    r.push(String::from_str("mp3"));
    r.push(String::from_str("pipe:1"));
    assert(string_views(r@) =~= encoder_args_spec());
    r
}

/// How an exit code reads in a message: "Some(N)" or "None".
pub open spec fn exit_code_text(code: Option<i32>) -> Seq<char> {
    match code {
        Some(c) => "Some("@ + int_digits(c as int) + ")"@,
        None => "None"@,
    }
}

/// The message for a synthesiser that exited with a failure: its exit
/// code and what it wrote to its error stream, trimmed.
pub fn synthesiser_failure(code: Option<i32>, stderr: &str) -> (r: String)
    ensures
        r@ == "piper завершився з кодом "@ + exit_code_text(code) + ": "@ + trim(stderr@),
{
    let mut m = to_chars("piper завершився з кодом ");
    match code {
        Some(c) => {
            push_str(&mut m, "Some(");
            let d = i64_to_chars(c as i64);
            push_chars(&mut m, d.as_slice());
            push_str(&mut m, ")");
        },
        None => {
            push_str(&mut m, "None");
        },
    }
    push_str(&mut m, ": ");
    let e = to_chars(stderr);
    let t = trim_chars(e.as_slice());
    push_chars(&mut m, t.as_slice());
    from_chars(m.as_slice())
}

/// The message for an encoder that exited with a failure: what it wrote
/// to its error stream, trimmed.
pub fn encoder_failure(stderr: &str) -> (r: String)
    ensures
        r@ == "ffmpeg помилка: "@ + trim(stderr@),
{
    let mut m = to_chars("ffmpeg помилка: ");
    let e = to_chars(stderr);
    let t = trim_chars(e.as_slice());
    push_chars(&mut m, t.as_slice());
    from_chars(m.as_slice())
}

/// Whether what the synthesiser wrote to its error stream is worth logging:
/// something is left of it once trimmed.
pub fn worth_logging(stderr: &str) -> (b: bool)
    ensures
        b == (trim(stderr@).len() > 0),
{
    let e = to_chars(stderr);
    let t = trim_chars(e.as_slice());
    t.len() > 0
}

/// The line the error log gets for an error and the text that caused it:
/// both trimmed, separated by " | ", and a newline.
pub fn log_line(error: &str, original_text: &str) -> (r: String)
    ensures
        r@ == trim(error@) + " | "@ + trim(original_text@) + "\n"@,
{
    let e = to_chars(error);
    let mut m = trim_chars(e.as_slice());
    push_str(&mut m, " | ");
    let o = to_chars(original_text);
    let t = trim_chars(o.as_slice());
    push_chars(&mut m, t.as_slice());
    push_str(&mut m, "\n");
    from_chars(m.as_slice())
}

/// The name of the file a model's sample for a speaker is written to.
pub fn sample_file_name(short_name: &str, speaker_id: u32) -> (r: String)
    ensures
        r@ == short_name@ + "_speaker_"@ + int_digits(speaker_id as int) + ".wav"@,
{
    let mut m = to_chars(short_name);
    push_str(&mut m, "_speaker_");
    let d = i64_to_chars(speaker_id as i64);
    push_chars(&mut m, d.as_slice());
    push_str(&mut m, ".wav");
    from_chars(m.as_slice())
}

} // verus!
