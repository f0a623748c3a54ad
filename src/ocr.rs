//! Settings of text recognition and the checks applied to what it reads.
use vstd::prelude::*;

verus! {

/// Errors of text recognition.
#[derive(Debug)]
pub enum OcrError {
    InitializationError(String),
    TesseractNotFound,
    RecognitionError(String),
    ImageError(String),
    ClipboardError(String),
    NoTextDetected,
    /// Mean confidence of the text, and the configured minimum.
    LowConfidence(i32, i32),
}

pub type OcrResult<T> = Result<T, OcrError>;

/// Settings of text recognition.
#[derive(Debug, Clone)]
pub struct OcrConfig {
    /// Language code(s), such as `eng` or `eng+fra`.
    pub language: String,
    /// Minimum mean confidence, 0 to 100.
    pub min_confidence: i32,
    /// Whether recognised text is copied to the clipboard.
    pub clipboard_output: bool,
    /// Location of the language data; the system default when absent.
    pub datapath: Option<String>,
}

impl Default for OcrConfig {
    fn default() -> (r: Self)
        ensures
            r.language@ == "eng"@,
            r.min_confidence == 50,
            r.clipboard_output,
            r.datapath is None,
    {
        OcrConfig {
            language: String::from_str("eng"),
            min_confidence: 50,
            clipboard_output: true,
            datapath: None,
        }
    }
}

impl OcrConfig {
    /// Sets the language code(s).
    pub fn with_language(self, lang: &str) -> (r: Self)
        ensures
            r.language@ == lang@,
            r.min_confidence == self.min_confidence,
            r.clipboard_output == self.clipboard_output,
            r.datapath == self.datapath,
    {
        OcrConfig { language: String::from_str(lang), ..self }
    }

    /// Sets the minimum confidence, clamped to 0..=100.
    pub fn with_min_confidence(self, confidence: i32) -> (r: Self)
        ensures
            r.min_confidence == (if confidence < 0 {
                0
            } else if confidence > 100 {
                100
            } else {
                confidence
            }),
            r.language == self.language,
            r.clipboard_output == self.clipboard_output,
            r.datapath == self.datapath,
    {
        let clamped = if confidence < 0 {
            0
        } else if confidence > 100 {
            100
        } else {
            confidence
        };
        OcrConfig { min_confidence: clamped, ..self }
    }

    /// Sets whether recognised text is copied to the clipboard.
    pub fn with_clipboard(self, enable: bool) -> (r: Self)
        ensures
            r.language == self.language,
            r.min_confidence == self.min_confidence,
            r.clipboard_output == enable,
            r.datapath == self.datapath,
    {
        OcrConfig { clipboard_output: enable, ..self }
    }

    /// Sets the location of the language data.
    pub fn with_datapath(self, path: &str) -> (r: Self)
        ensures
            r.language == self.language,
            r.min_confidence == self.min_confidence,
            r.clipboard_output == self.clipboard_output,
            r.datapath matches Some(d) && d@ == path@,
    {
        OcrConfig { datapath: Some(String::from_str(path)), ..self }
    }
}

/// Result of a recognition.
#[derive(Debug, Clone)]
pub struct OcrOutput {
    /// The recognised text, without leading or trailing white space.
    pub text: String,
    /// Mean confidence, 0 to 100.
    pub confidence: i32,
    /// Whether the text was copied to the clipboard.
    pub copied_to_clipboard: bool,
}

/// `s` without leading and trailing white space.
pub uninterp spec fn trimmed_of(s: Seq<char>) -> Seq<char>;

/// Relies on `str::trim`: removes leading and trailing Unicode white space,
/// which depends on the text alone.
#[verifier::external_body]
fn trim_text(s: &str) -> (r: String)
    ensures
        r@ == trimmed_of(s@),
{
    s.trim().to_string()
}

/// Accepts text that recognition produced, already trimmed: empty text is
/// `NoTextDetected`, a mean confidence under the configured minimum is
/// `LowConfidence`, anything else is returned as it is.
pub fn check_recognition(trimmed: &str, confidence: i32, config: &OcrConfig) -> (r: OcrResult<String>)
    ensures
        trimmed@.len() == 0 ==> r matches Err(OcrError::NoTextDetected),
        trimmed@.len() > 0 && confidence < config.min_confidence ==> (r matches Err(
            OcrError::LowConfidence(c, m),
        ) && c == confidence && m == config.min_confidence),
        trimmed@.len() > 0 && confidence >= config.min_confidence ==> (r matches Ok(t) && t@
            == trimmed@),
{
    if trimmed.is_empty() {
        return Err(OcrError::NoTextDetected);
    }
    if confidence < config.min_confidence {
        return Err(OcrError::LowConfidence(confidence, config.min_confidence));
    }
    Ok(String::from_str(trimmed))
}

/// Trims the recognised `text` and applies `check_recognition` to it.
pub fn accept_recognition(text: &str, confidence: i32, config: &OcrConfig) -> (r: OcrResult<String>)
    ensures
        trimmed_of(text@).len() == 0 ==> r matches Err(OcrError::NoTextDetected),
        trimmed_of(text@).len() > 0 && confidence < config.min_confidence ==> (r matches Err(
            OcrError::LowConfidence(c, m),
        ) && c == confidence && m == config.min_confidence),
        trimmed_of(text@).len() > 0 && confidence >= config.min_confidence ==> (r matches Ok(t)
            && t@ == trimmed_of(text@)),
{
    let trimmed = trim_text(text);
    check_recognition(trimmed.as_str(), confidence, config)
}

} // verus!
