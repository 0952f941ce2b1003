//! The per-file record and the decisions that fill it in.

use vstd::prelude::*;

verus! {

/// One record of the report: the identity of an input file, its byte size
/// before the normalization transform, the features extracted from it, and
/// the transform's outcome.
pub struct FileRecord {
    /// Path of the source file, as read from the input stream.
    pub file: String,
    /// Detected language code, absent when detection found none.
    pub lang: Option<String>,
    /// Detected page title, absent when the page has none.
    pub title: Option<String>,
    /// Byte length of the raw file contents.
    pub original_size: usize,
    /// Byte length of the transform's serialized output; set exactly when
    /// the transform succeeded.
    pub processed_size: Option<usize>,
    /// Rendered description of the transform's failure; set exactly when
    /// the transform failed.
    pub error: Option<String>,
    /// Redirect target identifier, absent when the page is not a redirect.
    pub redirect: Option<String>,
}

impl FileRecord {
    /// Exactly one of `processed_size` and `error` is set: a record reports
    /// either the transform's output size or its failure, never both and
    /// never neither.
    pub open spec fn wf(self) -> bool {
        self.processed_size is Some <==> self.error is None
    }

    /// Runtime test of `wf`, for callers outside verified code.
    pub fn is_wf(&self) -> (r: bool)
        ensures
            r == self.wf(),
    {
        self.processed_size.is_some() == self.error.is_none()
    }
}

/// Mutual exclusivity: a well-formed record sets `processed_size` exactly
/// when `error` is unset, so no record carries both a success size and a
/// failure, and none carries neither.
pub proof fn lemma_outcome_mutually_exclusive(r: FileRecord)
    requires
        r.wf(),
    ensures
        r.processed_size is Some <==> r.error is None,
        !(r.processed_size is Some && r.error is Some),
        r.processed_size is Some || r.error is Some,
{
}

/// The Transform Invoker's bookkeeping: a success becomes a serialized size
/// with no error, a failure becomes a rendered error with no size.
pub fn transform_outcome(transform: Result<usize, String>) -> (r: (Option<usize>, Option<String>))
    ensures
        match transform {
            Ok(n) => r.0 == Some(n) && r.1 is None,
            Err(e) => r.0 is None && r.1 == Some(e),
        },
{
    match transform {
        Ok(n) => (Some(n), None),
        Err(e) => (None, Some(e)),
    }
}

/// The Row Builder: assembles one record from the extracted features and
/// the transform's outcome. The result is well formed whatever the outcome.
pub fn build_record(
    file: String,
    lang: Option<String>,
    title: Option<String>,
    redirect: Option<String>,
    original_size: usize,
    transform: Result<usize, String>,
) -> (r: FileRecord)
    ensures
        r.file == file,
        r.lang == lang,
        r.title == title,
        r.redirect == redirect,
        r.original_size == original_size,
        match transform {
            Ok(n) => r.processed_size == Some(n) && r.error is None,
            Err(e) => r.processed_size is None && r.error == Some(e),
        },
        r.wf(),
{
    let (processed_size, error) = transform_outcome(transform);
    FileRecord { file, lang, title, original_size, processed_size, error, redirect }
}

/// The language hint handed to the transform: the detected language when
/// there is one, else the run's fallback code. The fallback is applied
/// here, by the caller of the transform, never assumed by the transform.
pub fn lang_hint<'a>(lang: &'a Option<String>, fallback: &'a str) -> (h: &'a str)
    ensures
        match lang {
            Some(l) => h@ == l@,
            None => h@ == fallback@,
        },
{
    match lang {
        Some(l) => l.as_str(),
        None => fallback,
    }
}

/// The fixed fallback language code of a run.
pub fn default_lang() -> (s: &'static str)
    ensures
        s@ == "en"@,
{
    "en"
}

} // verus!
