//! The outcome of one translation request, as the rest of the library reads it.

use crate::text::{copy_opt_string, opt_view};
use vstd::prelude::*;

verus! {

broadcast use vstd::string::group_string_axioms;

/// What a translation request gave back.
#[derive(Debug, Clone)]
pub struct TranslateResult {
    pub ok: bool,
    /// The text that was sent for translation (empty when nothing was sent).
    pub source_text: String,
    pub translated_text: Option<String>,
    pub provider: Option<String>,
    pub from_cache: bool,
    pub error: Option<String>,
    pub duration_ms: u64,
}

/// A translation result with each text taken by its characters.
pub struct TranslateView {
    pub ok: bool,
    pub source_text: Seq<char>,
    pub translated_text: Option<Seq<char>>,
    pub provider: Option<Seq<char>>,
    pub from_cache: bool,
    pub error: Option<Seq<char>>,
    pub duration_ms: u64,
}

impl View for TranslateResult {
    type V = TranslateView;

    open spec fn view(&self) -> TranslateView {
        TranslateView {
            ok: self.ok,
            source_text: self.source_text@,
            translated_text: opt_view(self.translated_text),
            provider: opt_view(self.provider),
            from_cache: self.from_cache,
            error: opt_view(self.error),
            duration_ms: self.duration_ms,
        }
    }
}

/// The result that stands for a capture that failed before any request.
pub open spec fn capture_failed_view() -> TranslateView {
    TranslateView {
        ok: false,
        source_text: Seq::empty(),
        translated_text: None,
        provider: None,
        from_cache: false,
        error: Some("取词失败"@),
        duration_ms: 0,
    }
}

impl TranslateResult {
    /// A copy of the result.
    pub fn copied(&self) -> (r: TranslateResult)
        ensures
            r == *self,
    {
        TranslateResult {
            ok: self.ok,
            source_text: self.source_text.clone(),
            translated_text: copy_opt_string(&self.translated_text),
            provider: copy_opt_string(&self.provider),
            from_cache: self.from_cache,
            error: copy_opt_string(&self.error),
            duration_ms: self.duration_ms,
        }
    }

    /// The result that stands for a capture that failed before any request.
    pub fn capture_failed() -> (r: TranslateResult)
        ensures
            r@ == capture_failed_view(),
    {
        TranslateResult {
            ok: false,
            source_text: String::new(),
            translated_text: None,
            provider: None,
            from_cache: false,
            error: Some("取词失败".to_string()),
            duration_ms: 0,
        }
    }
}

} // verus!
