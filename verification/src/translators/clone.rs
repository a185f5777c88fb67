use vstd::prelude::*;

use super::{Translator, TranslatorConfig, TranslatorEngine, TranslatorError};

verus! {

/// A backend that "translates" every message to itself, copying the source
/// text into the translation slot.
pub struct CloneTranslator {}

impl CloneTranslator {
    pub fn new(_config: TranslatorConfig) -> CloneTranslator {
        CloneTranslator {  }
    }
}

impl Translator for CloneTranslator {
    open spec fn spec_engine(&self) -> TranslatorEngine {
        TranslatorEngine::Clone
    }

    fn name(&self) -> (e: TranslatorEngine)
        ensures
            e == TranslatorEngine::Clone,
    {
        TranslatorEngine::Clone
    }

    fn translate(&self, text: &str) -> (r: Result<String, TranslatorError>)
        ensures
            r matches Ok(t) && t@ == text@,
    {
        Ok(text.to_owned())
    }
}

} // verus!
