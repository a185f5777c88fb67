use vstd::prelude::*;

use super::{Translator, TranslatorConfig, TranslatorEngine, TranslatorError};

verus! {

/// A backend that "translates" every message to the empty string, clearing
/// the translation slot.
pub struct ClearTranslator {}

impl ClearTranslator {
    pub fn new(_config: TranslatorConfig) -> ClearTranslator {
        ClearTranslator {  }
    }
}

impl Translator for ClearTranslator {
    open spec fn spec_engine(&self) -> TranslatorEngine {
        TranslatorEngine::Clear
    }

    fn name(&self) -> (e: TranslatorEngine)
        ensures
            e == TranslatorEngine::Clear,
    {
        TranslatorEngine::Clear
    }

    fn translate(&self, _text: &str) -> (r: Result<String, TranslatorError>)
        ensures
            r matches Ok(t) && t@ == Seq::<char>::empty(),
    {
        Ok(String::new())
    }
}

} // verus!
