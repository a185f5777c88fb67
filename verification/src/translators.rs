mod clear;
mod clone;
mod deepl_engine;
mod language;
mod openai;

pub use clear::ClearTranslator;
pub use deepl_engine::{deepl_supported, DeeplTranslator};
pub use openai::{AzureOpenAITranslator, OpenAITranslator};
pub use clone::CloneTranslator;
pub use language::{Language, ParseLanguageError};

use vstd::prelude::*;

use crate::text::str_eq;

verus! {

/// The translation engines a catalog can be routed through.
#[derive(Debug, Clone, Copy, PartialEq, Eq, Structural)]
pub enum TranslatorEngine {
    Clear,
    Clone,
    OpenAI,
    AzureOpenAI,
    DeepL,
}

impl TranslatorEngine {
    /// The engine named by its tag, if any.
    pub open spec fn spec_from_code(s: Seq<char>) -> Option<TranslatorEngine> {
        if s == "clear"@ {
            Some(TranslatorEngine::Clear)
        } else if s == "clone"@ {
            Some(TranslatorEngine::Clone)
        } else if s == "openai"@ {
            Some(TranslatorEngine::OpenAI)
        } else if s == "azure-openai"@ {
            Some(TranslatorEngine::AzureOpenAI)
        } else if s == "deepl"@ {
            Some(TranslatorEngine::DeepL)
        } else {
            None
        }
    }

    /// Parse an engine tag.
    pub fn from_code(code: &str) -> (r: Option<TranslatorEngine>)
        ensures
            r == TranslatorEngine::spec_from_code(code@),
    {
        if str_eq(code, "clear") {
            Some(TranslatorEngine::Clear)
        } else if str_eq(code, "clone") {
            Some(TranslatorEngine::Clone)
        } else if str_eq(code, "openai") {
            Some(TranslatorEngine::OpenAI)
        } else if str_eq(code, "azure-openai") {
            Some(TranslatorEngine::AzureOpenAI)
        } else if str_eq(code, "deepl") {
            Some(TranslatorEngine::DeepL)
        } else {
            None
        }
    }
}

/// How a translation backend is selected and reached: the engine tag, the
/// target language, and the credentials and endpoints the engine needs.
pub struct TranslatorConfig {
    /// Translator engine.
    pub engine: TranslatorEngine,
    /// Target language.
    pub target_lang: Language,
    /// API key.
    pub api_key: String,
    /// Model name, for the engines that take one.
    pub model: Option<String>,
    /// API base URL, for Azure OpenAI.
    pub api_base: Option<String>,
    /// API version, for Azure OpenAI.
    pub api_version: Option<String>,
    /// API deployment id, for Azure OpenAI.
    pub api_deployment_id: Option<String>,
}

/// The view of an optional string: the optional character sequence inside.
pub open spec fn opt_str_view(o: Option<String>) -> Option<Seq<char>> {
    match o {
        Option::Some(s) => Some(s@),
        Option::None => None,
    }
}

impl Default for TranslatorConfig {
    fn default() -> (d: TranslatorConfig)
        ensures
            d.engine == TranslatorEngine::Clone,
            d.target_lang == Language::English,
            d.api_key@ == Seq::<char>::empty(),
            d.model is None,
            d.api_base is None,
            d.api_version is None,
            d.api_deployment_id is None,
    {
        TranslatorConfig {
            engine: TranslatorEngine::Clone,
            target_lang: Language::English,
            api_key: String::new(),
            model: None,
            api_base: None,
            api_version: None,
            api_deployment_id: None,
        }
    }
}

impl Clone for TranslatorConfig {
    fn clone(&self) -> (r: TranslatorConfig)
        ensures
            r.engine == self.engine,
            r.target_lang == self.target_lang,
            r.api_key@ == self.api_key@,
            opt_str_view(r.model) == opt_str_view(self.model),
            opt_str_view(r.api_base) == opt_str_view(self.api_base),
            opt_str_view(r.api_version) == opt_str_view(self.api_version),
            opt_str_view(r.api_deployment_id) == opt_str_view(self.api_deployment_id),
    {
        TranslatorConfig {
            engine: self.engine,
            target_lang: self.target_lang,
            api_key: self.api_key.clone(),
            model: clone_opt_string(&self.model),
            api_base: clone_opt_string(&self.api_base),
            api_version: clone_opt_string(&self.api_version),
            api_deployment_id: clone_opt_string(&self.api_deployment_id),
        }
    }
}

pub(crate) fn clone_opt_string(o: &Option<String>) -> (r: Option<String>)
    ensures
        opt_str_view(r) == opt_str_view(*o),
{
    match o {
        Some(s) => Some(s.clone()),
        None => None,
    }
}

/// Why a translator could not be built, or a translation call failed.
#[derive(Debug)]
pub enum TranslatorError {
    /// The target language is not supported by the selected engine.
    UnsupportedLanguage,
    /// Azure OpenAI needs an API base URL.
    MissingApiBase,
    /// Azure OpenAI needs a deployment id.
    MissingDeploymentId,
    /// The backend call itself failed; the payload describes how.
    Backend(String),
}

impl TranslatorError {
    /// A human-readable description of the error.
    pub fn message(&self) -> String {
        match self {
            TranslatorError::UnsupportedLanguage => "unsupported target language".to_owned(),
            TranslatorError::MissingApiBase => "Azure OpenAI requires an API URL".to_owned(),
            TranslatorError::MissingDeploymentId => "Azure OpenAI requires a deployment id".to_owned(),
            TranslatorError::Backend(s) => s.clone(),
        }
    }
}

/// A translation backend: identifies itself by engine tag and turns source
/// text into translated text, fallibly. Nothing is promised of `translate`'s
/// outcome; callers are verified for every outcome.
pub trait Translator {
    /// The engine this backend implements. The backends of this crate
    /// override it; an implementation that leaves it alone promises nothing
    /// about its tag.
    open spec fn spec_engine(&self) -> TranslatorEngine {
        arbitrary()
    }

    fn name(&self) -> (e: TranslatorEngine)
        ensures
            e == self.spec_engine(),
    ;

    fn translate(&self, text: &str) -> Result<String, TranslatorError>;
}

/// Whether a translator can be built from this configuration: Azure OpenAI
/// needs an API base URL and a deployment id, DeepL needs a supported target
/// language, and the other engines always build.
pub open spec fn creatable(config: TranslatorConfig) -> bool {
    match config.engine {
        TranslatorEngine::AzureOpenAI => config.api_base is Some
            && config.api_deployment_id is Some,
        TranslatorEngine::DeepL => deepl_supported(config.target_lang),
        _ => true,
    }
}

/// The error `create` reports for a configuration no translator can be built
/// from.
pub open spec fn creation_error(config: TranslatorConfig) -> TranslatorError {
    match config.engine {
        TranslatorEngine::AzureOpenAI => if config.api_base is None {
            TranslatorError::MissingApiBase
        } else {
            TranslatorError::MissingDeploymentId
        },
        _ => TranslatorError::UnsupportedLanguage,
    }
}

/// The factory: builds the backend the configuration selects, keyed on the
/// engine tag.
pub fn create(config: TranslatorConfig) -> (r: Result<Box<dyn Translator>, TranslatorError>)
    ensures
        r is Ok <==> creatable(config),
        r matches Ok(t) ==> t.spec_engine() == config.engine,
        r matches Err(e) ==> e == creation_error(config),
{
    match config.engine {
        TranslatorEngine::Clear => Ok(Box::new(ClearTranslator::new(config))),
        TranslatorEngine::Clone => Ok(Box::new(CloneTranslator::new(config))),
        TranslatorEngine::OpenAI => Ok(Box::new(OpenAITranslator::new(config))),
        TranslatorEngine::AzureOpenAI => match AzureOpenAITranslator::new(config) {
            Ok(t) => Ok(Box::new(t)),
            Err(e) => Err(e),
        },
        TranslatorEngine::DeepL => match DeeplTranslator::new(config) {
            Ok(t) => Ok(Box::new(t)),
            Err(e) => Err(e),
        },
    }
}

} // verus!
