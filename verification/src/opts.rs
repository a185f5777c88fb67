use vstd::prelude::*;

use crate::pattern::{regex_compiles, Matcher};
use crate::potr::PotrConfig;
use crate::translators::{clone_opt_string, opt_str_view, Language, TranslatorConfig, TranslatorEngine};

verus! {

/// The command-line surface: which file to translate, where to write it,
/// which engine and language to use, and how to filter and cap the run.
pub struct Opts {
    pub po_file_path: String,
    /// Target language, by ISO-639-1 code.
    pub target_lang: Language,
    pub engine: TranslatorEngine,
    pub api_key: Option<String>,
    /// API base URL, used by Azure OpenAI.
    pub api_base: Option<String>,
    /// API version, used by Azure OpenAI.
    pub api_version: Option<String>,
    /// API deployment id, used by Azure OpenAI.
    pub api_deployment_id: Option<String>,
    pub model: Option<String>,
    /// Output path; the input path when absent (translate in place).
    pub output_file_path: Option<String>,
    /// Skip translation entirely, only regenerate the file.
    pub skip_translation: bool,
    /// Also process messages that are already translated.
    pub process_translated: bool,
    /// Skip regular text messages.
    pub skip_text: bool,
    /// Also process code blocks.
    pub process_code_blocks: bool,
    /// Cap on the number of messages to translate (0 = unlimited).
    pub limit: i32,
    /// Filter on the source file references.
    pub source: Option<String>,
    /// Only translate messages matching this pattern.
    pub include_message: Option<String>,
    /// Never translate messages matching this pattern.
    pub exclude_message: Option<String>,
    /// Print verbose logs.
    pub verbose: bool,
}

/// Why the options could not be turned into a configuration.
#[derive(Debug)]
pub enum OptsError {
    /// The selected engine needs an API key and none was given.
    MissingApiKey,
    /// One of the filter options is not a valid regular expression.
    InvalidRegex,
}

impl OptsError {
    /// A human-readable description of the error.
    pub fn message(&self) -> String {
        match self {
            OptsError::MissingApiKey => "API key is not specified for the selected engine".to_owned(),
            OptsError::InvalidRegex => "a filter option is not a valid regular expression".to_owned(),
        }
    }
}

/// Whether an optional filter option is absent or a valid regular expression.
pub open spec fn filter_compiles(o: Option<String>) -> bool {
    match o {
        Option::Some(p) => regex_compiles(p@),
        Option::None => true,
    }
}

/// Whether an engine can do nothing without an API key.
pub open spec fn engine_needs_api_key(engine: TranslatorEngine) -> bool {
    match engine {
        TranslatorEngine::OpenAI => true,
        TranslatorEngine::AzureOpenAI => true,
        TranslatorEngine::DeepL => true,
        _ => false,
    }
}

/// The API key a run uses: the explicitly given one; otherwise, for the
/// engines that need one, the fallback (from the engine's environment
/// variable), with `None` meaning the run cannot start; otherwise empty.
pub open spec fn resolved_api_key(
    key: Option<Seq<char>>,
    engine: TranslatorEngine,
    fallback: Option<Seq<char>>,
) -> Option<Seq<char>> {
    match key {
        Option::Some(k) => Some(k),
        Option::None => if engine_needs_api_key(engine) {
            fallback
        } else {
            Some(Seq::empty())
        },
    }
}

impl Opts {
    /// The backend configuration these options select. `fallback_api_key` is
    /// the key found in the selected engine's environment variable, if any;
    /// it is used only when no key is given explicitly.
    pub fn to_translator_config(&self, fallback_api_key: Option<String>) -> (r: Result<
        TranslatorConfig,
        OptsError,
    >)
        ensures
            r is Ok <==> resolved_api_key(
                opt_str_view(self.api_key),
                self.engine,
                opt_str_view(fallback_api_key),
            ) is Some,
            r matches Err(e) ==> e is MissingApiKey,
            r matches Ok(c) ==> {
                &&& c.engine == self.engine
                &&& c.target_lang == self.target_lang
                &&& Some(c.api_key@) == resolved_api_key(
                    opt_str_view(self.api_key),
                    self.engine,
                    opt_str_view(fallback_api_key),
                )
                &&& opt_str_view(c.model) == opt_str_view(self.model)
                &&& opt_str_view(c.api_base) == opt_str_view(self.api_base)
                &&& opt_str_view(c.api_version) == opt_str_view(self.api_version)
                &&& opt_str_view(c.api_deployment_id) == opt_str_view(self.api_deployment_id)
            },
    {
        let api_key = match &self.api_key {
            Some(key) => key.clone(),
            None => {
                if matches!(self.engine, TranslatorEngine::OpenAI | TranslatorEngine::AzureOpenAI
                    | TranslatorEngine::DeepL) {
                    match fallback_api_key {
                        Some(key) => key,
                        None => {
                            return Err(OptsError::MissingApiKey);
                        },
                    }
                } else {
                    String::new()
                }
            },
        };
        Ok(
            TranslatorConfig {
                engine: self.engine,
                target_lang: self.target_lang,
                api_key,
                model: clone_opt_string(&self.model),
                api_base: clone_opt_string(&self.api_base),
                api_version: clone_opt_string(&self.api_version),
                api_deployment_id: clone_opt_string(&self.api_deployment_id),
            },
        )
    }

    /// The run configuration these options select: paths, switches, compiled
    /// filters and the cap. An error when a filter is not a valid regular
    /// expression.
    pub fn to_potr_config(&self) -> (r: Result<PotrConfig, OptsError>)
        ensures
            r is Ok <==> filter_compiles(self.source) && filter_compiles(self.include_message)
                && filter_compiles(self.exclude_message),
            r matches Err(e) ==> e is InvalidRegex,
            r matches Ok(cfg) ==> {
                &&& cfg.po_file_path@ == self.po_file_path@
                &&& cfg.output_file_path@ == (match self.output_file_path {
                    Option::Some(p) => p@,
                    Option::None => self.po_file_path@,
                })
                &&& cfg@.skip_translation == self.skip_translation
                &&& cfg@.skip_translated == !self.process_translated
                &&& cfg@.skip_code_blocks == !self.process_code_blocks
                &&& cfg@.skip_formula_blocks
                &&& cfg@.skip_md_image_file
                &&& cfg@.skip_text == self.skip_text
                &&& cfg@.message_limit == self.limit
                &&& (cfg@.source_pattern is Some <==> self.source is Some)
                &&& (cfg@.source_pattern matches Some(p) ==> p == self.source->Some_0@)
                &&& (cfg@.include_pattern is Some <==> self.include_message is Some)
                &&& (cfg@.include_pattern matches Some(p) ==> p == self.include_message->Some_0@)
                &&& (cfg@.exclude_pattern is Some <==> self.exclude_message is Some)
                &&& (cfg@.exclude_pattern matches Some(p) ==> p == self.exclude_message->Some_0@)
            },
    {
        let source_regex = match compile_filter(&self.source) {
            Ok(m) => m,
            Err(e) => {
                return Err(e);
            },
        };
        let include_message_regex = match compile_filter(&self.include_message) {
            Ok(m) => m,
            Err(e) => {
                return Err(e);
            },
        };
        let exclude_message_regex = match compile_filter(&self.exclude_message) {
            Ok(m) => m,
            Err(e) => {
                return Err(e);
            },
        };
        let output_file_path = match &self.output_file_path {
            Some(path) => path.clone(),
            None => self.po_file_path.clone(),
        };
        Ok(
            PotrConfig {
                po_file_path: self.po_file_path.clone(),
                output_file_path,
                skip_translation: self.skip_translation,
                skip_translated: !self.process_translated,
                skip_code_blocks: !self.process_code_blocks,
                skip_formula_blocks: true,
                skip_md_image_file: true,
                skip_text: self.skip_text,
                source_regex,
                include_message_regex,
                exclude_message_regex,
                message_limit: self.limit,
            },
        )
    }
}

/// Compile one optional filter option into an optional matcher.
fn compile_filter(s: &Option<String>) -> (r: Result<Option<Matcher>, OptsError>)
    ensures
        r is Ok <==> filter_compiles(*s),
        r matches Ok(m) ==> {
            &&& m is Some <==> *s is Some
            &&& (m matches Some(mm) ==> mm.pattern() == s->Some_0@)
        },
        r matches Err(e) ==> e is InvalidRegex && *s is Some,
{
    match s {
        Some(p) => match Matcher::new(p.as_str()) {
            Some(m) => Ok(Some(m)),
            None => Err(OptsError::InvalidRegex),
        },
        None => Ok(None),
    }
}

} // verus!
