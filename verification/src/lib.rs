mod cancel;
mod classify;
mod message;
mod model;
mod opts;
mod pattern;
mod potr;
mod sources;
mod text;
mod translators;

pub use cancel::CancelToken;
pub use classify::{accepts, CfgView};
pub use message::{Catalog, Message, MsgView};
pub use model::{
    count_accepted, count_failed, count_translated, lemma_cancellation_honored,
    lemma_cap_respected, lemma_failure_isolation, lemma_idempotent_on_skip, run_model, run_step,
    run_upto, RunView,
};
pub use opts::{engine_needs_api_key, filter_compiles, resolved_api_key, Opts, OptsError};
pub use pattern::{regex_compiles, regex_matches, Matcher};
pub use potr::{pattern_of, Potr, PotrConfig, RunCounters};
pub use translators::{
    create, creatable, deepl_supported, AzureOpenAITranslator, ClearTranslator, CloneTranslator,
    DeeplTranslator, Language, OpenAITranslator, ParseLanguageError, Translator, TranslatorConfig,
    TranslatorEngine, TranslatorError,
};
