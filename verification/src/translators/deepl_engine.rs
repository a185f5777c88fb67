use vstd::prelude::*;

use std::future::IntoFuture;

use super::language::Language;
use super::{Translator, TranslatorConfig, TranslatorEngine, TranslatorError};

verus! {

#[verifier::external_type_specification]
#[verifier::external_body]
pub struct ExDeepLApi(deepl::DeepLApi);

#[verifier::external_type_specification]
#[verifier::external_body]
pub struct ExDeepLApiBuilder(deepl::DeepLApiBuilder);

/// Relies on deepl's `DeepLApi::with`: starts building a client around an API key.
pub assume_specification[ deepl::DeepLApi::with ](key: &str) -> deepl::DeepLApiBuilder;

/// Relies on deepl's `DeepLApiBuilder::new`: finishes building the client.
pub assume_specification[ deepl::DeepLApiBuilder::new ](
    builder: &deepl::DeepLApiBuilder,
) -> deepl::DeepLApi;

/// The target languages the DeepL engine accepts.
pub open spec fn deepl_supported(l: Language) -> bool {
    ||| l == Language::Bulgarian
    ||| l == Language::Czech
    ||| l == Language::Danish
    ||| l == Language::German
    ||| l == Language::Greek
    ||| l == Language::English
    ||| l == Language::Spanish
    ||| l == Language::Estonian
    ||| l == Language::Finnish
    ||| l == Language::French
    ||| l == Language::Hungarian
    ||| l == Language::Indonesian
    ||| l == Language::Italian
    ||| l == Language::Japanese
    ||| l == Language::Lithuanian
    ||| l == Language::Latvian
    ||| l == Language::Dutch
    ||| l == Language::Polish
    ||| l == Language::Portuguese
    ||| l == Language::Romanian
    ||| l == Language::Russian
    ||| l == Language::Slovak
    ||| l == Language::Slovenian
    ||| l == Language::Swedish
    ||| l == Language::Turkish
    ||| l == Language::Ukrainian
    ||| l == Language::Chinese
}

/// A backend that sends each message to the DeepL translation service.
pub struct DeeplTranslator {
    target_code: String,
    client: deepl::DeepLApi,
}

impl DeeplTranslator {
    /// The DeepL language code this translator asks for.
    pub closed spec fn spec_target_code(&self) -> Seq<char> {
        self.target_code@
    }

    /// The DeepL language code of a supported target language.
    pub open spec fn spec_deepl_code(target_lang: Language) -> Seq<char> {
        match target_lang {
            Language::Bulgarian => "BG"@,
            Language::Czech => "CS"@,
            Language::Danish => "DA"@,
            Language::German => "DE"@,
            Language::Greek => "EL"@,
            Language::English => "EN"@,
            Language::Spanish => "ES"@,
            Language::Estonian => "ET"@,
            Language::Finnish => "FI"@,
            Language::French => "FR"@,
            Language::Hungarian => "HU"@,
            Language::Indonesian => "ID"@,
            Language::Italian => "IT"@,
            Language::Japanese => "JA"@,
            Language::Lithuanian => "LT"@,
            Language::Latvian => "LV"@,
            Language::Dutch => "NL"@,
            Language::Polish => "PL"@,
            Language::Portuguese => "PT"@,
            Language::Romanian => "RO"@,
            Language::Russian => "RU"@,
            Language::Slovak => "SK"@,
            Language::Slovenian => "SL"@,
            Language::Swedish => "SV"@,
            Language::Turkish => "TR"@,
            Language::Ukrainian => "UK"@,
            Language::Chinese => "ZH"@,
            _ => Seq::empty(),
        }
    }

    /// The DeepL language code for a target language; an error when DeepL
    /// does not support the language.
    pub fn langauage_to_deepl_code(target_lang: Language) -> (r: Result<String, TranslatorError>)
        ensures
            r is Ok <==> deepl_supported(target_lang),
            r matches Ok(c) ==> c@ == DeeplTranslator::spec_deepl_code(target_lang),
            r matches Err(e) ==> e is UnsupportedLanguage,
    {
        match target_lang {
            Language::Bulgarian => Ok("BG".to_owned()),
            Language::Czech => Ok("CS".to_owned()),
            Language::Danish => Ok("DA".to_owned()),
            Language::German => Ok("DE".to_owned()),
            Language::Greek => Ok("EL".to_owned()),
            Language::English => Ok("EN".to_owned()),
            Language::Spanish => Ok("ES".to_owned()),
            Language::Estonian => Ok("ET".to_owned()),
            Language::Finnish => Ok("FI".to_owned()),
            Language::French => Ok("FR".to_owned()),
            Language::Hungarian => Ok("HU".to_owned()),
            Language::Indonesian => Ok("ID".to_owned()),
            Language::Italian => Ok("IT".to_owned()),
            Language::Japanese => Ok("JA".to_owned()),
            Language::Lithuanian => Ok("LT".to_owned()),
            Language::Latvian => Ok("LV".to_owned()),
            Language::Dutch => Ok("NL".to_owned()),
            Language::Polish => Ok("PL".to_owned()),
            Language::Portuguese => Ok("PT".to_owned()),
            Language::Romanian => Ok("RO".to_owned()),
            Language::Russian => Ok("RU".to_owned()),
            Language::Slovak => Ok("SK".to_owned()),
            Language::Slovenian => Ok("SL".to_owned()),
            Language::Swedish => Ok("SV".to_owned()),
            Language::Turkish => Ok("TR".to_owned()),
            Language::Ukrainian => Ok("UK".to_owned()),
            Language::Chinese => Ok("ZH".to_owned()),
            _ => Err(TranslatorError::UnsupportedLanguage),
        }
    }

    pub fn new(config: TranslatorConfig) -> (r: Result<DeeplTranslator, TranslatorError>)
        ensures
            r is Ok <==> deepl_supported(config.target_lang),
            r matches Ok(t) ==> t.spec_target_code() == DeeplTranslator::spec_deepl_code(
                config.target_lang,
            ),
            r matches Err(e) ==> e is UnsupportedLanguage,
    {
        let code = match Self::langauage_to_deepl_code(config.target_lang) {
            Ok(c) => c,
            Err(e) => {
                return Err(e);
            },
        };
        let builder = deepl::DeepLApi::with(config.api_key.as_str());
        let client = builder.new();
        Ok(DeeplTranslator { target_code: code, client })
    }
}

/// Relies on deepl's `translate_text` endpoint: runs one translation request
/// to completion on a fresh single-thread runtime and hands back the first
/// translation's text. Must not be called from inside an asynchronous runtime.
#[verifier::external_body]
fn deepl_translate_blocking(client: &deepl::DeepLApi, code: &str, text: &str) -> Result<
    String,
    String,
> {
    let lang = deepl::Lang::try_from(code).map_err(|e| format!("{:?}", e))?;
    let rt = tokio::runtime::Builder::new_current_thread().enable_all().build().map_err(
        |e| e.to_string(),
    )?;
    let resp = rt.block_on(client.translate_text(text, lang).into_future()).map_err(
        |e| e.to_string(),
    )?;
    match resp.translations.into_iter().next() {
        Some(s) => Ok(s.text),
        None => Err("empty translation response".to_owned()),
    }
}

impl Translator for DeeplTranslator {
    open spec fn spec_engine(&self) -> TranslatorEngine {
        TranslatorEngine::DeepL
    }

    fn name(&self) -> (e: TranslatorEngine)
        ensures
            e == TranslatorEngine::DeepL,
    {
        TranslatorEngine::DeepL
    }

    fn translate(&self, text: &str) -> Result<String, TranslatorError> {
        match deepl_translate_blocking(&self.client, self.target_code.as_str(), text) {
            Ok(t) => Ok(t),
            Err(s) => Err(TranslatorError::Backend(s)),
        }
    }
}

} // verus!
