use vstd::prelude::*;
use vstd::string::StringExecFns;

use super::language::Language;
use super::{opt_str_view, Translator, TranslatorConfig, TranslatorEngine, TranslatorError};

use async_openai::config::AzureConfig;
use async_openai::config::OpenAIConfig;
use async_openai::types::chat::ChatCompletionRequestSystemMessageArgs;
use async_openai::types::chat::ChatCompletionRequestUserMessageArgs;
use async_openai::types::chat::CreateChatCompletionRequest;
use async_openai::types::chat::CreateChatCompletionRequestArgs;

verus! {

#[verifier::external_type_specification]
#[verifier::external_body]
pub struct ExCreateChatCompletionRequest(CreateChatCompletionRequest);

#[verifier::external_type_specification]
#[verifier::external_body]
pub struct ExOpenAIConfig(OpenAIConfig);

#[verifier::external_type_specification]
#[verifier::external_body]
pub struct ExAzureConfig(AzureConfig);

/// Relies on async_openai's `OpenAIConfig::new`: a default OpenAI endpoint
/// configuration.
pub assume_specification[ OpenAIConfig::new ]() -> OpenAIConfig;

/// Relies on async_openai's `OpenAIConfig::with_api_key`: records the API key.
pub assume_specification<S: Into<String>>[ OpenAIConfig::with_api_key ](
    this: OpenAIConfig,
    api_key: S,
) -> OpenAIConfig;

/// Relies on async_openai's `AzureConfig::new`: a default Azure endpoint
/// configuration.
pub assume_specification[ AzureConfig::new ]() -> AzureConfig;

/// Relies on async_openai's `AzureConfig::with_api_key`: records the API key.
pub assume_specification<S: Into<String>>[ AzureConfig::with_api_key ](
    this: AzureConfig,
    api_key: S,
) -> AzureConfig;

/// Relies on async_openai's `AzureConfig::with_api_base`: records the API base URL.
pub assume_specification<S: Into<String>>[ AzureConfig::with_api_base ](
    this: AzureConfig,
    api_base: S,
) -> AzureConfig;

/// Relies on async_openai's `AzureConfig::with_api_version`: records the API version.
pub assume_specification<S: Into<String>>[ AzureConfig::with_api_version ](
    this: AzureConfig,
    api_version: S,
) -> AzureConfig;

/// Relies on async_openai's `AzureConfig::with_deployment_id`: records the
/// deployment id.
pub assume_specification<S: Into<String>>[ AzureConfig::with_deployment_id ](
    this: AzureConfig,
    deployment_id: S,
) -> AzureConfig;

/// A client for the OpenAI endpoint, opaque to the verifier. (The client type
/// itself is generic over a configuration trait, which cannot be declared
/// here, so the concrete instance is held behind this struct.)
#[verifier::external_body]
struct OpenAIClientHandle {
    client: async_openai::Client<OpenAIConfig>,
}

/// A client for an Azure OpenAI deployment, opaque to the verifier.
#[verifier::external_body]
struct AzureClientHandle {
    client: async_openai::Client<AzureConfig>,
}

/// Relies on async_openai's `Client::with_config`: builds a client for the
/// OpenAI endpoint around the configuration.
#[verifier::external_body]
fn make_openai_client(config: OpenAIConfig) -> OpenAIClientHandle {
    OpenAIClientHandle { client: async_openai::Client::with_config(config) }
}

/// Relies on async_openai's `Client::with_config`: builds a client for an
/// Azure OpenAI deployment around the configuration.
#[verifier::external_body]
fn make_azure_client(config: AzureConfig) -> AzureClientHandle {
    AzureClientHandle { client: async_openai::Client::with_config(config) }
}

/// The model a configuration resolves to: the configured name, or the default
/// used when it names none.
pub open spec fn spec_resolved_model(model: Option<Seq<char>>) -> Seq<char> {
    match model {
        Option::Some(m) => m,
        Option::None => "gpt-3.5-turbo"@,
    }
}

pub fn resolve_model(model: Option<String>) -> (r: String)
    ensures
        r@ == spec_resolved_model(opt_str_view(model)),
{
    match model {
        Some(m) => m,
        None => "gpt-3.5-turbo".to_owned(),
    }
}

/// The instruction handed to the chat backend: translate into the target
/// language, and answer with the translation alone.
pub open spec fn spec_system_prompt(lang: Language) -> Seq<char> {
    "You are a professional translator. Please translate the text into "@ + lang.spec_name()
        + " without explanation."@
}

pub fn system_prompt(lang: Language) -> (s: String)
    ensures
        s@ == spec_system_prompt(lang),
{
    let mut s = "You are a professional translator. Please translate the text into ".to_owned();
    s.append(lang.name().as_str());
    s.append(" without explanation.");
    s
}

/// Relies on async_openai's chat request builders: assembles one
/// chat-completion request carrying the three messages of a translation
/// prompt (the system instruction, a fixed acknowledgement, the source text).
#[verifier::external_body]
fn build_chat_request(model: &str, system: &str, ack: &str, text: &str) -> Result<
    CreateChatCompletionRequest,
    String,
> {
    let m1 = ChatCompletionRequestSystemMessageArgs::default().content(system).build().map_err(
        |e| e.to_string(),
    )?;
    let m2 = ChatCompletionRequestUserMessageArgs::default().content(ack).build().map_err(
        |e| e.to_string(),
    )?;
    let m3 = ChatCompletionRequestUserMessageArgs::default().content(text).build().map_err(
        |e| e.to_string(),
    )?;
    CreateChatCompletionRequestArgs::default().model(model).messages(
        [m1.into(), m2.into(), m3.into()],
    ).build().map_err(|e| e.to_string())
}

/// Relies on async_openai's `Chat::create`: sends one chat-completion request
/// to the OpenAI endpoint, run to completion on a fresh single-thread runtime,
/// and hands back the first choice's message content. A reply without choices
/// is malformed and reported as an error; a choice without content counts as
/// an empty translation. Must not be called from inside an asynchronous
/// runtime.
#[verifier::external_body]
fn send_chat_request_openai(handle: &OpenAIClientHandle, request: CreateChatCompletionRequest) -> Result<
    String,
    String,
> {
    let rt = tokio::runtime::Builder::new_current_thread().enable_all().build().map_err(
        |e| e.to_string(),
    )?;
    let resp = rt.block_on(handle.client.chat().create(request)).map_err(|e| e.to_string())?;
    match resp.choices.into_iter().next() {
        Some(c) => Ok(c.message.content.unwrap_or(String::new())),
        None => Err("malformed response: no choices".to_owned()),
    }
}

/// Relies on async_openai's `Chat::create`: as above, against an Azure OpenAI
/// deployment.
#[verifier::external_body]
fn send_chat_request_azure(handle: &AzureClientHandle, request: CreateChatCompletionRequest) -> Result<
    String,
    String,
> {
    let rt = tokio::runtime::Builder::new_current_thread().enable_all().build().map_err(
        |e| e.to_string(),
    )?;
    let resp = rt.block_on(handle.client.chat().create(request)).map_err(|e| e.to_string())?;
    match resp.choices.into_iter().next() {
        Some(c) => Ok(c.message.content.unwrap_or(String::new())),
        None => Err("malformed response: no choices".to_owned()),
    }
}

/// A backend that sends each message to the OpenAI chat-completion service.
pub struct OpenAITranslator {
    model: String,
    target_lang: Language,
    client: OpenAIClientHandle,
}

impl OpenAITranslator {
    /// The model this translator sends requests for.
    pub closed spec fn spec_model(&self) -> Seq<char> {
        self.model@
    }

    /// The language this translator translates into.
    pub closed spec fn spec_target_lang(&self) -> Language {
        self.target_lang
    }

    pub fn new(config: TranslatorConfig) -> (t: OpenAITranslator)
        ensures
            t.spec_model() == spec_resolved_model(opt_str_view(config.model)),
            t.spec_target_lang() == config.target_lang,
    {
        let openai_config = OpenAIConfig::new().with_api_key(config.api_key);
        OpenAITranslator {
            model: resolve_model(config.model),
            target_lang: config.target_lang,
            client: make_openai_client(openai_config),
        }
    }
}

impl Translator for OpenAITranslator {
    open spec fn spec_engine(&self) -> TranslatorEngine {
        TranslatorEngine::OpenAI
    }

    fn name(&self) -> (e: TranslatorEngine)
        ensures
            e == TranslatorEngine::OpenAI,
    {
        TranslatorEngine::OpenAI
    }

    fn translate(&self, text: &str) -> Result<String, TranslatorError> {
        let prompt = system_prompt(self.target_lang);
        let request = match build_chat_request(
            self.model.as_str(),
            prompt.as_str(),
            "I understand. Please give me the text.",
            text,
        ) {
            Ok(r) => r,
            Err(s) => {
                return Err(TranslatorError::Backend(s));
            },
        };
        match send_chat_request_openai(&self.client, request) {
            Ok(t) => Ok(t),
            Err(s) => Err(TranslatorError::Backend(s)),
        }
    }
}

/// A backend that sends each message to an Azure OpenAI deployment.
pub struct AzureOpenAITranslator {
    model: String,
    target_lang: Language,
    client: AzureClientHandle,
}

impl AzureOpenAITranslator {
    /// The model this translator sends requests for.
    pub closed spec fn spec_model(&self) -> Seq<char> {
        self.model@
    }

    /// The language this translator translates into.
    pub closed spec fn spec_target_lang(&self) -> Language {
        self.target_lang
    }

    pub fn new(config: TranslatorConfig) -> (r: Result<AzureOpenAITranslator, TranslatorError>)
        ensures
            r is Ok <==> config.api_base is Some && config.api_deployment_id is Some,
            r matches Ok(t) ==> t.spec_model() == spec_resolved_model(opt_str_view(config.model))
                && t.spec_target_lang() == config.target_lang,
            r matches Err(e) ==> e == (if config.api_base is None {
                TranslatorError::MissingApiBase
            } else {
                TranslatorError::MissingDeploymentId
            }),
    {
        let api_base = match config.api_base {
            Some(b) => b,
            None => {
                return Err(TranslatorError::MissingApiBase);
            },
        };
        let api_deployment_id = match config.api_deployment_id {
            Some(d) => d,
            None => {
                return Err(TranslatorError::MissingDeploymentId);
            },
        };
        let api_version = match config.api_version {
            Some(v) => v,
            None => "2023-03-15-preview".to_owned(),
        };
        let azure_config = AzureConfig::new()
            .with_api_key(config.api_key)
            .with_api_base(api_base)
            .with_api_version(api_version)
            .with_deployment_id(api_deployment_id);
        let client = make_azure_client(azure_config);
        Ok(
            AzureOpenAITranslator {
                model: resolve_model(config.model),
                target_lang: config.target_lang,
                client,
            },
        )
    }
}

impl Translator for AzureOpenAITranslator {
    open spec fn spec_engine(&self) -> TranslatorEngine {
        TranslatorEngine::AzureOpenAI
    }

    fn name(&self) -> (e: TranslatorEngine)
        ensures
            e == TranslatorEngine::AzureOpenAI,
    {
        TranslatorEngine::AzureOpenAI
    }

    fn translate(&self, text: &str) -> Result<String, TranslatorError> {
        let prompt = system_prompt(self.target_lang);
        let request = match build_chat_request(
            self.model.as_str(),
            prompt.as_str(),
            "I understand. Please give me the text.",
            text,
        ) {
            Ok(r) => r,
            Err(s) => {
                return Err(TranslatorError::Backend(s));
            },
        };
        match send_chat_request_azure(&self.client, request) {
            Ok(t) => Ok(t),
            Err(s) => Err(TranslatorError::Backend(s)),
        }
    }
}

} // verus!
