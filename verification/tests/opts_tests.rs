use potr::{Language, Opts, OptsError, TranslatorEngine};

fn base_opts() -> Opts {
    Opts {
        po_file_path: "messages.po".to_string(),
        target_lang: Language::English,
        engine: TranslatorEngine::OpenAI,
        api_key: None,
        api_base: None,
        api_version: None,
        api_deployment_id: None,
        model: None,
        output_file_path: None,
        skip_translation: false,
        process_translated: false,
        skip_text: false,
        process_code_blocks: false,
        limit: 0,
        source: None,
        include_message: None,
        exclude_message: None,
        verbose: false,
    }
}

#[test]
fn explicit_api_key_wins_over_fallback() {
    let mut opts = base_opts();
    opts.api_key = Some("explicit".to_string());
    let config = opts
        .to_translator_config(Some("from-env".to_string()))
        .expect("config should build");
    assert_eq!(config.api_key, "explicit");
}

#[test]
fn fallback_api_key_is_used_when_none_is_given() {
    let opts = base_opts();
    let config = opts
        .to_translator_config(Some("from-env".to_string()))
        .expect("config should build");
    assert_eq!(config.api_key, "from-env");
}

#[test]
fn missing_api_key_is_an_error_for_engines_that_need_one() {
    for engine in [
        TranslatorEngine::OpenAI,
        TranslatorEngine::AzureOpenAI,
        TranslatorEngine::DeepL,
    ] {
        let mut opts = base_opts();
        opts.engine = engine;
        let r = opts.to_translator_config(None);
        assert!(matches!(r, Err(OptsError::MissingApiKey)));
    }
}

#[test]
fn local_engines_need_no_api_key() {
    for engine in [TranslatorEngine::Clear, TranslatorEngine::Clone] {
        let mut opts = base_opts();
        opts.engine = engine;
        let config = opts.to_translator_config(None).expect("config should build");
        assert_eq!(config.api_key, "");
        assert_eq!(config.engine, engine);
    }
}

#[test]
fn potr_config_mirrors_the_options() {
    let mut opts = base_opts();
    opts.process_translated = true;
    opts.process_code_blocks = true;
    opts.skip_text = true;
    opts.limit = 7;
    opts.source = Some("Pen".to_string());
    opts.include_message = Some("^That is".to_string());
    let config = opts.to_potr_config().expect("config should build");
    assert_eq!(config.po_file_path, "messages.po");
    assert_eq!(config.output_file_path, "messages.po");
    assert!(!config.skip_translated);
    assert!(!config.skip_code_blocks);
    assert!(config.skip_formula_blocks);
    assert!(config.skip_md_image_file);
    assert!(config.skip_text);
    assert_eq!(config.message_limit, 7);
    assert!(config.source_regex.is_some());
    assert!(config.include_message_regex.is_some());
    assert!(config.exclude_message_regex.is_none());
}

#[test]
fn output_path_can_differ_from_input_path() {
    let mut opts = base_opts();
    opts.output_file_path = Some("out.po".to_string());
    let config = opts.to_potr_config().expect("config should build");
    assert_eq!(config.po_file_path, "messages.po");
    assert_eq!(config.output_file_path, "out.po");
}

#[test]
fn invalid_filter_regex_is_an_error() {
    let mut opts = base_opts();
    opts.include_message = Some("(unclosed".to_string());
    let r = opts.to_potr_config();
    assert!(matches!(r, Err(OptsError::InvalidRegex)));
}
