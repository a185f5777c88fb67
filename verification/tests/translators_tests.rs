use std::str::FromStr;

use potr::{
    create, ClearTranslator, CloneTranslator, Language, Translator, TranslatorConfig,
    TranslatorEngine,
};

#[test]
fn languange_can_be_parsed_from_string() {
    let languanges = vec![
        "aa", "ab", "ae", "af", "ak", "am", "an", "ar", "as", "av", "ay", "az", "ba", "be",
        "bg", "bh", "bi", "bm", "bn", "bo", "br", "bs", "ca", "ce", "ch", "co", "cr", "cs",
        "cu", "cv", "cy", "da", "de", "dv", "dz", "ee", "el", "en", "eo", "es", "et", "eu",
        "fa", "ff", "fi", "fj", "fo", "fr", "fy", "ga", "gd", "gl", "gn", "gu", "gv", "ha",
        "he", "hi", "ho", "hr", "ht", "hu", "hy", "hz", "ia", "id", "ie", "ig", "ii", "ik",
        "io", "is", "it", "iu", "ja", "jv", "ka", "kg", "ki", "kj", "kk", "kl", "km", "kn",
        "ko", "kr", "ks", "ku", "kv", "kw", "ky", "la", "lb", "lg", "li", "ln", "lo", "lt",
        "lu", "lv", "mg", "mh", "mi", "mk", "ml", "mn", "mr", "ms", "mt", "my", "na", "nb",
        "nd", "ne", "ng", "nl", "nn", "no", "nr", "nv", "ny", "oc", "oj", "om", "or", "os",
        "pa", "pi", "pl", "ps", "pt", "qu", "rm", "rn", "ro", "ru", "rw", "sa", "sc", "sd",
        "se", "sg", "si", "sk", "sl", "sm", "sn", "so", "sq", "sr", "ss", "st", "su", "sv",
        "sw", "ta", "te", "tg", "th", "ti", "tk", "tl", "tn", "to", "tr", "ts", "tt", "tw",
        "ty", "ug", "uk", "ur", "uz", "ve", "vi", "vo", "wa", "wo", "xh", "yi", "yo", "za",
        "zh", "zu",
    ];

    for language in languanges {
        Language::from_str(language).unwrap();
    }
}

#[test]
fn translators_can_be_created() {
    let mut config = TranslatorConfig {
        engine: TranslatorEngine::OpenAI,
        target_lang: Language::English,
        api_key: String::from(""),
        model: None,
        api_base: Some("https://your-resource-name.openai.azure.com".to_string()),
        api_version: None,
        api_deployment_id: Some("mock-deployment".to_string()),
    };

    let engines = vec![
        TranslatorEngine::Clear,
        TranslatorEngine::Clone,
        TranslatorEngine::OpenAI,
        TranslatorEngine::AzureOpenAI,
        TranslatorEngine::DeepL,
    ];
    for engine in engines {
        config.engine = engine;
        let translator = create(config.clone()).unwrap();
        assert_eq!(translator.name(), engine);
    }
}

#[test]
fn test_clear_translator() {
    let config = TranslatorConfig {
        engine: TranslatorEngine::Clear,
        target_lang: Language::English,
        api_key: "".to_string(),
        model: None,
        api_base: None,
        api_version: None,
        api_deployment_id: None,
    };
    let translator = ClearTranslator::new(config);
    let result = translator.translate("\u{8fd9}\u{662f}\u{4e00}\u{6bb5}\u{4e2d}\u{6587}\u{6587}\u{672c}\u{3002}").expect("Failed to translate");

    assert_eq!(result, "");
}

#[test]
fn test_clone_translator() {
    let config = TranslatorConfig {
        engine: TranslatorEngine::Clone,
        target_lang: Language::English,
        api_key: "".to_string(),
        model: None,
        api_base: None,
        api_version: None,
        api_deployment_id: None,
    };
    let translator = CloneTranslator::new(config);
    let result = translator.translate("\u{8fd9}\u{662f}\u{4e00}\u{6bb5}\u{4e2d}\u{6587}\u{6587}\u{672c}\u{3002}").expect("Failed to translate");

    assert_eq!(result, "\u{8fd9}\u{662f}\u{4e00}\u{6bb5}\u{4e2d}\u{6587}\u{6587}\u{672c}\u{3002}");
}

#[test]
fn language_names_are_exact() {
    assert_eq!(Language::English.name(), "English");
    assert_eq!(Language::Chinese.name(), "Chinese");
    assert_eq!(Language::from_code("zh"), Some(Language::Chinese));
    assert_eq!(Language::from_code("zz"), None);
    assert_eq!(Language::from_code("deu"), None);
}

#[test]
fn engine_tags_parse() {
    assert_eq!(TranslatorEngine::from_code("clear"), Some(TranslatorEngine::Clear));
    assert_eq!(TranslatorEngine::from_code("clone"), Some(TranslatorEngine::Clone));
    assert_eq!(TranslatorEngine::from_code("openai"), Some(TranslatorEngine::OpenAI));
    assert_eq!(TranslatorEngine::from_code("azure-openai"), Some(TranslatorEngine::AzureOpenAI));
    assert_eq!(TranslatorEngine::from_code("deepl"), Some(TranslatorEngine::DeepL));
    assert_eq!(TranslatorEngine::from_code("bing"), None);
}
