use potr::{
    Catalog, Language, Message, Potr, PotrConfig, Translator, TranslatorConfig, TranslatorEngine,
    TranslatorError,
};

fn untranslated(id: &str) -> Message {
    Message::new(id.to_string(), String::new(), String::new())
}

fn translated(id: &str, translation: &str) -> Message {
    Message::new(id.to_string(), translation.to_string(), String::new())
}

fn clone_potr(config: PotrConfig) -> Potr {
    let mut tc = TranslatorConfig::default();
    tc.engine = TranslatorEngine::Clone;
    Potr::new(config, tc)
}

/// A backend that fails on one chosen text and upper-cases every other.
struct OneFailureTranslator {
    fail_on: String,
}

impl Translator for OneFailureTranslator {
    fn name(&self) -> TranslatorEngine {
        TranslatorEngine::Clone
    }

    fn translate(&self, text: &str) -> Result<String, TranslatorError> {
        if text == self.fail_on {
            Err(TranslatorError::Backend("simulated outage".to_string()))
        } else {
            Ok(text.to_uppercase())
        }
    }
}

#[test]
fn potr_should_translate_untranslated_messages() {
    let potr = clone_potr(PotrConfig::default());
    let mut catalog: Catalog = vec![
        untranslated("First sentence."),
        translated("Second sentence.", "Done already."),
        untranslated("Third sentence."),
    ];
    let counters = potr.translate(&mut catalog).expect("Failed to run potr");
    assert_eq!(counters.processed, 2);
    assert_eq!(counters.translated, 2);
    assert_eq!(counters.failed, 0);
    assert_eq!(catalog[0].translation, "First sentence.");
    assert_eq!(catalog[1].translation, "Done already.");
    assert_eq!(catalog[2].translation, "Third sentence.");
}

#[test]
fn potr_should_translate_translated_messages() {
    let mut config = PotrConfig::default();
    config.skip_translated = false;
    let potr = clone_potr(config);
    let mut catalog: Catalog = vec![translated("A pen.", "Ein Stift.")];
    let counters = potr.translate(&mut catalog).expect("Failed to run potr");
    assert_eq!(counters.translated, 1);
    assert_eq!(catalog[0].translation, "A pen.");
}

#[test]
fn idempotent_when_everything_is_translated() {
    let potr = clone_potr(PotrConfig::default());
    let mut catalog: Catalog = vec![
        translated("One.", "Eins."),
        translated("Two.", "Zwei."),
        translated("Three.", "Drei."),
    ];
    let counters = potr.translate(&mut catalog).expect("Failed to run potr");
    assert_eq!(counters.processed, 0);
    assert_eq!(counters.translated, 0);
    assert_eq!(counters.failed, 0);
    assert_eq!(catalog[0].translation, "Eins.");
    assert_eq!(catalog[1].translation, "Zwei.");
    assert_eq!(catalog[2].translation, "Drei.");
}

#[test]
fn message_limit_caps_the_run() {
    let mut config = PotrConfig::default();
    config.message_limit = 2;
    let potr = clone_potr(config);
    let mut catalog: Catalog = vec![
        untranslated("First sentence."),
        untranslated("Second sentence."),
        untranslated("Third sentence."),
        untranslated("Fourth sentence."),
        untranslated("Fifth sentence."),
    ];
    let counters = potr.translate(&mut catalog).expect("Failed to run potr");
    assert_eq!(counters.translated, 2);
    assert_eq!(counters.processed, 2);
    assert_eq!(catalog[0].translation, "First sentence.");
    assert_eq!(catalog[1].translation, "Second sentence.");
    assert_eq!(catalog[2].translation, "");
    assert_eq!(catalog[3].translation, "");
    assert_eq!(catalog[4].translation, "");
}

#[test]
fn message_limit_beyond_accepted_translates_everything() {
    let mut config = PotrConfig::default();
    config.message_limit = 10;
    let potr = clone_potr(config);
    let mut catalog: Catalog = vec![untranslated("One thing."), untranslated("Another thing.")];
    let counters = potr.translate(&mut catalog).expect("Failed to run potr");
    assert_eq!(counters.translated, 2);
}

#[test]
fn nonpositive_message_limit_means_unlimited() {
    let mut config = PotrConfig::default();
    config.message_limit = -3;
    let potr = clone_potr(config);
    let mut catalog: Catalog = vec![
        untranslated("First sentence."),
        untranslated("Second sentence."),
    ];
    let counters = potr.translate(&mut catalog).expect("Failed to run potr");
    assert_eq!(counters.translated, 2);
}

#[test]
fn cancellation_before_the_loop_translates_nothing() {
    let potr = clone_potr(PotrConfig::default());
    potr.cancel_flag().cancel();
    let mut catalog: Catalog = vec![
        untranslated("First sentence."),
        untranslated("Second sentence."),
    ];
    let counters = potr.translate(&mut catalog).expect("Failed to run potr");
    assert_eq!(counters.processed, 0);
    assert_eq!(counters.translated, 0);
    assert_eq!(counters.failed, 0);
    assert_eq!(catalog[0].translation, "");
    assert_eq!(catalog[1].translation, "");
}

#[test]
fn dry_run_touches_nothing() {
    let mut config = PotrConfig::default();
    config.skip_translation = true;
    let potr = clone_potr(config);
    let mut catalog: Catalog = vec![untranslated("First sentence.")];
    let counters = potr.translate(&mut catalog).expect("Failed to run potr");
    assert_eq!(counters.processed, 0);
    assert_eq!(counters.translated, 0);
    assert_eq!(catalog[0].translation, "");
}

#[test]
fn one_failure_is_isolated() {
    let potr = clone_potr(PotrConfig::default());
    let translator: Box<dyn Translator> = Box::new(OneFailureTranslator {
        fail_on: "Third sentence.".to_string(),
    });
    let mut catalog: Catalog = vec![
        untranslated("First sentence."),
        untranslated("Second sentence."),
        untranslated("Third sentence."),
        untranslated("Fourth sentence."),
        untranslated("Fifth sentence."),
    ];
    let counters = potr.translate_with(&translator, &mut catalog);
    assert_eq!(counters.processed, 5);
    assert_eq!(counters.translated, 4);
    assert_eq!(counters.failed, 1);
    assert_eq!(catalog[0].translation, "FIRST SENTENCE.");
    assert_eq!(catalog[1].translation, "SECOND SENTENCE.");
    assert_eq!(catalog[2].translation, "");
    assert_eq!(catalog[3].translation, "FOURTH SENTENCE.");
    assert_eq!(catalog[4].translation, "FIFTH SENTENCE.");
}

#[test]
fn failed_entry_keeps_its_prior_translation() {
    let mut config = PotrConfig::default();
    config.skip_translated = false;
    let potr = clone_potr(config);
    let translator: Box<dyn Translator> = Box::new(OneFailureTranslator {
        fail_on: "Keep me.".to_string(),
    });
    let mut catalog: Catalog = vec![translated("Keep me.", "Old translation.")];
    let counters = potr.translate_with(&translator, &mut catalog);
    assert_eq!(counters.failed, 1);
    assert_eq!(counters.translated, 0);
    assert_eq!(catalog[0].translation, "Old translation.");
}

#[test]
fn clear_engine_empties_translations() {
    let mut config = PotrConfig::default();
    config.skip_translated = false;
    let mut tc = TranslatorConfig::default();
    tc.engine = TranslatorEngine::Clear;
    let potr = Potr::new(config, tc);
    let mut catalog: Catalog = vec![translated("A pen.", "Ein Stift.")];
    let counters = potr.translate(&mut catalog).expect("Failed to run potr");
    assert_eq!(counters.translated, 1);
    assert_eq!(catalog[0].translation, "");
}

#[test]
fn azure_engine_without_base_url_is_fatal() {
    let mut tc = TranslatorConfig::default();
    tc.engine = TranslatorEngine::AzureOpenAI;
    let potr = Potr::new(PotrConfig::default(), tc);
    let mut catalog: Catalog = vec![untranslated("First sentence.")];
    let r = potr.translate(&mut catalog);
    assert!(matches!(r, Err(TranslatorError::MissingApiBase)));
    assert_eq!(catalog[0].translation, "");
}

#[test]
fn azure_engine_without_deployment_id_is_fatal() {
    let mut tc = TranslatorConfig::default();
    tc.engine = TranslatorEngine::AzureOpenAI;
    tc.api_base = Some("https://your-resource-name.openai.azure.com".to_string());
    let potr = Potr::new(PotrConfig::default(), tc);
    let mut catalog: Catalog = vec![untranslated("First sentence.")];
    let r = potr.translate(&mut catalog);
    assert!(matches!(r, Err(TranslatorError::MissingDeploymentId)));
}

#[test]
fn deepl_engine_with_unsupported_language_is_fatal() {
    let mut tc = TranslatorConfig::default();
    tc.engine = TranslatorEngine::DeepL;
    tc.target_lang = Language::Afar;
    let potr = Potr::new(PotrConfig::default(), tc);
    let mut catalog: Catalog = vec![untranslated("First sentence.")];
    let r = potr.translate(&mut catalog);
    assert!(matches!(r, Err(TranslatorError::UnsupportedLanguage)));
}

#[test]
fn counters_always_add_up() {
    let potr = clone_potr(PotrConfig::default());
    let translator: Box<dyn Translator> = Box::new(OneFailureTranslator {
        fail_on: "Second sentence.".to_string(),
    });
    let mut catalog: Catalog = vec![
        untranslated("First sentence."),
        untranslated("Second sentence."),
        translated("Third sentence.", "Dritter Satz."),
        untranslated("x"),
    ];
    let counters = potr.translate_with(&translator, &mut catalog);
    assert_eq!(counters.processed, counters.translated + counters.failed);
    assert_eq!(counters.processed, 2);
}

#[test]
fn message_is_translated_tracks_translation_slot() {
    assert!(!untranslated("A pen.").is_translated());
    assert!(translated("A pen.", "Ein Stift.").is_translated());
}
