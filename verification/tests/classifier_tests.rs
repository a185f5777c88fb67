use potr::{Matcher, Message, Potr, PotrConfig, TranslatorConfig};

fn msg(id: &str) -> Message {
    Message::new(id.to_string(), String::new(), String::new())
}

fn msg_with(id: &str, translation: &str, locations: &str) -> Message {
    Message::new(id.to_string(), translation.to_string(), locations.to_string())
}

fn potr_with(config: PotrConfig) -> Potr {
    Potr::new(config, TranslatorConfig::default())
}

#[test]
fn code_block_is_rejected_by_default() {
    let potr = potr_with(PotrConfig::default());
    assert!(!potr.should_translate_message(&msg("```print(\"hi\")```")));
}

#[test]
fn formula_block_is_rejected_by_default() {
    let potr = potr_with(PotrConfig::default());
    assert!(!potr.should_translate_message(&msg("$$x^2$$")));
}

#[test]
fn image_reference_is_rejected_by_default() {
    let potr = potr_with(PotrConfig::default());
    assert!(!potr.should_translate_message(&msg("![](img/a.png)")));
    assert!(!potr.should_translate_message(&msg("![img20230414162317](img/img20230414162317.png)")));
}

#[test]
fn single_character_is_rejected_regardless_of_toggles() {
    let mut config = PotrConfig::default();
    config.skip_code_blocks = false;
    config.skip_formula_blocks = false;
    config.skip_md_image_file = false;
    config.skip_text = false;
    config.skip_translated = false;
    let potr = potr_with(config);
    assert!(!potr.should_translate_message(&msg("a")));
    assert!(!potr.should_translate_message(&msg(".")));
}

#[test]
fn plain_sentence_is_accepted_by_default() {
    let potr = potr_with(PotrConfig::default());
    assert!(potr.should_translate_message(&msg("This is a sentence.")));
}

#[test]
fn translated_message_is_skipped_by_default_but_not_when_reprocessing() {
    let potr = potr_with(PotrConfig::default());
    assert!(!potr.should_translate_message(&msg_with("Hello", "Bonjour", "")));

    let mut config = PotrConfig::default();
    config.skip_translated = false;
    let potr = potr_with(config);
    assert!(potr.should_translate_message(&msg_with("Hello there", "Bonjour", "")));
}

#[test]
fn code_block_can_be_processed_when_enabled() {
    let mut config = PotrConfig::default();
    config.skip_code_blocks = false;
    let potr = potr_with(config);
    assert!(potr.should_translate_message(&msg("```bash\necho hi\n```")));
}

#[test]
fn code_block_with_include_regex() {
    let mut config = PotrConfig::default();
    config.skip_code_blocks = false;
    config.include_message_regex = Some(Matcher::new("```bash").unwrap());
    let potr = potr_with(config);
    assert!(potr.should_translate_message(&msg("```bash\necho hi\n```")));
    assert!(!potr.should_translate_message(&msg("```python\nprint(1)\n```")));
}

#[test]
fn skip_text_rejects_plain_text_only() {
    let mut config = PotrConfig::default();
    config.skip_text = true;
    config.skip_code_blocks = false;
    let potr = potr_with(config);
    assert!(!potr.should_translate_message(&msg("This is a sentence.")));
    assert!(potr.should_translate_message(&msg("```code here```")));
}

#[test]
fn include_filter_selects_messages() {
    let mut config = PotrConfig::default();
    config.include_message_regex = Some(Matcher::new("^That is").unwrap());
    let potr = potr_with(config);
    assert!(potr.should_translate_message(&msg("That is a pen.")));
    assert!(!potr.should_translate_message(&msg("This is a pen.")));
}

#[test]
fn exclude_filter_rejects_messages() {
    let mut config = PotrConfig::default();
    config.exclude_message_regex = Some(Matcher::new("^That is").unwrap());
    let potr = potr_with(config);
    assert!(!potr.should_translate_message(&msg("That is a pen.")));
    assert!(potr.should_translate_message(&msg("This is a pen.")));
}

#[test]
fn exclude_wins_over_include() {
    let mut config = PotrConfig::default();
    config.include_message_regex = Some(Matcher::new("^That is").unwrap());
    config.exclude_message_regex = Some(Matcher::new("pen").unwrap());
    let potr = potr_with(config);
    assert!(!potr.should_translate_message(&msg("That is a pen.")));
}

#[test]
fn source_filter_matches_any_location() {
    let mut config = PotrConfig::default();
    config.source_regex = Some(Matcher::new("e\\.f").unwrap());
    let potr = potr_with(config);
    assert!(potr.should_translate_message(&msg_with("A pen.", "", "a/b.c:10 d/e.f:22")));
}

#[test]
fn source_filter_rejects_when_no_location_matches() {
    let mut config = PotrConfig::default();
    config.source_regex = Some(Matcher::new("^x/y\\.z").unwrap());
    let potr = potr_with(config);
    assert!(!potr.should_translate_message(&msg_with("A pen.", "", "a/b.c:10 d/e.f:22")));
}

#[test]
fn source_filter_tokens_are_trimmed_and_line_numbered() {
    let mut config = PotrConfig::default();
    config.source_regex = Some(Matcher::new("^d/e\\.f:22$").unwrap());
    let potr = potr_with(config);
    // The second reference is preceded by a space; matching is anchored, so
    // it only succeeds because tokens are trimmed.
    assert!(potr.should_translate_message(&msg_with("A pen.", "", "a/b.c:10 d/e.f:22")));

    // A colon without a line number does not form a reference.
    let mut config = PotrConfig::default();
    config.source_regex = Some(Matcher::new("broken").unwrap());
    let potr = potr_with(config);
    assert!(!potr.should_translate_message(&msg_with("A pen.", "", "broken:path a/b.c:7")));
}

#[test]
fn source_filter_line_numbers_may_use_any_decimal_digits() {
    // The line number of the first reference is written with Arabic-Indic
    // digits; it still ends the token, so the path before it is matchable.
    let mut config = PotrConfig::default();
    config.source_regex = Some(Matcher::new("a\\.rs").unwrap());
    let potr = potr_with(config);
    assert!(potr.should_translate_message(&msg_with(
        "A pen.",
        "",
        "a.rs:\u{0661}\u{0662} b.rs:3",
    )));
}

#[test]
fn source_filter_with_empty_locations_rejects() {
    let mut config = PotrConfig::default();
    config.source_regex = Some(Matcher::new("anything").unwrap());
    let potr = potr_with(config);
    assert!(!potr.should_translate_message(&msg("A pen.")));
}

#[test]
fn invalid_regex_is_refused_by_matcher() {
    assert!(Matcher::new("(unclosed").is_none());
    assert!(Matcher::new("^That is").is_some());
}
