use vstd::prelude::*;
use vstd::string::StrSliceExecFns;

use std::io::Write;

use crate::cancel::CancelToken;
use crate::classify::{accepts, source_passes, CfgView};
use crate::message::{catalog_view, lemma_catalog_view_update, Catalog, Message, MsgView};
use crate::model::{
    lemma_run_frame, lemma_run_upto_agrees, lemma_run_upto_stopped, lemma_skip_all_upto,
    loop_trace, run_trace, run_upto,
};
use crate::pattern::Matcher;
use crate::sources::{extract_source_refs, source_refs};
use crate::text::{str_has_prefix, str_has_suffix};
use crate::translators::{
    creatable, create, creation_error, opt_str_view, Translator, TranslatorConfig,
    TranslatorError,
};

verus! {

/// How one run selects and caps its work: the file paths, the skip switches,
/// the three optional filters, and the translation cap (0 = unlimited).
pub struct PotrConfig {
    pub po_file_path: String,
    pub output_file_path: String,
    pub skip_translation: bool,
    pub skip_translated: bool,
    pub skip_code_blocks: bool,
    pub skip_formula_blocks: bool,
    pub skip_md_image_file: bool,
    pub skip_text: bool,
    pub source_regex: Option<Matcher>,
    pub include_message_regex: Option<Matcher>,
    pub exclude_message_regex: Option<Matcher>,
    pub message_limit: i32,
}

/// The pattern inside an optional matcher.
pub open spec fn pattern_of(m: Option<Matcher>) -> Option<Seq<char>> {
    match m {
        Option::Some(m) => Some(m.pattern()),
        Option::None => None,
    }
}

impl View for PotrConfig {
    type V = CfgView;

    open spec fn view(&self) -> CfgView {
        CfgView {
            skip_translation: self.skip_translation,
            skip_translated: self.skip_translated,
            skip_code_blocks: self.skip_code_blocks,
            skip_formula_blocks: self.skip_formula_blocks,
            skip_md_image_file: self.skip_md_image_file,
            skip_text: self.skip_text,
            source_pattern: pattern_of(self.source_regex),
            include_pattern: pattern_of(self.include_message_regex),
            exclude_pattern: pattern_of(self.exclude_message_regex),
            message_limit: self.message_limit as int,
        }
    }
}

impl Default for PotrConfig {
    /// The default run: translate in place, skip entries already translated,
    /// skip code, formula and image payloads, translate plain text, no
    /// filters, no cap.
    fn default() -> (d: PotrConfig)
        ensures
            d.po_file_path@ == Seq::<char>::empty(),
            d.output_file_path@ == Seq::<char>::empty(),
            !d.skip_translation,
            d.skip_translated,
            d.skip_code_blocks,
            d.skip_formula_blocks,
            d.skip_md_image_file,
            !d.skip_text,
            d.source_regex is None,
            d.include_message_regex is None,
            d.exclude_message_regex is None,
            d.message_limit == 0,
    {
        PotrConfig {
            po_file_path: String::new(),
            output_file_path: String::new(),
            skip_translation: false,
            skip_translated: true,
            skip_code_blocks: true,
            skip_formula_blocks: true,
            skip_md_image_file: true,
            skip_text: false,
            source_regex: None,
            include_message_regex: None,
            exclude_message_regex: None,
            message_limit: 0,
        }
    }
}

/// What one run counted: entries processed (sent to the backend), entries
/// freshly translated, and entries whose backend call failed.
#[derive(Debug, Clone, Copy, PartialEq, Eq, Structural)]
pub struct RunCounters {
    pub processed: usize,
    pub translated: usize,
    pub failed: usize,
}

/// Relies on `std::io::Write` for standard error: emits one progress line.
/// An observability aid only; nothing is stated of it.
#[verifier::external_body]
fn report_progress(processed: usize, translated: usize, failed: usize) {
    let _ = writeln!(
        std::io::stderr(),
        "Processed {} messages, translated {}, failed {}.",
        processed,
        translated,
        failed,
    );
}

/// The orchestrator: drives one catalog through classification and
/// translation, under a filter configuration, a backend configuration and a
/// shared cancellation token.
pub struct Potr {
    pub config: PotrConfig,
    pub translator_config: TranslatorConfig,
    pub is_canceled: CancelToken,
}

impl Potr {
    pub fn new(config: PotrConfig, translator_config: TranslatorConfig) -> (p: Potr)
        ensures
            p.config@ == config@,
            p.config.message_limit == config.message_limit,
            p.translator_config.engine == translator_config.engine,
            p.translator_config.target_lang == translator_config.target_lang,
            p.translator_config.api_key@ == translator_config.api_key@,
            opt_str_view(p.translator_config.model) == opt_str_view(translator_config.model),
            opt_str_view(p.translator_config.api_base) == opt_str_view(
                translator_config.api_base,
            ),
            opt_str_view(p.translator_config.api_version) == opt_str_view(
                translator_config.api_version,
            ),
            opt_str_view(p.translator_config.api_deployment_id) == opt_str_view(
                translator_config.api_deployment_id,
            ),
    {
        Potr { config, translator_config, is_canceled: CancelToken::new() }
    }

    /// A handle on the run's cancellation token, for wiring to an interrupt
    /// handler.
    pub fn cancel_flag(&self) -> CancelToken {
        self.is_canceled.clone()
    }

    /// The classifier: whether this message should be sent to the translator,
    /// as an ordered decision list whose first matching rule decides.
    pub fn should_translate_message(&self, message: &Message) -> (b: bool)
        ensures
            b == accepts(self.config@, message@),
    {
        if self.config.skip_translated && message.is_translated() {
            return false;
        }
        let id = message.id.as_str();
        if str_has_prefix(id, "```") {
            if self.config.skip_code_blocks {
                return false;
            }
        } else if id.unicode_len() == 1 {
            return false;
        } else if str_has_prefix(id, "$$") {
            if self.config.skip_formula_blocks {
                return false;
            }
        } else if str_has_prefix(id, "![](") {
            if self.config.skip_md_image_file {
                return false;
            }
        } else if str_has_prefix(id, "![") && str_has_suffix(id, ")") {
            if self.config.skip_md_image_file {
                return false;
            }
        } else if self.config.skip_text {
            return false;
        }
        match &self.config.source_regex {
            Some(m) => {
                proof {
                    assert(self.config@.source_pattern == Some(m.pattern()));
                }
                let refs = extract_source_refs(message.source_locations.as_str());
                let n = refs.len();
                let mut k: usize = 0;
                let mut found = false;
                while k < n
                    invariant
                        n == refs@.len(),
                        k <= n,
                        refs@.map_values(|t: String| t@) == source_refs(message@.locations),
                        found == exists|x: int|
                            0 <= x < k && regex_matches_at(
                                m.pattern(),
                                message@.locations,
                                x,
                            ),
                    decreases n - k,
                {
                    if m.is_match(refs[k].as_str()) {
                        found = true;
                        proof {
                            assert(refs@.map_values(|t: String| t@)[k as int]
                                == refs@[k as int]@);
                            assert(regex_matches_at(m.pattern(), message@.locations, k as int));
                        }
                    }
                    k = k + 1;
                }
                proof {
                    let locs = message@.locations;
                    let p = m.pattern();
                    assert(source_refs(locs).len() == refs@.map_values(|t: String| t@).len());
                    if found {
                        let x = choose|x: int| 0 <= x < n && regex_matches_at(p, locs, x);
                        assert(source_passes(self.config@, locs));
                    } else {
                        assert forall|x: int|
                            0 <= x < source_refs(locs).len() implies !crate::pattern::regex_matches(
                            p,
                            source_refs(locs)[x],
                        ) by {
                            assert(!regex_matches_at(p, locs, x));
                        }
                        assert(!source_passes(self.config@, locs));
                    }
                }
                if !found {
                    return false;
                }
            },
            None => {},
        }
        match &self.config.include_message_regex {
            Some(m) => {
                if !m.is_match(id) {
                    return false;
                }
            },
            None => {},
        }
        match &self.config.exclude_message_regex {
            Some(m) => {
                if m.is_match(id) {
                    return false;
                }
            },
            None => {},
        }
        true
    }

    /// Classify one message and, when accepted, send it to the translator and
    /// store the result. `Ok(false)`: the classifier rejected the message and
    /// it is untouched. `Ok(true)`: the message was accepted and its
    /// translation slot now holds the backend's answer. `Err(_)`: the message
    /// was accepted but the backend call failed; the message is untouched.
    pub fn translate_message(
        &self,
        translator: &Box<dyn Translator>,
        message: &mut Message,
    ) -> (r: Result<bool, TranslatorError>)
        ensures
            r matches Ok(b) ==> b == accepts(self.config@, old(message)@),
            !accepts(self.config@, old(message)@) ==> *final(message) == *old(message),
            r is Err ==> *final(message) == *old(message) && accepts(
                self.config@,
                old(message)@,
            ),
            r matches Ok(b) && b ==> final(message)@ == old(message)@.with_translation(
                final(message)@.translation,
            ),
    {
        if !self.should_translate_message(message) {
            return Ok(false);
        }
        match translator.translate(message.id.as_str()) {
            Ok(t) => {
                message.translation = t;
                Ok(true)
            },
            Err(e) => Err(e),
        }
    }

    /// The translation loop: visit the catalog entries in order; before each
    /// one poll the cancellation token and stop when it is set; classify;
    /// send each accepted entry to the backend, storing the answer on success
    /// and counting the failure on error; stop once the translation cap is
    /// reached. The result is exactly a run of the model under the trace of
    /// cancellation observations and backend outcomes the loop saw; the
    /// remaining clauses hold of every trace.
    pub fn translate_with(
        &self,
        translator: &Box<dyn Translator>,
        catalog: &mut Catalog,
    ) -> (c: RunCounters)
        ensures
            exists|cancels: Seq<bool>, outcomes: Seq<Option<Seq<char>>>|
                #[trigger] loop_trace(
                    self.config@,
                    catalog_view(old(catalog)@),
                    cancels,
                    outcomes,
                    catalog_view(final(catalog)@),
                    c.processed as nat,
                    c.translated as nat,
                    c.failed as nat,
                ),
            final(catalog)@.len() == old(catalog)@.len(),
            forall|j: int|
                0 <= j < old(catalog)@.len() ==> (#[trigger] final(catalog)@[j])@.id == old(
                    catalog,
                )@[j]@.id && final(catalog)@[j]@.locations == old(catalog)@[j]@.locations,
            forall|j: int|
                0 <= j < old(catalog)@.len() && !accepts(self.config@, (#[trigger] old(
                    catalog,
                )@[j])@) ==> final(catalog)@[j]@ == old(catalog)@[j]@,
            c.translated + c.failed == c.processed,
            c.processed <= old(catalog)@.len(),
            self.config.message_limit > 0 ==> c.translated <= self.config.message_limit,
            self.config.skip_translated && (forall|j: int|
                0 <= j < old(catalog)@.len() ==> (#[trigger] old(catalog)@[j])@.is_translated())
                ==> catalog_view(final(catalog)@) == catalog_view(old(catalog)@) && c.processed
                == 0 && c.translated == 0 && c.failed == 0,
    {
        let ghost cfg = self.config@;
        let ghost cat0: Seq<MsgView> = catalog_view(catalog@);
        let n = catalog.len();
        let mut processed: usize = 0;
        let mut translated: usize = 0;
        let mut failed: usize = 0;
        let mut done = false;
        let mut i: usize = 0;
        let ghost mut cancels: Seq<bool> = Seq::empty();
        let ghost mut outcomes: Seq<Option<Seq<char>>> = Seq::empty();
        while i < n && !done
            invariant
                cfg == self.config@,
                cat0 == catalog_view(old(catalog)@),
                n == old(catalog)@.len(),
                n == catalog@.len(),
                i <= n,
                processed <= i,
                cancels.len() == i,
                outcomes.len() == i,
                ({
                    let st = run_upto(cfg, cat0, cancels, outcomes, i as int);
                    &&& st.messages == catalog_view(catalog@)
                    &&& st.processed == processed
                    &&& st.translated == translated
                    &&& st.failed == failed
                    &&& st.stopped == done
                }),
            decreases n - i,
        {
            proof {
                lemma_run_frame(cfg, cat0, cancels, outcomes, i as int);
            }
            if self.is_canceled.is_canceled() {
                proof {
                    let old_cancels = cancels;
                    let old_outcomes = outcomes;
                    cancels = cancels.push(true);
                    outcomes = outcomes.push(None);
                    lemma_run_upto_agrees(
                        cfg,
                        cat0,
                        old_cancels,
                        old_outcomes,
                        cancels,
                        outcomes,
                        i as int,
                    );
                }
                i = i + 1;
                done = true;
            } else {
                let ghost pre: Seq<Message> = catalog@;
                let m = &mut catalog[i];
                let r = self.translate_message(translator, m);
                match r {
                    Ok(true) => {
                        proof {
                            let old_cancels = cancels;
                            let old_outcomes = outcomes;
                            let t = catalog@[i as int]@.translation;
                            cancels = cancels.push(false);
                            outcomes = outcomes.push(Some(t));
                            lemma_run_upto_agrees(
                                cfg,
                                cat0,
                                old_cancels,
                                old_outcomes,
                                cancels,
                                outcomes,
                                i as int,
                            );
                            lemma_catalog_view_update(pre, i as int, catalog@[i as int]);
                        }
                        translated = translated + 1;
                        processed = processed + 1;
                        if processed % 10 == 0 {
                            report_progress(processed, translated, failed);
                        }
                    },
                    Ok(false) => {
                        proof {
                            let old_cancels = cancels;
                            let old_outcomes = outcomes;
                            cancels = cancels.push(false);
                            outcomes = outcomes.push(None);
                            lemma_run_upto_agrees(
                                cfg,
                                cat0,
                                old_cancels,
                                old_outcomes,
                                cancels,
                                outcomes,
                                i as int,
                            );
                            assert(catalog@ =~= pre);
                        }
                    },
                    Err(_e) => {
                        proof {
                            let old_cancels = cancels;
                            let old_outcomes = outcomes;
                            cancels = cancels.push(false);
                            outcomes = outcomes.push(None);
                            lemma_run_upto_agrees(
                                cfg,
                                cat0,
                                old_cancels,
                                old_outcomes,
                                cancels,
                                outcomes,
                                i as int,
                            );
                            assert(catalog@ =~= pre);
                        }
                        failed = failed + 1;
                        processed = processed + 1;
                        if processed % 10 == 0 {
                            report_progress(processed, translated, failed);
                        }
                    },
                }
                i = i + 1;
                if self.config.message_limit > 0 && translated
                    >= (self.config.message_limit as usize) {
                    done = true;
                }
                proof {
                    lemma_run_frame(cfg, cat0, cancels, outcomes, i as int);
                }
            }
        }
        proof {
            if i < n {
                let old_cancels = cancels;
                let old_outcomes = outcomes;
                cancels = cancels + Seq::new((n - i) as nat, |x: int| false);
                outcomes = outcomes + Seq::new((n - i) as nat, |x: int| None::<Seq<char>>);
                lemma_run_upto_agrees(
                    cfg,
                    cat0,
                    old_cancels,
                    old_outcomes,
                    cancels,
                    outcomes,
                    i as int,
                );
                lemma_run_upto_stopped(cfg, cat0, cancels, outcomes, i as int, n as int);
            }
            lemma_run_frame(cfg, cat0, cancels, outcomes, n as int);
            if cfg.skip_translated && (forall|j: int|
                0 <= j < cat0.len() ==> (#[trigger] cat0[j]).is_translated()) {
                lemma_skip_all_upto(cfg, cat0, cancels, outcomes, n as int);
            }
            assert(loop_trace(
                cfg,
                cat0,
                cancels,
                outcomes,
                catalog_view(catalog@),
                processed as nat,
                translated as nat,
                failed as nat,
            ));
            assert(loop_trace(
                self.config@,
                catalog_view(old(catalog)@),
                cancels,
                outcomes,
                catalog_view(catalog@),
                processed as nat,
                translated as nat,
                failed as nat,
            ));
            let st = run_upto(cfg, cat0, cancels, outcomes, n as int);
            assert forall|j: int|
                0 <= j < n implies (#[trigger] catalog@[j])@.id == old(catalog)@[j]@.id
                && catalog@[j]@.locations == old(catalog)@[j]@.locations by {
                assert(catalog_view(catalog@)[j] == catalog@[j]@);
                assert(cat0[j] == old(catalog)@[j]@);
                assert(st.messages[j].id == cat0[j].id);
                assert(st.messages[j].locations == cat0[j].locations);
            }
            assert forall|j: int|
                0 <= j < n && !accepts(cfg, (#[trigger] old(catalog)@[j])@) implies catalog@[j]@
                == old(catalog)@[j]@ by {
                assert(catalog_view(catalog@)[j] == catalog@[j]@);
                assert(cat0[j] == old(catalog)@[j]@);
                assert(st.messages[j] == cat0[j]);
            }
        }
        let result = RunCounters { processed, translated, failed };
        proof {
            assert(exists|c1: Seq<bool>, c2: Seq<Option<Seq<char>>>|
                #[trigger] loop_trace(
                    self.config@,
                    catalog_view(old(catalog)@),
                    c1,
                    c2,
                    catalog_view(catalog@),
                    result.processed as nat,
                    result.translated as nat,
                    result.failed as nat,
                )) by {
                assert(loop_trace(
                    self.config@,
                    catalog_view(old(catalog)@),
                    cancels,
                    outcomes,
                    catalog_view(catalog@),
                    result.processed as nat,
                    result.translated as nat,
                    result.failed as nat,
                ));
            }
        }
        result
    }

    /// One full pass: build the backend the configuration selects (an error
    /// there aborts the run before any entry is touched), honor the dry-run
    /// switch, and otherwise drive the catalog through the translation loop.
    ///
    /// The network backends run each call to completion on a runtime of their
    /// own, so a run is meant to be driven from synchronous code, never from
    /// inside an asynchronous runtime.
    pub fn translate(&self, catalog: &mut Catalog) -> (r: Result<RunCounters, TranslatorError>)
        ensures
            r is Ok <==> creatable(self.translator_config),
            r matches Err(e) ==> e == creation_error(self.translator_config) && final(catalog)@
                == old(catalog)@,
            r matches Ok(c) ==> exists|cancels: Seq<bool>, outcomes: Seq<Option<Seq<char>>>|
                #[trigger] run_trace(
                    self.config@,
                    catalog_view(old(catalog)@),
                    cancels,
                    outcomes,
                    catalog_view(final(catalog)@),
                    c.processed as nat,
                    c.translated as nat,
                    c.failed as nat,
                ),
            self.config.skip_translation && r is Ok ==> catalog_view(final(catalog)@)
                == catalog_view(old(catalog)@) && r->Ok_0.processed == 0 && r->Ok_0.translated
                == 0 && r->Ok_0.failed == 0,
            r matches Ok(c) ==> final(catalog)@.len() == old(catalog)@.len() && c.translated
                + c.failed == c.processed && c.processed <= old(catalog)@.len()
                && (self.config.message_limit > 0 ==> c.translated
                <= self.config.message_limit),
            r is Ok ==> forall|j: int|
                0 <= j < old(catalog)@.len() ==> (#[trigger] final(catalog)@[j])@.id == old(
                    catalog,
                )@[j]@.id && final(catalog)@[j]@.locations == old(catalog)@[j]@.locations,
            r is Ok ==> forall|j: int|
                0 <= j < old(catalog)@.len() && !accepts(self.config@, (#[trigger] old(
                    catalog,
                )@[j])@) ==> final(catalog)@[j]@ == old(catalog)@[j]@,
            self.config.skip_translated && (forall|j: int|
                0 <= j < old(catalog)@.len() ==> (#[trigger] old(catalog)@[j])@.is_translated())
                && r is Ok ==> catalog_view(final(catalog)@) == catalog_view(old(catalog)@)
                && r->Ok_0.processed == 0 && r->Ok_0.translated == 0 && r->Ok_0.failed == 0,
    {
        let tc = self.translator_config.clone();
        let res: Result<RunCounters, TranslatorError> = match create(tc) {
            Ok(translator) => {
                if self.config.skip_translation {
                    Ok(RunCounters { processed: 0, translated: 0, failed: 0 })
                } else {
                    Ok(self.translate_with(&translator, catalog))
                }
            },
            Err(e) => Err(e),
        };
        proof {
            if res is Ok {
                let rc = res->Ok_0;
                if self.config@.skip_translation {
                    let w1 = Seq::new(old(catalog)@.len(), |x: int| false);
                    let w2 = Seq::new(old(catalog)@.len(), |x: int| None::<Seq<char>>);
                    assert(exists|c1: Seq<bool>, c2: Seq<Option<Seq<char>>>|
                        #[trigger] run_trace(
                            self.config@,
                            catalog_view(old(catalog)@),
                            c1,
                            c2,
                            catalog_view(catalog@),
                            rc.processed as nat,
                            rc.translated as nat,
                            rc.failed as nat,
                        )) by {
                        assert(run_trace(
                            self.config@,
                            catalog_view(old(catalog)@),
                            w1,
                            w2,
                            catalog_view(catalog@),
                            rc.processed as nat,
                            rc.translated as nat,
                            rc.failed as nat,
                        ));
                    }
                } else {
                    let (w1, w2) = choose|c1: Seq<bool>, c2: Seq<Option<Seq<char>>>|
                        #[trigger] loop_trace(
                            self.config@,
                            catalog_view(old(catalog)@),
                            c1,
                            c2,
                            catalog_view(catalog@),
                            rc.processed as nat,
                            rc.translated as nat,
                            rc.failed as nat,
                        );
                    assert(exists|c1: Seq<bool>, c2: Seq<Option<Seq<char>>>|
                        #[trigger] run_trace(
                            self.config@,
                            catalog_view(old(catalog)@),
                            c1,
                            c2,
                            catalog_view(catalog@),
                            rc.processed as nat,
                            rc.translated as nat,
                            rc.failed as nat,
                        )) by {
                        assert(run_trace(
                            self.config@,
                            catalog_view(old(catalog)@),
                            w1,
                            w2,
                            catalog_view(catalog@),
                            rc.processed as nat,
                            rc.translated as nat,
                            rc.failed as nat,
                        ));
                    }
                }
            }
        }
        res
    }
}

/// Whether the filter pattern matches the source reference at position `x` of
/// the packed location string.
pub open spec fn regex_matches_at(pattern: Seq<char>, locations: Seq<char>, x: int) -> bool {
    &&& 0 <= x < source_refs(locations).len()
    &&& crate::pattern::regex_matches(pattern, source_refs(locations)[x])
}

} // verus!
