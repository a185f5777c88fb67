use vstd::prelude::*;

use crate::classify::{accepts, CfgView};
use crate::message::MsgView;

verus! {

/// The state of one orchestration run over a catalog: the entries as mutated
/// so far, the three counters, and whether the run has stopped early (by
/// cancellation or by the translation cap).
pub ghost struct RunView {
    pub messages: Seq<MsgView>,
    pub processed: nat,
    pub translated: nat,
    pub failed: nat,
    pub stopped: bool,
}

impl RunView {
    /// The state before any entry has been visited.
    pub open spec fn start(cat: Seq<MsgView>) -> RunView {
        RunView { messages: cat, processed: 0, translated: 0, failed: 0, stopped: false }
    }

    /// Whether the translation cap has been reached.
    pub open spec fn limit_hit(self, limit: int) -> bool {
        limit > 0 && self.translated >= limit
    }
}

/// What visiting entry `i` does. A stopped run changes nothing more. Before an
/// entry is processed the cancellation flag is polled: when it is set the run
/// stops, the entry untouched. An entry the classifier rejects is passed over
/// without touching any counter. Otherwise the backend's outcome is recorded:
/// `Some(t)` overwrites the entry's translation and counts a success, `None`
/// leaves the entry as it was and counts a failure; both count the entry as
/// processed. When the translation cap is reached the run stops.
pub open spec fn run_step(
    cfg: CfgView,
    st: RunView,
    i: int,
    cancel: bool,
    outcome: Option<Seq<char>>,
) -> RunView {
    if st.stopped {
        st
    } else if cancel {
        RunView { stopped: true, ..st }
    } else if !accepts(cfg, st.messages[i]) {
        st
    } else {
        let st1 = match outcome {
            Option::Some(t) => RunView {
                messages: st.messages.update(i, st.messages[i].with_translation(t)),
                processed: st.processed + 1,
                translated: st.translated + 1,
                ..st
            },
            Option::None => RunView {
                processed: st.processed + 1,
                failed: st.failed + 1,
                ..st
            },
        };
        if st1.limit_hit(cfg.message_limit) {
            RunView { stopped: true, ..st1 }
        } else {
            st1
        }
    }
}

/// The run state after the first `n` entries have been visited, given the
/// cancellation flag observed before each entry and the backend outcome each
/// accepted entry would see.
pub open spec fn run_upto(
    cfg: CfgView,
    cat: Seq<MsgView>,
    cancels: Seq<bool>,
    outcomes: Seq<Option<Seq<char>>>,
    n: int,
) -> RunView
    decreases n,
{
    if n <= 0 {
        RunView::start(cat)
    } else {
        run_step(
            cfg,
            run_upto(cfg, cat, cancels, outcomes, n - 1),
            n - 1,
            cancels[n - 1],
            outcomes[n - 1],
        )
    }
}

/// A whole run over the catalog. The dry-run switch short-circuits the loop:
/// nothing is processed and the catalog is returned as loaded.
pub open spec fn run_model(
    cfg: CfgView,
    cat: Seq<MsgView>,
    cancels: Seq<bool>,
    outcomes: Seq<Option<Seq<char>>>,
) -> RunView {
    if cfg.skip_translation {
        RunView::start(cat)
    } else {
        run_upto(cfg, cat, cancels, outcomes, cat.len() as int)
    }
}

/// That a trace of cancellation observations and backend outcomes, one per
/// catalog entry, drives the loop from `cat` to exactly the catalog `result`
/// and these counter values.
pub open spec fn loop_trace(
    cfg: CfgView,
    cat: Seq<MsgView>,
    cancels: Seq<bool>,
    outcomes: Seq<Option<Seq<char>>>,
    result: Seq<MsgView>,
    processed: nat,
    translated: nat,
    failed: nat,
) -> bool {
    let st = run_upto(cfg, cat, cancels, outcomes, cat.len() as int);
    &&& cancels.len() == cat.len()
    &&& outcomes.len() == cat.len()
    &&& st.messages == result
    &&& st.processed == processed
    &&& st.translated == translated
    &&& st.failed == failed
}

/// As [`loop_trace`], for a whole run (the dry-run switch included).
pub open spec fn run_trace(
    cfg: CfgView,
    cat: Seq<MsgView>,
    cancels: Seq<bool>,
    outcomes: Seq<Option<Seq<char>>>,
    result: Seq<MsgView>,
    processed: nat,
    translated: nat,
    failed: nat,
) -> bool {
    let st = run_model(cfg, cat, cancels, outcomes);
    &&& cancels.len() == cat.len()
    &&& outcomes.len() == cat.len()
    &&& st.messages == result
    &&& st.processed == processed
    &&& st.translated == translated
    &&& st.failed == failed
}

/// How many of the first `n` entries the classifier accepts.
pub open spec fn count_accepted(cfg: CfgView, cat: Seq<MsgView>, n: int) -> int
    decreases n,
{
    if n <= 0 {
        0
    } else {
        count_accepted(cfg, cat, n - 1) + if accepts(cfg, cat[n - 1]) {
            1int
        } else {
            0int
        }
    }
}

/// How many of the first `n` entries are accepted and see a successful outcome.
pub open spec fn count_translated(
    cfg: CfgView,
    cat: Seq<MsgView>,
    outcomes: Seq<Option<Seq<char>>>,
    n: int,
) -> int
    decreases n,
{
    if n <= 0 {
        0
    } else {
        count_translated(cfg, cat, outcomes, n - 1) + if accepts(cfg, cat[n - 1]) && outcomes[n
            - 1] is Some {
            1int
        } else {
            0int
        }
    }
}

/// How many of the first `n` entries are accepted and see a failed outcome.
pub open spec fn count_failed(
    cfg: CfgView,
    cat: Seq<MsgView>,
    outcomes: Seq<Option<Seq<char>>>,
    n: int,
) -> int
    decreases n,
{
    if n <= 0 {
        0
    } else {
        count_failed(cfg, cat, outcomes, n - 1) + if accepts(cfg, cat[n - 1]) && outcomes[n
            - 1] is None {
            1int
        } else {
            0int
        }
    }
}

/// Frame facts of every run prefix: the catalog keeps its length, every
/// entry keeps its text and source locations, an entry beyond the visited
/// prefix or rejected by the classifier is untouched, the counters add up and
/// stay within the number of visited entries, and the translation cap is never
/// exceeded (the run stops the moment it is reached).
pub proof fn lemma_run_frame(
    cfg: CfgView,
    cat: Seq<MsgView>,
    cancels: Seq<bool>,
    outcomes: Seq<Option<Seq<char>>>,
    n: int,
)
    requires
        0 <= n <= cat.len(),
    ensures
        ({
            let st = run_upto(cfg, cat, cancels, outcomes, n);
            &&& st.messages.len() == cat.len()
            &&& forall|j: int| n <= j < cat.len() ==> st.messages[j] == cat[j]
            &&& forall|j: int|
                0 <= j < cat.len() ==> (#[trigger] st.messages[j]).id == cat[j].id
                    && st.messages[j].locations == cat[j].locations
            &&& forall|j: int|
                0 <= j < cat.len() && !accepts(cfg, #[trigger] cat[j]) ==> st.messages[j] == cat[j]
            &&& st.translated + st.failed == st.processed
            &&& st.processed <= n
            &&& cfg.message_limit > 0 ==> st.translated <= cfg.message_limit
            &&& st.limit_hit(cfg.message_limit) ==> st.stopped
        }),
    decreases n,
{
    if n > 0 {
        lemma_run_frame(cfg, cat, cancels, outcomes, n - 1);
    }
}

/// When every entry is already translated and translated entries are skipped,
/// a run touches nothing and counts nothing, whatever the backend would have
/// answered and whenever cancellation arrives: the classifier rejects every
/// entry by its first rule, so the backend is never called.
pub proof fn lemma_idempotent_on_skip(
    cfg: CfgView,
    cat: Seq<MsgView>,
    cancels: Seq<bool>,
    outcomes: Seq<Option<Seq<char>>>,
)
    requires
        cfg.skip_translated,
        forall|j: int| 0 <= j < cat.len() ==> (#[trigger] cat[j]).is_translated(),
    ensures
        run_model(cfg, cat, cancels, outcomes).messages == cat,
        run_model(cfg, cat, cancels, outcomes).processed == 0,
        run_model(cfg, cat, cancels, outcomes).translated == 0,
        run_model(cfg, cat, cancels, outcomes).failed == 0,
{
    if !cfg.skip_translation {
        lemma_skip_all_upto(cfg, cat, cancels, outcomes, cat.len() as int);
    }
}

/// The inductive core of [`lemma_idempotent_on_skip`], stated of every
/// prefix of the run.
pub proof fn lemma_skip_all_upto(
    cfg: CfgView,
    cat: Seq<MsgView>,
    cancels: Seq<bool>,
    outcomes: Seq<Option<Seq<char>>>,
    n: int,
)
    requires
        0 <= n <= cat.len(),
        cfg.skip_translated,
        forall|j: int| 0 <= j < cat.len() ==> (#[trigger] cat[j]).is_translated(),
    ensures
        run_upto(cfg, cat, cancels, outcomes, n).messages == cat,
        run_upto(cfg, cat, cancels, outcomes, n).processed == 0,
        run_upto(cfg, cat, cancels, outcomes, n).translated == 0,
        run_upto(cfg, cat, cancels, outcomes, n).failed == 0,
    decreases n,
{
    if n > 0 {
        lemma_skip_all_upto(cfg, cat, cancels, outcomes, n - 1);
        assert(!accepts(cfg, cat[n - 1]));
    }
}

/// Cancellation observed before the first entry stops the run at once: no
/// translation happens and the catalog comes back as it was loaded.
pub proof fn lemma_cancellation_honored(
    cfg: CfgView,
    cat: Seq<MsgView>,
    cancels: Seq<bool>,
    outcomes: Seq<Option<Seq<char>>>,
)
    requires
        cat.len() > 0 ==> cancels[0],
    ensures
        run_model(cfg, cat, cancels, outcomes).messages == cat,
        run_model(cfg, cat, cancels, outcomes).processed == 0,
        run_model(cfg, cat, cancels, outcomes).translated == 0,
        run_model(cfg, cat, cancels, outcomes).failed == 0,
{
    if !cfg.skip_translation && cat.len() > 0 {
        lemma_cancel_first_upto(cfg, cat, cancels, outcomes, cat.len() as int);
    }
}

proof fn lemma_cancel_first_upto(
    cfg: CfgView,
    cat: Seq<MsgView>,
    cancels: Seq<bool>,
    outcomes: Seq<Option<Seq<char>>>,
    n: int,
)
    requires
        1 <= n <= cat.len(),
        cancels[0],
    ensures
        run_upto(cfg, cat, cancels, outcomes, n) == (RunView {
            messages: cat,
            processed: 0,
            translated: 0,
            failed: 0,
            stopped: true,
        }),
    decreases n,
{
    if n > 1 {
        lemma_cancel_first_upto(cfg, cat, cancels, outcomes, n - 1);
    } else {
        assert(run_upto(cfg, cat, cancels, outcomes, 0) == RunView::start(cat));
    }
}

/// The translation cap is respected exactly: with a cap of `N > 0`, no
/// cancellation and a backend that always succeeds, a run translates exactly
/// the lesser of `N` and the number of accepted entries — the first accepted
/// entries in catalog order get the backend's answer, and every entry beyond
/// the cap, like every rejected entry, is left untouched.
pub proof fn lemma_cap_respected(
    cfg: CfgView,
    cat: Seq<MsgView>,
    cancels: Seq<bool>,
    outcomes: Seq<Option<Seq<char>>>,
)
    requires
        !cfg.skip_translation,
        cfg.message_limit > 0,
        forall|j: int| 0 <= j < cat.len() ==> !(#[trigger] cancels[j]),
        forall|j: int| 0 <= j < cat.len() ==> (#[trigger] outcomes[j]) is Some,
    ensures
        ({
            let st = run_model(cfg, cat, cancels, outcomes);
            let total = count_accepted(cfg, cat, cat.len() as int);
            &&& st.translated == if total <= cfg.message_limit {
                total
            } else {
                cfg.message_limit
            }
            &&& forall|j: int|
                0 <= j < cat.len() ==> st.messages[j] == (if accepts(cfg, #[trigger] cat[j])
                    && count_accepted(cfg, cat, j) < cfg.message_limit {
                    cat[j].with_translation(outcomes[j]->Some_0)
                } else {
                    cat[j]
                })
        }),
{
    lemma_cap_upto(cfg, cat, cancels, outcomes, cat.len() as int);
}

proof fn lemma_cap_upto(
    cfg: CfgView,
    cat: Seq<MsgView>,
    cancels: Seq<bool>,
    outcomes: Seq<Option<Seq<char>>>,
    n: int,
)
    requires
        0 <= n <= cat.len(),
        cfg.message_limit > 0,
        forall|j: int| 0 <= j < cat.len() ==> !(#[trigger] cancels[j]),
        forall|j: int| 0 <= j < cat.len() ==> (#[trigger] outcomes[j]) is Some,
    ensures
        ({
            let st = run_upto(cfg, cat, cancels, outcomes, n);
            let c = count_accepted(cfg, cat, n);
            &&& st.translated == if c <= cfg.message_limit {
                c
            } else {
                cfg.message_limit
            }
            &&& st.failed == 0
            &&& st.stopped <==> c >= cfg.message_limit
            &&& forall|j: int|
                0 <= j < n ==> st.messages[j] == (if accepts(cfg, #[trigger] cat[j])
                    && count_accepted(cfg, cat, j) < cfg.message_limit {
                    cat[j].with_translation(outcomes[j]->Some_0)
                } else {
                    cat[j]
                })
            &&& forall|j: int| n <= j < cat.len() ==> st.messages[j] == cat[j]
        }),
    decreases n,
{
    if n > 0 {
        lemma_cap_upto(cfg, cat, cancels, outcomes, n - 1);
        lemma_count_accepted_monotonic(cfg, cat, n - 1);
        lemma_run_frame(cfg, cat, cancels, outcomes, n - 1);
        let st0 = run_upto(cfg, cat, cancels, outcomes, n - 1);
        let st = run_upto(cfg, cat, cancels, outcomes, n);
        assert(st == run_step(cfg, st0, n - 1, cancels[n - 1], outcomes[n - 1]));
        assert(st0.messages[n - 1] == cat[n - 1]);
        assert(count_accepted(cfg, cat, n) == count_accepted(cfg, cat, n - 1) + if accepts(
            cfg,
            cat[n - 1],
        ) {
            1int
        } else {
            0int
        });
        assert forall|j: int|
            0 <= j < n implies st.messages[j] == (if accepts(cfg, #[trigger] cat[j])
            && count_accepted(cfg, cat, j) < cfg.message_limit {
            cat[j].with_translation(outcomes[j]->Some_0)
        } else {
            cat[j]
        }) by {
            if j < n - 1 {
                assert(st.messages[j] == st0.messages[j]);
            }
        }
    } else {
        assert(run_upto(cfg, cat, cancels, outcomes, 0) == RunView::start(cat));
    }
}

proof fn lemma_count_accepted_monotonic(cfg: CfgView, cat: Seq<MsgView>, n: int)
    requires
        0 <= n,
    ensures
        0 <= count_accepted(cfg, cat, n),
        forall|j: int|
            0 <= j <= n ==> #[trigger] count_accepted(cfg, cat, j) <= count_accepted(cfg, cat, n),
    decreases n,
{
    if n > 0 {
        lemma_count_accepted_monotonic(cfg, cat, n - 1);
    }
}

/// Per-item failures are isolated: with no cancellation and no cap, a run
/// visits every accepted entry; the ones whose backend call succeeds carry the
/// backend's answer afterwards, the ones whose call fails keep their prior
/// translation and are counted as failed, and the run still completes with
/// `processed` covering every accepted entry.
pub proof fn lemma_failure_isolation(
    cfg: CfgView,
    cat: Seq<MsgView>,
    cancels: Seq<bool>,
    outcomes: Seq<Option<Seq<char>>>,
)
    requires
        !cfg.skip_translation,
        cfg.message_limit <= 0,
        forall|j: int| 0 <= j < cat.len() ==> !(#[trigger] cancels[j]),
    ensures
        ({
            let st = run_model(cfg, cat, cancels, outcomes);
            let n = cat.len() as int;
            &&& st.processed == count_accepted(cfg, cat, n)
            &&& st.translated == count_translated(cfg, cat, outcomes, n)
            &&& st.failed == count_failed(cfg, cat, outcomes, n)
            &&& forall|j: int|
                0 <= j < n ==> st.messages[j] == (if accepts(cfg, #[trigger] cat[j])
                    && outcomes[j] is Some {
                    cat[j].with_translation(outcomes[j]->Some_0)
                } else {
                    cat[j]
                })
        }),
{
    lemma_isolation_upto(cfg, cat, cancels, outcomes, cat.len() as int);
}

proof fn lemma_isolation_upto(
    cfg: CfgView,
    cat: Seq<MsgView>,
    cancels: Seq<bool>,
    outcomes: Seq<Option<Seq<char>>>,
    n: int,
)
    requires
        0 <= n <= cat.len(),
        cfg.message_limit <= 0,
        forall|j: int| 0 <= j < cat.len() ==> !(#[trigger] cancels[j]),
    ensures
        ({
            let st = run_upto(cfg, cat, cancels, outcomes, n);
            &&& !st.stopped
            &&& st.processed == count_accepted(cfg, cat, n)
            &&& st.translated == count_translated(cfg, cat, outcomes, n)
            &&& st.failed == count_failed(cfg, cat, outcomes, n)
            &&& forall|j: int|
                0 <= j < n ==> st.messages[j] == (if accepts(cfg, #[trigger] cat[j])
                    && outcomes[j] is Some {
                    cat[j].with_translation(outcomes[j]->Some_0)
                } else {
                    cat[j]
                })
            &&& forall|j: int| n <= j < cat.len() ==> st.messages[j] == cat[j]
        }),
    decreases n,
{
    if n > 0 {
        lemma_isolation_upto(cfg, cat, cancels, outcomes, n - 1);
        lemma_run_frame(cfg, cat, cancels, outcomes, n - 1);
        let st0 = run_upto(cfg, cat, cancels, outcomes, n - 1);
        let st = run_upto(cfg, cat, cancels, outcomes, n);
        assert(st == run_step(cfg, st0, n - 1, cancels[n - 1], outcomes[n - 1]));
        assert(st0.messages[n - 1] == cat[n - 1]);
        assert forall|j: int|
            0 <= j < n implies st.messages[j] == (if accepts(cfg, #[trigger] cat[j])
            && outcomes[j] is Some {
            cat[j].with_translation(outcomes[j]->Some_0)
        } else {
            cat[j]
        }) by {
            if j < n - 1 {
                assert(st.messages[j] == st0.messages[j]);
            }
        }
    } else {
        assert(run_upto(cfg, cat, cancels, outcomes, 0) == RunView::start(cat));
    }
}

/// A run only reads the flags and outcomes of the entries it visits: two
/// traces that agree on the first `n` positions drive a prefix of length `n`
/// to the same state.
pub proof fn lemma_run_upto_agrees(
    cfg: CfgView,
    cat: Seq<MsgView>,
    cancels1: Seq<bool>,
    outcomes1: Seq<Option<Seq<char>>>,
    cancels2: Seq<bool>,
    outcomes2: Seq<Option<Seq<char>>>,
    n: int,
)
    requires
        forall|j: int| 0 <= j < n ==> cancels1[j] == cancels2[j],
        forall|j: int| 0 <= j < n ==> outcomes1[j] == outcomes2[j],
    ensures
        run_upto(cfg, cat, cancels1, outcomes1, n) == run_upto(cfg, cat, cancels2, outcomes2, n),
    decreases n,
{
    if n > 0 {
        lemma_run_upto_agrees(cfg, cat, cancels1, outcomes1, cancels2, outcomes2, n - 1);
    }
}

/// Once a run has stopped, the remaining entries change nothing: the state
/// after the whole catalog equals the state at the stop.
pub proof fn lemma_run_upto_stopped(
    cfg: CfgView,
    cat: Seq<MsgView>,
    cancels: Seq<bool>,
    outcomes: Seq<Option<Seq<char>>>,
    m: int,
    n: int,
)
    requires
        0 <= m <= n,
        run_upto(cfg, cat, cancels, outcomes, m).stopped,
    ensures
        run_upto(cfg, cat, cancels, outcomes, n) == run_upto(cfg, cat, cancels, outcomes, m),
    decreases n - m,
{
    if n > m {
        lemma_run_upto_stopped(cfg, cat, cancels, outcomes, m, n - 1);
    }
}

} // verus!
