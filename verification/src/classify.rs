use vstd::prelude::*;

use crate::message::MsgView;
use crate::pattern::regex_matches;
use crate::sources::source_refs;

verus! {

/// Mathematical view of a filter configuration: the switches, the patterns of
/// the three optional filters, and the translation cap.
pub ghost struct CfgView {
    pub skip_translation: bool,
    pub skip_translated: bool,
    pub skip_code_blocks: bool,
    pub skip_formula_blocks: bool,
    pub skip_md_image_file: bool,
    pub skip_text: bool,
    pub source_pattern: Option<Seq<char>>,
    pub include_pattern: Option<Seq<char>>,
    pub exclude_pattern: Option<Seq<char>>,
    pub message_limit: int,
}

/// A fenced code block: the text opens with three backticks.
pub open spec fn is_code_block(id: Seq<char>) -> bool {
    "```"@.is_prefix_of(id)
}

/// A formula block: the text opens with `$$`.
pub open spec fn is_formula_block(id: Seq<char>) -> bool {
    "$$"@.is_prefix_of(id)
}

/// A Markdown image reference: either the literal prefix of an image link with
/// empty alt text, or the general shape that opens with `![` and closes with `)`.
pub open spec fn is_md_image(id: Seq<char>) -> bool {
    "![]("@.is_prefix_of(id) || ("!["@.is_prefix_of(id) && ")"@.is_suffix_of(id))
}

/// The content-shape rules, mutually exclusive and tested in this order
/// against the text: code block, single character (always rejected), formula
/// block, Markdown image, plain text.
pub open spec fn shape_rejects(cfg: CfgView, id: Seq<char>) -> bool {
    if is_code_block(id) {
        cfg.skip_code_blocks
    } else if id.len() == 1 {
        true
    } else if is_formula_block(id) {
        cfg.skip_formula_blocks
    } else if is_md_image(id) {
        cfg.skip_md_image_file
    } else {
        cfg.skip_text
    }
}

/// The source filter: when configured, at least one of the `path:line`
/// references packed into `locations` must match it.
pub open spec fn source_passes(cfg: CfgView, locations: Seq<char>) -> bool {
    match cfg.source_pattern {
        Option::None => true,
        Option::Some(p) => exists|k: int|
            0 <= k < source_refs(locations).len() && regex_matches(p, source_refs(locations)[k]),
    }
}

/// The include filter: when configured, the text itself must match it.
pub open spec fn include_passes(cfg: CfgView, id: Seq<char>) -> bool {
    match cfg.include_pattern {
        Option::None => true,
        Option::Some(p) => regex_matches(p, id),
    }
}

/// The exclude filter: when configured, the text must not match it.
pub open spec fn exclude_passes(cfg: CfgView, id: Seq<char>) -> bool {
    match cfg.exclude_pattern {
        Option::None => true,
        Option::Some(p) => !regex_matches(p, id),
    }
}

/// The classifier: whether a message is sent to the translator. Evaluated as
/// an ordered decision list whose first matching rule decides; since every
/// rule can only reject, that is the conjunction of the individual gates.
pub open spec fn accepts(cfg: CfgView, m: MsgView) -> bool {
    &&& !(cfg.skip_translated && m.is_translated())
    &&& !shape_rejects(cfg, m.id)
    &&& source_passes(cfg, m.locations)
    &&& include_passes(cfg, m.id)
    &&& exclude_passes(cfg, m.id)
}

/// A message whose text matches both the include filter and the exclude
/// filter is rejected: the exclude filter is evaluated after the include
/// filter and wins.
pub proof fn lemma_exclude_wins(cfg: CfgView, m: MsgView)
    requires
        cfg.include_pattern matches Some(p) && regex_matches(p, m.id),
        cfg.exclude_pattern matches Some(q) && regex_matches(q, m.id),
    ensures
        !accepts(cfg, m),
{
}

} // verus!
