use vstd::prelude::*;

verus! {

/// Mathematical view of one catalog entry: the source text, its current
/// translation, and the packed source-location references.
pub ghost struct MsgView {
    pub id: Seq<char>,
    pub translation: Seq<char>,
    pub locations: Seq<char>,
}

impl MsgView {
    /// An entry counts as translated exactly when its translation slot is non-empty.
    pub open spec fn is_translated(self) -> bool {
        self.translation.len() > 0
    }

    /// The entry as it looks after its translation slot is overwritten.
    pub open spec fn with_translation(self, t: Seq<char>) -> MsgView {
        MsgView { translation: t, ..self }
    }
}

/// One catalog entry: the source text to translate (`id`), the mutable
/// translation slot, and a single string packing zero or more `path:line`
/// references.
pub struct Message {
    pub id: String,
    pub translation: String,
    pub source_locations: String,
}

impl View for Message {
    type V = MsgView;

    open spec fn view(&self) -> MsgView {
        MsgView { id: self.id@, translation: self.translation@, locations: self.source_locations@ }
    }
}

impl Message {
    pub fn new(id: String, translation: String, source_locations: String) -> (m: Message)
        ensures
            m@ == (MsgView { id: id@, translation: translation@, locations: source_locations@ }),
    {
        Message { id, translation, source_locations }
    }

    /// Whether the translation slot is already set (non-empty).
    pub fn is_translated(&self) -> (b: bool)
        ensures
            b == self@.is_translated(),
    {
        !self.translation.as_str().is_empty()
    }
}

/// A catalog is an ordered sequence of messages; order is preserved on write.
pub type Catalog = Vec<Message>;

/// The view of a whole catalog: the sequence of entry views.
pub open spec fn catalog_view(messages: Seq<Message>) -> Seq<MsgView> {
    messages.map_values(|m: Message| m@)
}

/// Replacing one entry replaces one entry view.
pub proof fn lemma_catalog_view_update(s: Seq<Message>, i: int, m: Message)
    requires
        0 <= i < s.len(),
    ensures
        catalog_view(s.update(i, m)) == catalog_view(s).update(i, m@),
{
    assert(catalog_view(s.update(i, m)) =~= catalog_view(s).update(i, m@));
}

} // verus!
