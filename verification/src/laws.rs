//! What holds of previews whatever the configuration, the catalog and the
//! rendering engine's answers are.

use vstd::prelude::*;
use crate::config::{CitationClass, StyleFields};
use crate::preview::{empty_preview, is_blank, plan_of, preview_of};
use crate::sample::{lemma_empty_catalog_sample, sample_of};

verus! {

/// A rendered citation fills one slot only: the note slot for footnote and
/// endnote styles, the in-text slot for author-date and numeric styles. Where
/// the citation was planned and its text is not blank, that slot holds the
/// text.
pub proof fn lemma_slot_classification(
    fields: StyleFields,
    sample_len: nat,
    citation: Option<Seq<char>>,
    entries: Seq<Seq<char>>,
)
    ensures
        ({
            let set = preview_of(fields, sample_len, citation, entries);
            let shown = sample_len > 0 && citation is Some && !is_blank(citation->0);
            &&& fields.class == Some(CitationClass::Footnote) || fields.class == Some(
                CitationClass::Endnote,
            ) ==> set.in_text is None && (shown ==> set.note == citation)
            &&& fields.class == Some(CitationClass::AuthorDate) || fields.class == Some(
                CitationClass::Numeric,
            ) ==> set.note is None && (shown ==> set.in_text == citation)
            &&& fields.class is None ==> set == empty_preview()
        }),
{
}

/// A citation that the engine failed to render leaves both citation slots
/// absent, and does not touch the bibliography slot: that slot is what it
/// would have been had the citation been rendered.
pub proof fn lemma_render_failure_is_soft(
    fields: StyleFields,
    sample_len: nat,
    rendered: Option<Seq<char>>,
    entries: Seq<Seq<char>>,
)
    ensures
        preview_of(fields, sample_len, None, entries).in_text is None,
        preview_of(fields, sample_len, None, entries).note is None,
        preview_of(fields, sample_len, None, entries).bibliography == preview_of(
            fields,
            sample_len,
            rendered,
            entries,
        ).bibliography,
{
}

/// With an empty catalog every slot is absent, whatever the configuration and
/// whatever the engine might answer.
pub proof fn lemma_empty_catalog_preview(
    fields: StyleFields,
    citation: Option<Seq<char>>,
    entries: Seq<Seq<char>>,
)
    ensures
        plan_of(fields, sample_of(Seq::empty()).len()).citation == false,
        plan_of(fields, sample_of(Seq::empty()).len()).bibliography == false,
        preview_of(fields, sample_of(Seq::empty()).len(), citation, entries) == empty_preview(),
{
    lemma_empty_catalog_sample();
}

} // verus!
