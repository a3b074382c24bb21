//! The fields of a style configuration that the engine reads.

use vstd::prelude::*;

verus! {

/// How citations are placed in running text.
#[derive(Clone, Copy, Debug, PartialEq, Eq, Structural)]
pub enum CitationClass {
    AuthorDate,
    Footnote,
    Endnote,
    Numeric,
}

/// The slot of a preview set that a rendered citation fills.
#[derive(Clone, Copy, Debug, PartialEq, Eq, Structural)]
pub enum CitationSlot {
    InText,
    Note,
}

/// The slot rule: author-date and numeric citations are shown in the text,
/// footnote and endnote citations are shown as notes.
pub open spec fn slot_of(class: CitationClass) -> CitationSlot {
    match class {
        CitationClass::AuthorDate => CitationSlot::InText,
        CitationClass::Numeric => CitationSlot::InText,
        CitationClass::Footnote => CitationSlot::Note,
        CitationClass::Endnote => CitationSlot::Note,
    }
}

impl CitationClass {
    /// The slot that a rendered citation of this class fills.
    pub fn slot(self) -> (slot: CitationSlot)
        ensures
            slot == slot_of(self),
    {
        match self {
            CitationClass::AuthorDate => CitationSlot::InText,
            CitationClass::Numeric => CitationSlot::InText,
            CitationClass::Footnote => CitationSlot::Note,
            CitationClass::Endnote => CitationSlot::Note,
        }
    }
}

/// What the engine reads of a style configuration: the citation class and the
/// bibliography flag. Either may be undecided.
#[derive(Clone, Copy, Debug, PartialEq, Eq, Structural)]
pub struct StyleFields {
    pub class: Option<CitationClass>,
    pub has_bibliography: Option<bool>,
}

impl StyleFields {
    /// Whether a bibliography is wanted: an undecided flag counts as no.
    pub open spec fn wants_bibliography_spec(self) -> bool {
        self.has_bibliography == Some(true)
    }

    /// Whether a bibliography is wanted: an undecided flag counts as no.
    #[verifier::when_used_as_spec(wants_bibliography_spec)]
    pub fn wants_bibliography(self) -> (wanted: bool)
        ensures
            wanted == self.wants_bibliography_spec(),
    {
        match self.has_bibliography {
            Some(flag) => flag,
            None => false,
        }
    }
}

} // verus!
