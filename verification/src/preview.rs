//! Preview sets: what is rendered for a configuration, and how the rendered
//! text is sorted into slots.
//!
//! The rendering engine is the caller's. The engine here says what to ask of
//! it (`plan_render`), and turns what came back into a preview set
//! (`assemble_preview`) and into the markup of a choice card (`collapse`).

use vstd::prelude::*;
use vstd::string::StringExecFns;
use vstd::string::StrSliceExecFns;
use crate::config::{slot_of, CitationSlot, StyleFields};

verus! {

/// The three preview slots of one configuration. A slot is `None` where
/// nothing could be rendered for it.
#[derive(Clone, Debug, PartialEq, Eq)]
pub struct PreviewSet {
    pub in_text: Option<String>,
    pub note: Option<String>,
    pub bibliography: Option<String>,
}

/// A preview set as text.
pub struct PreviewSetView {
    pub in_text: Option<Seq<char>>,
    pub note: Option<Seq<char>>,
    pub bibliography: Option<Seq<char>>,
}

/// A text slot as text.
pub open spec fn slot_view(slot: Option<String>) -> Option<Seq<char>> {
    match slot {
        Some(text) => Some(text@),
        None => None,
    }
}

impl View for PreviewSet {
    type V = PreviewSetView;

    open spec fn view(&self) -> PreviewSetView {
        PreviewSetView {
            in_text: slot_view(self.in_text),
            note: slot_view(self.note),
            bibliography: slot_view(self.bibliography),
        }
    }
}

/// The preview set with every slot absent.
pub open spec fn empty_preview() -> PreviewSetView {
    PreviewSetView { in_text: None, note: None, bibliography: None }
}

impl PreviewSet {
    /// The preview set with every slot absent.
    pub fn empty() -> (set: PreviewSet)
        ensures
            set@ == empty_preview(),
    {
        PreviewSet { in_text: None, note: None, bibliography: None }
    }
}

/// What the rendering engine is to be asked for one configuration.
#[derive(Clone, Copy, Debug, PartialEq, Eq, Structural)]
pub struct RenderPlan {
    /// Render one citation that cites every sampled identifier.
    pub citation: bool,
    /// Render the bibliography of the sampled entries.
    pub bibliography: bool,
}

/// The plan for a configuration and a sample of the given size: nothing for
/// an empty sample or an undecided citation class; otherwise the citation,
/// and the bibliography where the configuration wants one.
pub open spec fn plan_of(fields: StyleFields, sample_len: nat) -> RenderPlan {
    let citation = sample_len > 0 && fields.class is Some;
    RenderPlan { citation, bibliography: citation && fields.wants_bibliography_spec() }
}

/// Says what to ask of the rendering engine for a configuration and a sample.
pub fn plan_render(fields: StyleFields, sample: &Vec<String>) -> (plan: RenderPlan)
    ensures
        plan == plan_of(fields, sample@.len()),
{
    let citation = sample.len() > 0 && fields.class.is_some();
    RenderPlan { citation, bibliography: citation && fields.wants_bibliography() }
}

/// What the rendering engine answered to a citation request.
#[derive(Debug)]
pub enum CitationOutcome {
    /// The engine was not asked.
    Skipped,
    /// The engine rendered this text.
    Text(String),
    /// The engine reported an error.
    Failed,
}

impl CitationOutcome {
    /// The rendered text, where there is one.
    pub open spec fn text(self) -> Option<Seq<char>> {
        match self {
            CitationOutcome::Text(text) => Some(text@),
            _ => None,
        }
    }
}

/// White space, by the Unicode property of that name.
pub open spec fn is_white_space(c: char) -> bool {
    ||| '\u{9}' <= c <= '\u{D}'
    ||| c == ' '
    ||| c == '\u{85}'
    ||| c == '\u{A0}'
    ||| c == '\u{1680}'
    ||| '\u{2000}' <= c <= '\u{200A}'
    ||| c == '\u{2028}'
    ||| c == '\u{2029}'
    ||| c == '\u{202F}'
    ||| c == '\u{205F}'
    ||| c == '\u{3000}'
}

/// Whether a text holds nothing but white space. The empty text is blank.
pub open spec fn is_blank(text: Seq<char>) -> bool {
    forall|i: int| 0 <= i < text.len() ==> is_white_space(#[trigger] text[i])
}

fn white_space(c: char) -> (white: bool)
    ensures
        white == is_white_space(c),
{
    ('\u{9}' <= c && c <= '\u{D}') || c == ' ' || c == '\u{85}' || c == '\u{A0}' || c == '\u{1680}'
        || ('\u{2000}' <= c && c <= '\u{200A}') || c == '\u{2028}' || c == '\u{2029}' || c
        == '\u{202F}' || c == '\u{205F}' || c == '\u{3000}'
}

/// Whether a text holds nothing but white space.
pub fn blank(text: &str) -> (all_white: bool)
    ensures
        all_white == is_blank(text@),
{
    let n = text.unicode_len();
    let mut i: usize = 0;
    while i < n
        invariant
            i <= n,
            n == text@.len(),
            forall|j: int| 0 <= j < i ==> is_white_space(#[trigger] text@[j]),
        decreases n - i,
    {
        if !white_space(text.get_char(i)) {
            return false;
        }
        i += 1;
    }
    true
}

/// The markup that opens a bibliography entry.
pub open spec fn entry_open() -> Seq<char> {
    "<div class='bib-entry'>"@
}

/// The markup that opens a citation block of a choice card.
pub open spec fn citation_open() -> Seq<char> {
    "<div class='cit'>"@
}

/// The markup that opens the bibliography block of a choice card.
pub open spec fn bibliography_open() -> Seq<char> {
    "<div class='bib'>"@
}

/// The markup that closes any block.
pub open spec fn block_close() -> Seq<char> {
    "</div>"@
}

/// The bibliography slot for a list of rendered entries: each entry in a
/// container of its own, one after the other, in the order given.
pub open spec fn bibliography_html(entries: Seq<Seq<char>>) -> Seq<char>
    decreases entries.len(),
{
    if entries.len() == 0 {
        Seq::empty()
    } else {
        bibliography_html(entries.drop_last()) + entry_open() + entries.last() + block_close()
    }
}

/// The preview set for a configuration, the size of its sample, the text of
/// the rendered citation (if the engine gave one) and the rendered
/// bibliography entries.
///
/// Nothing is planned for an empty sample or an undecided class, and then
/// every slot is absent. Otherwise a citation text that is not blank fills
/// the slot of the class, and the other citation slot stays absent; the
/// bibliography slot is filled where the configuration wants a bibliography
/// and at least one entry was rendered.
pub open spec fn preview_of(
    fields: StyleFields,
    sample_len: nat,
    citation: Option<Seq<char>>,
    entries: Seq<Seq<char>>,
) -> PreviewSetView {
    let plan = plan_of(fields, sample_len);
    let shown = if plan.citation && citation is Some && !is_blank(citation->0) {
        citation
    } else {
        None
    };
    PreviewSetView {
        in_text: if fields.class is Some && slot_of(fields.class->0) == CitationSlot::InText {
            shown
        } else {
            None
        },
        note: if fields.class is Some && slot_of(fields.class->0) == CitationSlot::Note {
            shown
        } else {
            None
        },
        bibliography: if plan.bibliography && entries.len() > 0 {
            Some(bibliography_html(entries))
        } else {
            None
        },
    }
}

/// Wraps each rendered bibliography entry in its container and joins them.
pub fn wrap_entries(entries: &Vec<String>) -> (html: String)
    ensures
        html@ == bibliography_html(entries.deep_view()),
{
    let mut html = String::new();
    let mut i: usize = 0;
    assert(entries.deep_view().take(0) =~= Seq::<Seq<char>>::empty());
    while i < entries.len()
        invariant
            i <= entries@.len(),
            html@ == bibliography_html(entries.deep_view().take(i as int)),
        decreases entries@.len() - i,
    {
        let ghost done = entries.deep_view().take(i as int);
        let ghost next = entries.deep_view().take(i as int + 1);
        assert(next.drop_last() =~= done);
        assert(next.last() == entries@[i as int]@);
        html.append("<div class='bib-entry'>");
        html.append(entries[i].as_str());
        html.append("</div>");
        i += 1;
    }
    assert(entries.deep_view().take(i as int) =~= entries.deep_view());
    html
}

/// Builds the preview set of a configuration from what the rendering engine
/// answered.
///
/// A failed or skipped citation leaves the citation slots absent: a render
/// error is never passed on. What the engine answered to a request that was
/// not planned is ignored.
pub fn assemble_preview(
    fields: StyleFields,
    sample: &Vec<String>,
    citation: CitationOutcome,
    entries: &Vec<String>,
) -> (set: PreviewSet)
    ensures
        set@ == preview_of(fields, sample@.len(), citation.text(), entries.deep_view()),
{
    let mut set = PreviewSet::empty();
    let plan = plan_render(fields, sample);
    if !plan.citation {
        return set;
    }
    let class = match fields.class {
        Some(class) => class,
        None => { return set; },
    };
    match citation {
        CitationOutcome::Text(text) => {
            if !blank(text.as_str()) {
                match class.slot() {
                    CitationSlot::InText => { set.in_text = Some(text); },
                    CitationSlot::Note => { set.note = Some(text); },
                }
            }
        },
        _ => {},
    }
    if plan.bibliography && entries.len() > 0 {
        set.bibliography = Some(wrap_entries(entries));
    }
    set
}

/// One block of a choice card: the slot's text between its opening markup and
/// the closing markup, or nothing for an absent slot.
pub open spec fn block(open: Seq<char>, slot: Option<Seq<char>>) -> Seq<char> {
    match slot {
        Some(text) => open + text + block_close(),
        None => Seq::empty(),
    }
}

/// The markup of a choice card for a preview set: a block for each slot that
/// is present, in-text first, then note, then bibliography.
pub open spec fn collapsed(set: PreviewSetView) -> Seq<char> {
    block(citation_open(), set.in_text) + block(citation_open(), set.note) + block(
        bibliography_open(),
        set.bibliography,
    )
}

fn append_block(html: &mut String, open: &str, slot: &Option<String>)
    ensures
        final(html)@ == old(html)@ + block(open@, slot_view(*slot)),
{
    match slot {
        Some(text) => {
            html.append(open);
            html.append(text.as_str());
            html.append("</div>");
        },
        None => {},
    }
}

/// Collapses a preview set into the markup of a choice card.
pub fn collapse(set: &PreviewSet) -> (html: String)
    ensures
        html@ == collapsed(set@),
{
    let mut html = String::new();
    append_block(&mut html, "<div class='cit'>", &set.in_text);
    append_block(&mut html, "<div class='cit'>", &set.note);
    append_block(&mut html, "<div class='bib'>", &set.bibliography);
    html
}

} // verus!
