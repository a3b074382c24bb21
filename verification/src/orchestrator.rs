//! The order in which the previews of one decision are made.
//!
//! Rendering is the caller's work, so the orchestrator is a state machine:
//! it says what to render next, takes what was rendered, and keeps the
//! results. The preview of the current configuration comes first, then one
//! preview for each candidate choice, in the order of the choices. A choice
//! whose merged configuration cannot be decoded gets an empty card, and the
//! choices after it are previewed as if nothing had happened.

use vstd::prelude::*;
use crate::merge::{is_merge_of, speculate};
use crate::preview::{collapse, collapsed, PreviewSet, PreviewSetView};

verus! {

/// What the caller is to do next.
#[derive(Debug)]
pub enum Action {
    /// Render the preview of the current configuration.
    RenderCurrent,
    /// Decode this merged configuration and render its preview: the current
    /// configuration with the choice at `index` laid over it.
    RenderChoice { index: usize, config: serde_json::Value },
    /// Nothing is left to render.
    Finish,
}

/// What came of previewing one candidate choice.
#[derive(Debug)]
pub enum ChoiceOutcome {
    /// The merged configuration could not be decoded.
    Undecodable,
    /// The merged configuration was decoded and previewed.
    Previewed(PreviewSet),
}

/// What the caller reports back.
#[derive(Debug)]
pub enum Event {
    /// The preview of the current configuration.
    Current(PreviewSet),
    /// The outcome for the choice that was asked for last.
    Choice(ChoiceOutcome),
}

/// The previews of one decision.
#[derive(Debug)]
pub struct DecisionPreviews {
    /// The preview of the current configuration, once it was reported.
    pub current: Option<PreviewSet>,
    /// The cards of the candidate choices, in the order of the choices, as
    /// far as they were made.
    pub cards: Vec<String>,
}

/// Where the orchestrator stands.
pub enum Phase {
    /// The preview of the current configuration is awaited.
    AwaitCurrent,
    /// The outcome for the choice at this position is awaited.
    AwaitChoice(nat),
    /// Every preview is made.
    Done,
}

/// What the orchestrator has gathered.
pub struct Progress {
    pub current: Option<PreviewSetView>,
    pub cards: Seq<Seq<char>>,
}

/// The card of a choice: the collapsed preview, or nothing where the merged
/// configuration could not be decoded.
pub open spec fn card_of(outcome: ChoiceOutcome) -> Seq<char> {
    match outcome {
        ChoiceOutcome::Undecodable => Seq::empty(),
        ChoiceOutcome::Previewed(set) => collapsed(set@),
    }
}

/// What is gathered before anything was rendered. Without a configuration
/// value to merge into, no choice can be tried, and every card is empty from
/// the start.
pub open spec fn initial(has_config: bool, choices: nat) -> Progress {
    Progress {
        current: None,
        cards: if has_config {
            Seq::empty()
        } else {
            Seq::new(choices, |i: int| Seq::<char>::empty())
        },
    }
}

/// The phase for what has been gathered, with the given number of choices.
pub open spec fn phase_of(progress: Progress, choices: nat) -> Phase {
    if progress.current is None {
        Phase::AwaitCurrent
    } else if progress.cards.len() < choices {
        Phase::AwaitChoice(progress.cards.len())
    } else {
        Phase::Done
    }
}

/// What is gathered after an event. The preview of the current configuration
/// is taken while it is awaited, the outcome of a choice while one is
/// awaited; an event that is not awaited changes nothing.
pub open spec fn next(progress: Progress, choices: nat, event: Event) -> Progress {
    match (phase_of(progress, choices), event) {
        (Phase::AwaitCurrent, Event::Current(set)) => Progress { current: Some(set@), ..progress },
        (Phase::AwaitChoice(_), Event::Choice(outcome)) => Progress {
            cards: progress.cards.push(card_of(outcome)),
            ..progress
        },
        _ => progress,
    }
}

/// Whether an action is the one that is due in the given state.
pub open spec fn is_due(
    action: Action,
    config: Option<serde_json::Value>,
    fragments: Seq<serde_json::Value>,
    progress: Progress,
) -> bool {
    match phase_of(progress, fragments.len()) {
        Phase::AwaitCurrent => action is RenderCurrent,
        Phase::AwaitChoice(position) => {
            &&& action matches Action::RenderChoice { index, config: merged }
            &&& index == position
            &&& config is Some
            &&& is_merge_of(merged, config->0, fragments[position as int])
        },
        Phase::Done => action is Finish,
    }
}

/// What is gathered after a run of events, taken one after the other.
pub open spec fn replay(progress: Progress, choices: nat, events: Seq<Event>) -> Progress
    decreases events.len(),
{
    if events.len() == 0 {
        progress
    } else {
        next(replay(progress, choices, events.drop_last()), choices, events.last())
    }
}

/// The orchestrator of one decision.
pub struct Orchestrator {
    config: Option<serde_json::Value>,
    fragments: Vec<serde_json::Value>,
    current: Option<PreviewSet>,
    cards: Vec<String>,
}

/// A preview slot set as text, where there is one.
pub open spec fn set_view(set: Option<PreviewSet>) -> Option<PreviewSetView> {
    match set {
        Some(set) => Some(set@),
        None => None,
    }
}

impl Orchestrator {
    /// The current configuration as a JSON value, if there is one.
    pub closed spec fn config(&self) -> Option<serde_json::Value> {
        self.config
    }

    /// The fragments of the candidate choices, in order.
    pub closed spec fn fragments(&self) -> Seq<serde_json::Value> {
        self.fragments@
    }

    /// What has been gathered so far.
    pub closed spec fn progress(&self) -> Progress {
        Progress { current: set_view(self.current), cards: self.cards.deep_view() }
    }

    /// Where the orchestrator stands.
    pub open spec fn phase(&self) -> Phase {
        phase_of(self.progress(), self.fragments().len())
    }

    #[verifier::type_invariant]
    spec fn consistent(&self) -> bool {
        &&& self.cards@.len() <= self.fragments@.len()
        &&& self.config is None ==> self.cards@.len() == self.fragments@.len()
    }

    /// Starts the previews of one decision: the current configuration as a
    /// JSON value (`None` if it has none) and the fragments of the candidate
    /// choices.
    pub fn start(config: Option<serde_json::Value>, fragments: Vec<serde_json::Value>) -> (machine:
        Self)
        ensures
            machine.config() == config,
            machine.fragments() == fragments@,
            machine.progress() == initial(config is Some, fragments@.len()),
    {
        let mut cards: Vec<String> = Vec::new();
        if config.is_none() {
            while cards.len() < fragments.len()
                invariant
                    cards@.len() <= fragments@.len(),
                    forall|i: int| 0 <= i < cards@.len() ==> cards@[i]@ == Seq::<char>::empty(),
                decreases fragments@.len() - cards@.len(),
            {
                cards.push(String::new());
            }
        }
        let machine = Orchestrator { config, fragments, current: None, cards };
        assert(machine.progress().cards =~= initial(config is Some, fragments@.len()).cards);
        machine
    }

    /// The action that is due now. Asking changes nothing: the merged
    /// configuration of a choice is made on a copy.
    pub fn pending(&self) -> (action: Action)
        ensures
            is_due(action, self.config(), self.fragments(), self.progress()),
    {
        proof {
            use_type_invariant(self);
        }
        if self.current.is_none() {
            return Action::RenderCurrent;
        }
        let index = self.cards.len();
        if index < self.fragments.len() {
            match &self.config {
                Some(config) => Action::RenderChoice {
                    index,
                    config: speculate(config, &self.fragments[index]),
                },
                None => Action::Finish,
            }
        } else {
            Action::Finish
        }
    }

    /// Takes an event and says what is due next.
    ///
    /// Neither the configuration nor any fragment is changed, whatever the
    /// event. An event that is not awaited is dropped.
    pub fn step(&mut self, event: Event) -> (action: Action)
        ensures
            final(self).config() == old(self).config(),
            final(self).fragments() == old(self).fragments(),
            final(self).progress() == next(old(self).progress(), old(self).fragments().len(), event),
            is_due(action, final(self).config(), final(self).fragments(), final(self).progress()),
    {
        proof {
            use_type_invariant(&*self);
        }
        let ghost before = self.progress();
        match event {
            Event::Current(set) => {
                if self.current.is_none() {
                    self.current = Some(set);
                }
            },
            Event::Choice(outcome) => {
                if self.current.is_some() && self.cards.len() < self.fragments.len() {
                    let card = match &outcome {
                        ChoiceOutcome::Undecodable => String::new(),
                        ChoiceOutcome::Previewed(set) => collapse(set),
                    };
                    let mut cards: Vec<String> = Vec::new();
                    std::mem::swap(&mut cards, &mut self.cards);
                    cards.push(card);
                    assert(cards.deep_view() =~= before.cards.push(card_of(outcome)));
                    self.cards = cards;
                }
            },
        }
        self.pending()
    }

    /// Whether every preview is made.
    pub fn is_done(&self) -> (done: bool)
        ensures
            done == (self.phase() is Done),
    {
        self.current.is_some() && self.cards.len() >= self.fragments.len()
    }

    /// Hands out what was gathered.
    pub fn finish(self) -> (previews: DecisionPreviews)
        ensures
            set_view(previews.current) == self.progress().current,
            previews.cards.deep_view() == self.progress().cards,
            previews.cards@.len() == self.progress().cards.len(),
            forall|i: int|
                0 <= i < previews.cards@.len() ==> (#[trigger] previews.cards@[i])@
                    == self.progress().cards[i],
    {
        assert forall|i: int| 0 <= i < self.cards@.len() implies (#[trigger] self.cards@[i])@
            == self.progress().cards[i] by {
            assert(self.cards.deep_view()[i] == self.cards@[i]@);
        }
        DecisionPreviews { current: self.current, cards: self.cards }
    }
}

/// The events of a whole run: the preview of the current configuration, then
/// the outcome of each choice in order.
pub open spec fn whole_run(current: PreviewSet, outcomes: Seq<ChoiceOutcome>) -> Seq<Event> {
    Seq::new(
        outcomes.len() + 1,
        |i: int|
            if i == 0 {
                Event::Current(current)
            } else {
                Event::Choice(outcomes[i - 1])
            },
    )
}

/// After the preview of the current configuration and the outcomes of the
/// first `done` choices, exactly those are gathered: the card at each position
/// is the card of the outcome at that position.
pub proof fn lemma_run_gathers(current: PreviewSet, outcomes: Seq<ChoiceOutcome>, done: nat)
    requires
        done <= outcomes.len(),
    ensures
        replay(initial(true, outcomes.len()), outcomes.len(), whole_run(current, outcomes).take(
            done as int + 1,
        )) == (Progress {
            current: Some(current@),
            cards: Seq::new(done, |i: int| card_of(outcomes[i])),
        }),
    decreases done,
{
    let choices = outcomes.len();
    let events = whole_run(current, outcomes);
    let start = initial(true, choices);
    if done == 0 {
        let first = events.take(1);
        assert(first.drop_last() =~= Seq::<Event>::empty());
        assert(replay(start, choices, first.drop_last()) == start);
        assert(first.last() == Event::Current(current));
        assert(Seq::new(0, |i: int| card_of(outcomes[i])) =~= Seq::<Seq<char>>::empty());
    } else {
        lemma_run_gathers(current, outcomes, (done - 1) as nat);
        let run = events.take(done as int + 1);
        assert(run.drop_last() =~= events.take(done as int));
        assert(run.last() == Event::Choice(outcomes[done - 1]));
        let earlier = Seq::new((done - 1) as nat, |i: int| card_of(outcomes[i]));
        assert(earlier.push(card_of(outcomes[done - 1])) =~= Seq::new(
            done,
            |i: int| card_of(outcomes[i]),
        ));
    }
}

/// A whole run ends with every preview made, and with the card of each choice
/// made from the outcome of that choice alone.
pub proof fn lemma_whole_run(current: PreviewSet, outcomes: Seq<ChoiceOutcome>)
    ensures
        ({
            let end = replay(
                initial(true, outcomes.len()),
                outcomes.len(),
                whole_run(current, outcomes),
            );
            &&& phase_of(end, outcomes.len()) is Done
            &&& end.current == Some(current@)
            &&& end.cards.len() == outcomes.len()
            &&& forall|i: int| 0 <= i < outcomes.len() ==> end.cards[i] == card_of(outcomes[i])
        }),
{
    lemma_run_gathers(current, outcomes, outcomes.len());
    assert(whole_run(current, outcomes).take(outcomes.len() as int + 1) =~= whole_run(current, outcomes));
}

/// The card of one choice does not depend on what became of any other: two
/// runs whose outcomes agree for a choice give that choice the same card,
/// however the outcomes of the other choices differ.
pub proof fn lemma_choice_independence(
    current: PreviewSet,
    first: Seq<ChoiceOutcome>,
    second: Seq<ChoiceOutcome>,
    position: int,
)
    requires
        first.len() == second.len(),
        0 <= position < first.len(),
        first[position] == second[position],
    ensures
        replay(initial(true, first.len()), first.len(), whole_run(current, first)).cards[position]
            == replay(initial(true, second.len()), second.len(), whole_run(current, second)).cards[position],
{
    lemma_whole_run(current, first);
    lemma_whole_run(current, second);
}

/// The merged configuration that is due for a choice is made from the current
/// configuration and the fragment of that choice alone: whether an action is
/// due does not change when the fragments of other choices do.
pub proof fn lemma_due_ignores_other_fragments(
    action: Action,
    config: Option<serde_json::Value>,
    first: Seq<serde_json::Value>,
    second: Seq<serde_json::Value>,
    progress: Progress,
)
    requires
        first.len() == second.len(),
        phase_of(progress, first.len()) matches Phase::AwaitChoice(position) && first[position as int]
            == second[position as int],
    ensures
        is_due(action, config, first, progress) == is_due(action, config, second, progress),
{
}

} // verus!
