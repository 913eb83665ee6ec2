//! Transition accumulator and registry.
//!
//! An [`EventTransitions`] record holds the transition targets reachable
//! from one state under one event, in the order they were observed. The
//! [`Transitions`] registry archives finalized records, append-only and in
//! insertion order. Classification of a record (simple, choice, excluded,
//! unsupported) depends only on its target count, its event name, and
//! whether a single target equals the source state.

use vstd::prelude::*;
use crate::states::State;

verus! {

/// Mathematical model of a transition record: source state, event, and the
/// ordered list of targets (duplicates permitted).
#[verifier::ext_equal]
pub ghost struct TransitionModel {
    pub state: Seq<char>,
    pub event: Seq<char>,
    pub targets: Seq<Seq<char>>,
}

/// A record is valid iff it has at least one target and its event is not
/// one of the two reserved lifecycle signals, which represent housekeeping
/// callbacks and are never user-visible transitions.
pub open spec fn is_valid_spec(t: TransitionModel) -> bool {
    t.targets.len() > 0 && t.event != "Q_ENTRY_SIG"@ && t.event != "Q_EXIT_SIG"@
}

/// A valid record with a single target other than its source state.
pub open spec fn is_simple_spec(t: TransitionModel) -> bool {
    is_valid_spec(t) && t.targets.len() == 1 && t.targets[0] != t.state
}

/// A valid record with exactly two targets.
pub open spec fn is_1_choice_spec(t: TransitionModel) -> bool {
    is_valid_spec(t) && t.targets.len() == 2
}

/// A valid record with exactly three targets.
pub open spec fn are_2_choices_spec(t: TransitionModel) -> bool {
    is_valid_spec(t) && t.targets.len() == 3
}

/// A valid record with exactly four targets.
pub open spec fn are_3_choices_spec(t: TransitionModel) -> bool {
    is_valid_spec(t) && t.targets.len() == 4
}

/// A valid record with more than four targets: the output notation has no
/// construct for it, so rendering one is a fatal error.
pub open spec fn are_too_many_choices_spec(t: TransitionModel) -> bool {
    is_valid_spec(t) && t.targets.len() > 4
}

/// A record produces an output line iff one of the four supported
/// classifications holds of it.
pub open spec fn should_be_output_spec(t: TransitionModel) -> bool {
    is_simple_spec(t) || is_1_choice_spec(t) || are_2_choices_spec(t) || are_3_choices_spec(t)
}

/// Transition targets for a single state and event.
pub struct EventTransitions {
    pub state_name: String,
    pub event_name: String,
    pub target_names: Vec<String>,
}

impl View for EventTransitions {
    type V = TransitionModel;

    open spec fn view(&self) -> TransitionModel {
        TransitionModel {
            state: self.state_name@,
            event: self.event_name@,
            targets: self.target_names.deep_view(),
        }
    }
}

impl Clone for EventTransitions {
    /// A clone denotes the same record.
    fn clone(&self) -> (r: Self)
        ensures
            r@ == self@,
    {
        let r = EventTransitions {
            state_name: self.state_name.clone(),
            event_name: self.event_name.clone(),
            target_names: clone_names(&self.target_names),
        };
        proof {
            assert(r@ =~= self@);
        }
        r
    }
}

/// Copies a list of names; the copy denotes the same sequence of names.
fn clone_names(v: &Vec<String>) -> (r: Vec<String>)
    ensures
        r.deep_view() == v.deep_view(),
{
    let mut r: Vec<String> = Vec::new();
    let mut i: usize = 0;
    while i < v.len()
        invariant
            i <= v.len(),
            r@.len() == i,
            forall|j: int| 0 <= j < i ==> r@[j]@ == v@[j]@,
        decreases v.len() - i,
    {
        r.push(v[i].clone());
        i = i + 1;
    }
    proof {
        assert(r.deep_view() =~= v.deep_view());
    }
    r
}

impl EventTransitions {
    /// An empty record: no state or event set yet, no targets.
    pub fn new() -> (r: EventTransitions)
        ensures
            r@ == (TransitionModel {
                state: Seq::<char>::empty(),
                event: Seq::<char>::empty(),
                targets: Seq::<Seq<char>>::empty(),
            }),
    {
        let r = EventTransitions {
            state_name: String::new(),
            event_name: String::new(),
            target_names: Vec::new(),
        };
        proof {
            assert(r@ =~= (TransitionModel {
                state: Seq::<char>::empty(),
                event: Seq::<char>::empty(),
                targets: Seq::<Seq<char>>::empty(),
            }));
        }
        r
    }

    /// Resets the record to the given source state and event, with no
    /// targets yet.
    pub fn initialise(&mut self, state: &State, event: &str)
        ensures
            final(self)@ == (TransitionModel {
                state: state@.name,
                event: event@,
                targets: Seq::<Seq<char>>::empty(),
            }),
    {
        self.state_name = state.name.clone();
        self.event_name = event.to_owned();
        self.target_names = Vec::new();
        proof {
            assert(self@ =~= (TransitionModel {
                state: state@.name,
                event: event@,
                targets: Seq::<Seq<char>>::empty(),
            }));
        }
    }

    /// Appends the given state's name to the target list.
    pub fn add_target(&mut self, target: &State)
        ensures
            final(self)@ == (TransitionModel {
                targets: old(self)@.targets.push(target@.name),
                ..old(self)@
            }),
    {
        self.target_names.push(target.name.clone());
        proof {
            assert(self@ =~= (TransitionModel {
                targets: old(self)@.targets.push(target@.name),
                ..old(self)@
            }));
        }
    }

    /// The record is empty: no source state has been set.
    pub fn is_empty(&self) -> (r: bool)
        ensures
            r == (self@.state.len() == 0),
    {
        self.state_name.as_str().is_empty()
    }

    /// The record has accumulated at least one target.
    pub fn has_targets(&self) -> (r: bool)
        ensures
            r == (self@.targets.len() > 0),
    {
        self.target_names.len() > 0
    }

    /// Executable check for [`is_valid_spec`].
    pub fn is_valid(&self) -> (r: bool)
        ensures
            r == is_valid_spec(self@),
    {
        self.target_names.len() > 0 && self.event_name != String::from_str("Q_ENTRY_SIG")
            && self.event_name != String::from_str("Q_EXIT_SIG")
    }

    /// Executable check for [`is_simple_spec`].
    pub fn is_simple(&self) -> (r: bool)
        ensures
            r == is_simple_spec(self@),
    {
        self.is_valid() && self.target_names.len() == 1 && self.target_names[0] != self.state_name
    }

    /// Executable check for [`is_1_choice_spec`].
    pub fn is_1_choice(&self) -> (r: bool)
        ensures
            r == is_1_choice_spec(self@),
    {
        self.is_valid() && self.target_names.len() == 2
    }

    /// Executable check for [`are_2_choices_spec`].
    pub fn are_2_choices(&self) -> (r: bool)
        ensures
            r == are_2_choices_spec(self@),
    {
        self.is_valid() && self.target_names.len() == 3
    }

    /// Executable check for [`are_3_choices_spec`].
    pub fn are_3_choices(&self) -> (r: bool)
        ensures
            r == are_3_choices_spec(self@),
    {
        self.is_valid() && self.target_names.len() == 4
    }

    /// Executable check for [`are_too_many_choices_spec`].
    pub fn are_too_many_choices(&self) -> (r: bool)
        ensures
            r == are_too_many_choices_spec(self@),
    {
        self.is_valid() && self.target_names.len() > 4
    }

    /// Executable check for [`should_be_output_spec`].
    pub fn should_be_output(&self) -> (r: bool)
        ensures
            r == should_be_output_spec(self@),
    {
        self.is_simple() || self.is_1_choice() || self.are_2_choices() || self.are_3_choices()
    }
}

/// Insertion-ordered registry of finalized transition records. Append-only:
/// entries are never mutated after insertion, and iteration order is
/// exactly insertion order.
pub struct Transitions(pub Vec<EventTransitions>);

impl View for Transitions {
    type V = Seq<TransitionModel>;

    open spec fn view(&self) -> Seq<TransitionModel> {
        self.0@.map_values(|t: EventTransitions| t@)
    }
}

impl Transitions {
    /// An empty registry.
    pub fn new() -> (r: Transitions)
        ensures
            r@ == Seq::<TransitionModel>::empty(),
    {
        let r = Transitions(Vec::new());
        proof {
            assert(r@ =~= Seq::<TransitionModel>::empty());
        }
        r
    }

    /// Archives a copy of the given record at the end of the registry.
    pub fn add_transition(&mut self, transition: &EventTransitions)
        ensures
            final(self)@ == old(self)@.push(transition@),
    {
        self.0.push(transition.clone());
        proof {
            assert(self@ =~= old(self)@.push(transition@));
        }
    }

    /// Number of archived records.
    pub fn len(&self) -> (r: usize)
        ensures
            r == self@.len(),
    {
        self.0.len()
    }
}

} // verus!
