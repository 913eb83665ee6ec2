//! Driver: a deterministic left-to-right fold of the line classifier over
//! the input lines.
//!
//! The fold maintains the current state context, the live transition
//! accumulator, and the two registries. At end of input the live
//! accumulator is unconditionally archived; whether a record is rendered is
//! decided later by the renderer, not here.

use vstd::prelude::*;
use crate::classify::{classify, classify_spec, LineKind, LineKindModel};
use crate::render::{output_spec, render_output, RenderError};
use crate::states::{State, StateModel, States};
use crate::transitions::{EventTransitions, TransitionModel, Transitions};

verus! {

/// Mathematical model of the fold context.
#[verifier::ext_equal]
pub ghost struct DriverModel {
    pub current: StateModel,
    pub acc: TransitionModel,
    pub states: Seq<StateModel>,
    pub transitions: Seq<TransitionModel>,
}

/// The initial context: an empty sentinel state, an empty accumulator, and
/// empty registries.
pub open spec fn init_model() -> DriverModel {
    DriverModel {
        current: StateModel { name: Seq::<char>::empty(), parent: Seq::<char>::empty() },
        acc: TransitionModel {
            state: Seq::<char>::empty(),
            event: Seq::<char>::empty(),
            targets: Seq::<Seq<char>>::empty(),
        },
        states: Seq::<StateModel>::empty(),
        transitions: Seq::<TransitionModel>::empty(),
    }
}

/// The live accumulator qualifies for archiving at an event boundary: a
/// source state has been set and at least one target was observed.
pub open spec fn acc_finalizable(acc: TransitionModel) -> bool {
    acc.state.len() > 0 && acc.targets.len() > 0
}

/// One step of the fold: how one classified line transforms the context.
///
/// - A state declaration only replaces the current state context; it does
///   not register the state yet.
/// - A superstate declaration completes the current state and commits it
///   into the state registry.
/// - An event declaration archives the live accumulator if it qualifies,
///   then resets it to the current state and the new event.
/// - A transition target is appended to the live accumulator.
/// - The handled marker appends the current state itself as a target.
/// - Any other line leaves the context untouched.
pub open spec fn step_model(m: DriverModel, line: Seq<char>) -> DriverModel {
    match classify_spec(line) {
        LineKindModel::StateDecl(n) => DriverModel {
            current: StateModel { name: n, parent: Seq::<char>::empty() },
            ..m
        },
        LineKindModel::ParentDecl(p) => {
            let cur = StateModel { name: m.current.name, parent: p };
            DriverModel { current: cur, states: m.states.push(cur), ..m }
        },
        LineKindModel::EventDecl(e) => DriverModel {
            acc: TransitionModel {
                state: m.current.name,
                event: e,
                targets: Seq::<Seq<char>>::empty(),
            },
            transitions: if acc_finalizable(m.acc) {
                m.transitions.push(m.acc)
            } else {
                m.transitions
            },
            ..m
        },
        LineKindModel::TargetDecl(t) => DriverModel {
            acc: TransitionModel { targets: m.acc.targets.push(t), ..m.acc },
            ..m
        },
        LineKindModel::HandledMarker => DriverModel {
            acc: TransitionModel { targets: m.acc.targets.push(m.current.name), ..m.acc },
            ..m
        },
        LineKindModel::NoMatch => m,
    }
}

/// The fold of [`step_model`] over a sequence of lines.
pub open spec fn fold_model(m: DriverModel, lines: Seq<Seq<char>>) -> DriverModel
    decreases lines.len(),
{
    if lines.len() == 0 {
        m
    } else {
        fold_model(step_model(m, lines[0]), lines.skip(1))
    }
}

/// End of input: the live accumulator is unconditionally archived.
pub open spec fn finish_model(m: DriverModel) -> (Seq<StateModel>, Seq<TransitionModel>) {
    (m.states, m.transitions.push(m.acc))
}

/// The registries recovered from a whole input: fold from the initial
/// context, then archive the last live accumulator.
pub open spec fn scan_model(lines: Seq<Seq<char>>) -> (Seq<StateModel>, Seq<TransitionModel>) {
    finish_model(fold_model(init_model(), lines))
}

/// The fold context: current state, live accumulator, and the registries.
pub struct Driver {
    pub current_state: State,
    pub accumulator: EventTransitions,
    pub states: States,
    pub transitions: Transitions,
}

impl View for Driver {
    type V = DriverModel;

    open spec fn view(&self) -> DriverModel {
        DriverModel {
            current: self.current_state@,
            acc: self.accumulator@,
            states: self.states@,
            transitions: self.transitions@,
        }
    }
}

impl Driver {
    /// The initial context.
    pub fn new() -> (r: Driver)
        ensures
            r@ == init_model(),
    {
        let r = Driver {
            current_state: State::new(""),
            accumulator: EventTransitions::new(),
            states: States::new(),
            transitions: Transitions::new(),
        };
        proof {
            reveal_strlit("");
            assert(r@ =~= init_model());
        }
        r
    }

    /// Classifies one line and applies its effect to the context.
    pub fn process_line(&mut self, line: &str)
        ensures
            final(self)@ == step_model(old(self)@, line@),
    {
        match classify(line) {
            LineKind::StateDecl(n) => {
                self.current_state = State::new(n.as_str());
            },
            LineKind::ParentDecl(p) => {
                let parent = State::new(p.as_str());
                self.current_state.set_parent(&parent);
                self.states.add_state(&self.current_state);
            },
            LineKind::EventDecl(e) => {
                if !self.accumulator.is_empty() && self.accumulator.has_targets() {
                    self.transitions.add_transition(&self.accumulator);
                }
                self.accumulator.initialise(&self.current_state, e.as_str());
            },
            LineKind::TargetDecl(t) => {
                let target = State::new(t.as_str());
                self.accumulator.add_target(&target);
            },
            LineKind::HandledMarker => {
                let current = self.current_state.clone();
                self.accumulator.add_target(&current);
            },
            LineKind::NoMatch => {},
        }
        proof {
            assert(self@ =~= step_model(old(self)@, line@));
        }
    }

    /// End of input: archives the live accumulator and hands out the
    /// registries.
    pub fn finish(self) -> (r: (States, Transitions))
        ensures
            (r.0@, r.1@) == finish_model(self@),
    {
        let Driver { states, mut transitions, accumulator, current_state: _ } = self;
        transitions.add_transition(&accumulator);
        (states, transitions)
    }
}

/// Splitting a fold: folding a concatenation folds the first part, then the
/// second.
pub proof fn lemma_fold_model_append(m: DriverModel, a: Seq<Seq<char>>, b: Seq<Seq<char>>)
    ensures
        fold_model(m, a + b) == fold_model(fold_model(m, a), b),
    decreases a.len(),
{
    if a.len() == 0 {
        assert(a + b =~= b);
    } else {
        assert((a + b)[0] == a[0]);
        assert((a + b).skip(1) =~= a.skip(1) + b);
        lemma_fold_model_append(step_model(m, a[0]), a.skip(1), b);
    }
}

/// Folds the classifier over all the given lines and returns the recovered
/// registries.
pub fn scan_lines(lines: &Vec<String>) -> (r: (States, Transitions))
    ensures
        (r.0@, r.1@) == scan_model(lines.deep_view()),
{
    let ghost all = lines.deep_view();
    let mut driver = Driver::new();
    let mut i: usize = 0;
    proof {
        assert(all.take(0) =~= Seq::<Seq<char>>::empty());
    }
    while i < lines.len()
        invariant
            i <= lines.len(),
            all == lines.deep_view(),
            driver@ == fold_model(init_model(), all.take(i as int)),
        decreases lines.len() - i,
    {
        driver.process_line(lines[i].as_str());
        proof {
            assert(all.take(i as int + 1) =~= all.take(i as int) + seq![all[i as int]]);
            lemma_fold_model_append(init_model(), all.take(i as int), seq![all[i as int]]);
            assert(fold_model(driver@, Seq::<Seq<char>>::empty()) == driver@);
            assert(seq![all[i as int]].skip(1) =~= Seq::<Seq<char>>::empty());
            assert(all[i as int] == lines@[i as int]@);
        }
        i = i + 1;
    }
    proof {
        assert(all.take(i as int) =~= all);
    }
    driver.finish()
}

/// Reads the input lines, recovers the structural model, and renders it;
/// fails with the offending record's state and event if a transition record
/// has more than four targets.
pub fn run(lines: &Vec<String>) -> (r: Result<String, RenderError>)
    ensures
        (match (r, output_spec(scan_model(lines.deep_view()).0, scan_model(lines.deep_view()).1)) {
            (Ok(s), Ok(m)) => s@ == m,
            (Err(e), Err(t)) => e.state_name@ == t.state && e.event_name@ == t.event,
            _ => false,
        }),
{
    let (states, transitions) = scan_lines(lines);
    render_output(&states, &transitions)
}

/// A line that matches no classifier pattern leaves the whole context —
/// current state, live accumulator, and both registries — untouched.
pub proof fn lemma_no_match_is_noop(m: DriverModel, line: Seq<char>)
    requires
        classify_spec(line) is NoMatch,
    ensures
        step_model(m, line) == m,
{
}

/// Exactly one record is archived per qualifying event boundary: a step
/// archives the live accumulator if and only if the line is an event
/// declaration and the accumulator has a state and at least one target;
/// every other step leaves the transition registry untouched.
pub proof fn lemma_finalized_once_per_boundary(m: DriverModel, line: Seq<char>)
    ensures
        (classify_spec(line) is EventDecl && acc_finalizable(m.acc)) ==> step_model(
            m,
            line,
        ).transitions == m.transitions.push(m.acc),
        !(classify_spec(line) is EventDecl && acc_finalizable(m.acc)) ==> step_model(
            m,
            line,
        ).transitions == m.transitions,
{
}

/// Both registries are append-only across a whole fold: every record
/// already archived keeps its position and its contents, so no finalized
/// record is ever duplicated or rewritten by later lines.
pub proof fn lemma_registries_append_only(m: DriverModel, lines: Seq<Seq<char>>)
    ensures
        fold_model(m, lines).states.len() >= m.states.len(),
        forall|i: int|
            0 <= i < m.states.len() ==> fold_model(m, lines).states[i] == m.states[i],
        fold_model(m, lines).transitions.len() >= m.transitions.len(),
        forall|i: int|
            0 <= i < m.transitions.len() ==> fold_model(m, lines).transitions[i]
                == m.transitions[i],
    decreases lines.len(),
{
    if lines.len() > 0 {
        let m1 = step_model(m, lines[0]);
        lemma_registries_append_only(m1, lines.skip(1));
        assert forall|i: int| 0 <= i < m.states.len() implies fold_model(m, lines).states[i]
            == m.states[i] by {
            assert(fold_model(m, lines).states[i] == m1.states[i]);
        }
        assert forall|i: int| 0 <= i < m.transitions.len() implies fold_model(
            m,
            lines,
        ).transitions[i] == m.transitions[i] by {
            assert(fold_model(m, lines).transitions[i] == m1.transitions[i]);
        }
    }
}

/// The projection of the fold that yields the state registry: a state is
/// appended exactly when a superstate declaration is observed, carrying the
/// then-current state name and the declared parent, in line order.
pub open spec fn parent_decl_states(current: Seq<char>, lines: Seq<Seq<char>>) -> Seq<StateModel>
    decreases lines.len(),
{
    if lines.len() == 0 {
        Seq::<StateModel>::empty()
    } else {
        match classify_spec(lines[0]) {
            LineKindModel::StateDecl(n) => parent_decl_states(n, lines.skip(1)),
            LineKindModel::ParentDecl(p) => seq![StateModel { name: current, parent: p }]
                + parent_decl_states(current, lines.skip(1)),
            _ => parent_decl_states(current, lines.skip(1)),
        }
    }
}

/// A state is present in the state registry if and only if a superstate
/// declaration was observed for it, and the registry lists those
/// observations in input order: the fold appends exactly the records that
/// [`parent_decl_states`] derives from the lines alone.
pub proof fn lemma_states_are_parent_decls(m: DriverModel, lines: Seq<Seq<char>>)
    ensures
        fold_model(m, lines).states == m.states + parent_decl_states(m.current.name, lines),
    decreases lines.len(),
{
    if lines.len() == 0 {
        assert(m.states + parent_decl_states(m.current.name, lines) =~= m.states);
    } else {
        let m1 = step_model(m, lines[0]);
        lemma_states_are_parent_decls(m1, lines.skip(1));
        match classify_spec(lines[0]) {
            LineKindModel::StateDecl(n) => {
                assert(m1.states == m.states && m1.current.name == n);
            },
            LineKindModel::ParentDecl(p) => {
                let cur = StateModel { name: m.current.name, parent: p };
                assert(m1.states == m.states.push(cur) && m1.current.name == m.current.name);
                assert(m.states.push(cur) + parent_decl_states(m.current.name, lines.skip(1))
                    =~= m.states + (seq![cur] + parent_decl_states(m.current.name, lines.skip(1))));
            },
            _ => {
                assert(m1.states == m.states && m1.current.name == m.current.name);
            },
        }
    }
}

} // verus!
