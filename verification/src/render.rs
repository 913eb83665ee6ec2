//! Renderer: turns the state registry and the transition registry into the
//! output notation.
//!
//! Every registered state is rendered unconditionally, in registry order. A
//! finalized transition record is rendered only if one of the four supported
//! classifications holds of it; a record with more than four targets is a
//! fatal error that aborts the whole run.

use vstd::prelude::*;
use crate::states::{State, StateModel, States};
use crate::transitions::{
    are_2_choices_spec, are_3_choices_spec, are_too_many_choices_spec, is_1_choice_spec,
    is_simple_spec, is_valid_spec, should_be_output_spec, EventTransitions, TransitionModel,
    Transitions,
};

verus! {

/// Fatal rendering failure: a transition record with more than four targets
/// was encountered. Names the offending source state and event.
#[derive(Debug)]
pub struct RenderError {
    pub state_name: String,
    pub event_name: String,
}

/// The output line for one registered state: the parent name (empty when
/// absent), two literal spaces, and the quoted state name.
pub open spec fn state_line_spec(s: StateModel) -> Seq<char> {
    s.parent + "  $state(\""@ + s.name + "\")"@
}

/// The state block: one line per registered state, in registry order, each
/// terminated by a newline.
pub open spec fn states_block_spec(ss: Seq<StateModel>) -> Seq<char>
    decreases ss.len(),
{
    if ss.len() == 0 {
        Seq::<char>::empty()
    } else {
        state_line_spec(ss[0]) + "\n"@ + states_block_spec(ss.skip(1))
    }
}

/// The trailing target list of a choice construct: `, "t"` for each target,
/// in observed order.
pub open spec fn targets_tail_spec(ts: Seq<Seq<char>>) -> Seq<char>
    decreases ts.len(),
{
    if ts.len() == 0 {
        Seq::<char>::empty()
    } else {
        ", \""@ + ts[0] + "\""@ + targets_tail_spec(ts.skip(1))
    }
}

/// The output line for one renderable transition record, by its
/// classification. Meaningful only when [`should_be_output_spec`] holds.
pub open spec fn transition_line_spec(t: TransitionModel) -> Seq<char> {
    if is_simple_spec(t) {
        "$transition(\""@ + t.state + "\", $event(\""@ + t.event + "\"), \""@ + t.targets[0]
            + "\")"@
    } else if is_1_choice_spec(t) {
        "$transitions_1_choice(\""@ + t.state + "\", $event(\""@ + t.event + "\")"@
            + targets_tail_spec(t.targets) + ")"@
    } else if are_2_choices_spec(t) {
        "$transitions_2_choices(\""@ + t.state + "\", $event(\""@ + t.event + "\")"@
            + targets_tail_spec(t.targets) + ")"@
    } else {
        "$transitions_3_choices(\""@ + t.state + "\", $event(\""@ + t.event + "\")"@
            + targets_tail_spec(t.targets) + ")"@
    }
}

/// The transition block: one line per renderable record, in registry order,
/// each terminated by a newline; records that are not renderable contribute
/// nothing; the first record with too many targets aborts the block.
pub open spec fn transitions_block_spec(ts: Seq<TransitionModel>) -> Result<
    Seq<char>,
    TransitionModel,
>
    decreases ts.len(),
{
    if ts.len() == 0 {
        Ok(Seq::<char>::empty())
    } else if are_too_many_choices_spec(ts[0]) {
        Err(ts[0])
    } else {
        match transitions_block_spec(ts.skip(1)) {
            Ok(rest) => Ok(
                (if should_be_output_spec(ts[0]) {
                    transition_line_spec(ts[0]) + "\n"@
                } else {
                    Seq::<char>::empty()
                }) + rest,
            ),
            Err(e) => Err(e),
        }
    }
}

/// The whole output: the state block, a blank line, then the transition
/// block; or the record that aborted the run.
pub open spec fn output_spec(ss: Seq<StateModel>, ts: Seq<TransitionModel>) -> Result<
    Seq<char>,
    TransitionModel,
> {
    match transitions_block_spec(ts) {
        Ok(tb) => Ok(states_block_spec(ss) + "\n"@ + tb),
        Err(e) => Err(e),
    }
}

/// Renders the output line for one registered state.
pub fn render_state_line(state: &State) -> (r: String)
    ensures
        r@ == state_line_spec(state@),
{
    let mut out = String::new();
    out.append(state.parent_name.as_str());
    out.append("  $state(\"");
    out.append(state.name.as_str());
    out.append("\")");
    proof {
        assert(out@ =~= state_line_spec(state@));
    }
    out
}

/// Renders the state block: every registered state, in registry order.
pub fn render_states(states: &States) -> (r: String)
    ensures
        r@ == states_block_spec(states@),
{
    let mut out = String::new();
    let mut i: usize = 0;
    proof {
        assert(states@.skip(0) =~= states@);
        assert(out@ + states_block_spec(states@) =~= states_block_spec(states@));
    }
    while i < states.0.len()
        invariant
            i <= states.0.len(),
            states_block_spec(states@) == out@ + states_block_spec(states@.skip(i as int)),
        decreases states.0.len() - i,
    {
        let ghost pre = out@;
        let ghost rest = states@.skip(i as int);
        let line = render_state_line(&states.0[i]);
        out.append(line.as_str());
        out.append("\n");
        proof {
            assert(rest[0] == states@[i as int]);
            assert(rest.skip(1) =~= states@.skip(i as int + 1));
            assert(states_block_spec(rest) == state_line_spec(rest[0]) + "\n"@
                + states_block_spec(rest.skip(1)));
            assert(out@ + states_block_spec(states@.skip(i as int + 1)) =~= pre
                + states_block_spec(rest));
        }
        i = i + 1;
    }
    proof {
        assert(states@.skip(i as int) =~= Seq::<StateModel>::empty());
        assert(out@ + states_block_spec(states@.skip(i as int)) =~= out@);
    }
    out
}

/// Renders the trailing target list of a choice construct.
fn render_targets_tail(v: &Vec<String>) -> (r: String)
    ensures
        r@ == targets_tail_spec(v.deep_view()),
{
    let ghost ts = v.deep_view();
    let mut out = String::new();
    let mut i: usize = 0;
    proof {
        assert(ts.skip(0) =~= ts);
        assert(out@ + targets_tail_spec(ts) =~= targets_tail_spec(ts));
    }
    while i < v.len()
        invariant
            i <= v.len(),
            ts == v.deep_view(),
            targets_tail_spec(ts) == out@ + targets_tail_spec(ts.skip(i as int)),
        decreases v.len() - i,
    {
        let ghost pre = out@;
        let ghost rest = ts.skip(i as int);
        out.append(", \"");
        out.append(v[i].as_str());
        out.append("\"");
        proof {
            assert(rest[0] == ts[i as int]);
            assert(ts[i as int] == v@[i as int]@);
            assert(rest.skip(1) =~= ts.skip(i as int + 1));
            assert(targets_tail_spec(rest) == ", \""@ + rest[0] + "\""@ + targets_tail_spec(
                rest.skip(1),
            ));
            assert(out@ + targets_tail_spec(ts.skip(i as int + 1)) =~= pre + targets_tail_spec(
                rest,
            ));
        }
        i = i + 1;
    }
    proof {
        assert(ts.skip(i as int) =~= Seq::<Seq<char>>::empty());
        assert(out@ + targets_tail_spec(ts.skip(i as int)) =~= out@);
    }
    out
}

/// Renders the output line for one renderable transition record, using the
/// literal template that matches its classification.
pub fn render_transition_line(t: &EventTransitions) -> (r: String)
    requires
        should_be_output_spec(t@),
    ensures
        r@ == transition_line_spec(t@),
{
    let mut out = String::new();
    if t.is_simple() {
        out.append("$transition(\"");
        out.append(t.state_name.as_str());
        out.append("\", $event(\"");
        out.append(t.event_name.as_str());
        out.append("\"), \"");
        out.append(t.target_names[0].as_str());
        out.append("\")");
        proof {
            assert(t@.targets[0] == t.target_names@[0]@);
            assert(out@ =~= transition_line_spec(t@));
        }
    } else {
        if t.is_1_choice() {
            out.append("$transitions_1_choice(\"");
        } else if t.are_2_choices() {
            out.append("$transitions_2_choices(\"");
        } else {
            out.append("$transitions_3_choices(\"");
        }
        out.append(t.state_name.as_str());
        out.append("\", $event(\"");
        out.append(t.event_name.as_str());
        out.append("\")");
        let tail = render_targets_tail(&t.target_names);
        out.append(tail.as_str());
        out.append(")");
        proof {
            assert(out@ =~= transition_line_spec(t@));
        }
    }
    out
}

/// Prefixes already-rendered text onto the rest of a transition block.
spec fn prepend_block(pre: Seq<char>, r: Result<Seq<char>, TransitionModel>) -> Result<
    Seq<char>,
    TransitionModel,
> {
    match r {
        Ok(s) => Ok(pre + s),
        Err(e) => Err(e),
    }
}

/// Renders the transition block: every renderable record in registry order,
/// or the fatal error naming the first record with too many targets.
pub fn render_transitions(transitions: &Transitions) -> (r: Result<String, RenderError>)
    ensures
        (match (r, transitions_block_spec(transitions@)) {
            (Ok(s), Ok(m)) => s@ == m,
            (Err(e), Err(t)) => e.state_name@ == t.state && e.event_name@ == t.event,
            _ => false,
        }),
{
    let ghost full = transitions@;
    let mut out = String::new();
    let mut i: usize = 0;
    proof {
        assert(full.skip(0) =~= full);
        assert(prepend_block(out@, transitions_block_spec(full)) == transitions_block_spec(full))
            by {
            match transitions_block_spec(full) {
                Ok(s) => {
                    assert(out@ + s =~= s);
                },
                Err(_) => {},
            }
        }
    }
    while i < transitions.0.len()
        invariant
            i <= transitions.0.len(),
            full == transitions@,
            transitions_block_spec(full) == prepend_block(
                out@,
                transitions_block_spec(full.skip(i as int)),
            ),
        decreases transitions.0.len() - i,
    {
        let ghost pre = out@;
        let ghost rest = full.skip(i as int);
        proof {
            assert(rest[0] == full[i as int]);
            assert(rest.skip(1) =~= full.skip(i as int + 1));
        }
        let t = &transitions.0[i];
        if t.are_too_many_choices() {
            return Err(
                RenderError {
                    state_name: t.state_name.clone(),
                    event_name: t.event_name.clone(),
                },
            );
        }
        if t.should_be_output() {
            let line = render_transition_line(t);
            out.append(line.as_str());
            out.append("\n");
        }
        proof {
            let tailres = transitions_block_spec(full.skip(i as int + 1));
            match tailres {
                Ok(restouts) => {
                    assert(out@ + restouts =~= pre + ((if should_be_output_spec(rest[0]) {
                        transition_line_spec(rest[0]) + "\n"@
                    } else {
                        Seq::<char>::empty()
                    }) + restouts));
                },
                Err(_) => {},
            }
        }
        i = i + 1;
    }
    proof {
        assert(full.skip(i as int) =~= Seq::<TransitionModel>::empty());
        assert(out@ + Seq::<char>::empty() =~= out@);
    }
    Ok(out)
}

/// Renders the whole output: the state block, a blank line, then the
/// transition block; fails with the offending record's state and event if a
/// record has too many targets.
pub fn render_output(states: &States, transitions: &Transitions) -> (r: Result<
    String,
    RenderError,
>)
    ensures
        (match (r, output_spec(states@, transitions@)) {
            (Ok(s), Ok(m)) => s@ == m,
            (Err(e), Err(t)) => e.state_name@ == t.state && e.event_name@ == t.event,
            _ => false,
        }),
{
    let mut out = render_states(states);
    match render_transitions(transitions) {
        Ok(tb) => {
            out.append("\n");
            out.append(tb.as_str());
            Ok(out)
        },
        Err(e) => Err(e),
    }
}

/// A record that accumulated no targets is archived but never rendered.
pub proof fn lemma_zero_targets_never_rendered(t: TransitionModel)
    requires
        t.targets.len() == 0,
    ensures
        !should_be_output_spec(t),
{
}

/// A record whose event is one of the two reserved lifecycle signals is
/// never rendered, independent of its target count.
pub proof fn lemma_lifecycle_never_rendered(t: TransitionModel)
    requires
        t.event == "Q_ENTRY_SIG"@ || t.event == "Q_EXIT_SIG"@,
    ensures
        !should_be_output_spec(t),
        !are_too_many_choices_spec(t),
{
}

/// A record with exactly one target equal to its own source state is never
/// rendered.
pub proof fn lemma_self_loop_never_rendered(t: TransitionModel)
    requires
        t.targets.len() == 1,
        t.targets[0] == t.state,
    ensures
        !should_be_output_spec(t),
{
}

/// A record with exactly one target other than its source state, under an
/// event that is not a lifecycle signal, renders as the simple form.
pub proof fn lemma_single_target_renders_simple(t: TransitionModel)
    requires
        t.targets.len() == 1,
        t.targets[0] != t.state,
        t.event != "Q_ENTRY_SIG"@,
        t.event != "Q_EXIT_SIG"@,
    ensures
        should_be_output_spec(t),
        is_simple_spec(t),
        transition_line_spec(t) == "$transition(\""@ + t.state + "\", $event(\""@ + t.event
            + "\"), \""@ + t.targets[0] + "\")"@,
{
}

/// A record with two, three or four targets, under an event that is not a
/// lifecycle signal, renders as the single-choice, two-choices or
/// three-choices form respectively, listing its targets in observed order.
pub proof fn lemma_choice_forms(t: TransitionModel)
    requires
        2 <= t.targets.len() <= 4,
        t.event != "Q_ENTRY_SIG"@,
        t.event != "Q_EXIT_SIG"@,
    ensures
        should_be_output_spec(t),
        t.targets.len() == 2 ==> transition_line_spec(t) == "$transitions_1_choice(\""@ + t.state
            + "\", $event(\""@ + t.event + "\")"@ + targets_tail_spec(t.targets) + ")"@,
        t.targets.len() == 3 ==> transition_line_spec(t) == "$transitions_2_choices(\""@ + t.state
            + "\", $event(\""@ + t.event + "\")"@ + targets_tail_spec(t.targets) + ")"@,
        t.targets.len() == 4 ==> transition_line_spec(t) == "$transitions_3_choices(\""@ + t.state
            + "\", $event(\""@ + t.event + "\")"@ + targets_tail_spec(t.targets) + ")"@,
{
}

/// The transition block aborts if and only if some archived record is valid
/// and has more than four targets.
pub proof fn lemma_block_err_iff_too_many(ts: Seq<TransitionModel>)
    ensures
        (transitions_block_spec(ts) is Err) <==> exists|i: int|
            0 <= i < ts.len() && are_too_many_choices_spec(ts[i]),
    decreases ts.len(),
{
    if ts.len() == 0 {
    } else if are_too_many_choices_spec(ts[0]) {
        assert(are_too_many_choices_spec(ts[0]));
    } else {
        lemma_block_err_iff_too_many(ts.skip(1));
        if transitions_block_spec(ts) is Err {
            let j: int = choose|j: int|
                0 <= j < ts.skip(1).len() && are_too_many_choices_spec(ts.skip(1)[j]);
            assert(are_too_many_choices_spec(ts[j + 1]));
        } else {
            assert forall|i: int| 0 <= i < ts.len() implies !are_too_many_choices_spec(ts[i]) by {
                if i > 0 {
                    assert(ts.skip(1)[i - 1] == ts[i]);
                }
            }
        }
    }
}

} // verus!
