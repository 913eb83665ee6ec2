//! State registry: an append-only, insertion-ordered collection of
//! discovered states, each with an optional parent (superstate) name.

use vstd::prelude::*;

verus! {

/// Mathematical model of a state: its name and the name of its parent
/// (empty until a superstate declaration is observed for it).
#[verifier::ext_equal]
pub ghost struct StateModel {
    pub name: Seq<char>,
    pub parent: Seq<char>,
}

/// A named state, optionally nested under a parent state.
pub struct State {
    pub name: String,
    pub parent_name: String,
}

impl View for State {
    type V = StateModel;

    open spec fn view(&self) -> StateModel {
        StateModel { name: self.name@, parent: self.parent_name@ }
    }
}

impl State {
    /// A fresh state with the given name and no parent yet.
    pub fn new(name: &str) -> (r: State)
        ensures
            r@ == (StateModel { name: name@, parent: Seq::<char>::empty() }),
    {
        let r = State { name: name.to_owned(), parent_name: String::new() };
        proof {
            assert(r@.parent =~= Seq::<char>::empty());
        }
        r
    }

    /// Records the given state's name as this state's parent.
    pub fn set_parent(&mut self, parent: &State)
        ensures
            final(self)@ == (StateModel { name: old(self)@.name, parent: parent@.name }),
    {
        self.parent_name = parent.name.clone();
    }

}

impl Clone for State {
    /// A clone denotes the same state.
    fn clone(&self) -> (r: Self)
        ensures
            r@ == self@,
    {
        State { name: self.name.clone(), parent_name: self.parent_name.clone() }
    }
}

/// Insertion-ordered registry of the states whose parent has been
/// discovered. Append-only: entries are never mutated after insertion, and
/// iteration order is exactly insertion order.
pub struct States(pub Vec<State>);

impl View for States {
    type V = Seq<StateModel>;

    open spec fn view(&self) -> Seq<StateModel> {
        self.0@.map_values(|s: State| s@)
    }
}

impl States {
    /// An empty registry.
    pub fn new() -> (r: States)
        ensures
            r@ == Seq::<StateModel>::empty(),
    {
        let r = States(Vec::new());
        proof {
            assert(r@ =~= Seq::<StateModel>::empty());
        }
        r
    }

    /// Commits a copy of the given state at the end of the registry.
    pub fn add_state(&mut self, state: &State)
        ensures
            final(self)@ == old(self)@.push(state@),
    {
        self.0.push(state.clone());
        proof {
            assert(self@ =~= old(self)@.push(state@));
        }
    }
}

} // verus!
