//! The three words that switch a filter or a scene item.

use vstd::prelude::*;

verus! {

/// What to do with something that is either enabled or disabled.
#[derive(Clone, Copy, Debug, PartialEq, Eq, Structural)]
pub enum Verb {
    Enable,
    Disable,
    Toggle,
}

impl Verb {
    /// The verb that a word stands for: `enable`, `disable` and `toggle`
    /// stand for one, in exactly that spelling, and no other word does.
    pub open spec fn of(word: Seq<char>) -> Option<Verb> {
        if word == "enable"@ {
            Some(Verb::Enable)
        } else if word == "disable"@ {
            Some(Verb::Disable)
        } else if word == "toggle"@ {
            Some(Verb::Toggle)
        } else {
            None
        }
    }

    /// The state that the verb names, where it names one: `Toggle` names
    /// none, its outcome depends on the state found.
    pub open spec fn fixed_spec(self) -> Option<bool> {
        match self {
            Verb::Enable => Some(true),
            Verb::Disable => Some(false),
            Verb::Toggle => None,
        }
    }

    /// Whether the verb can end in `state`: it names that state, or none.
    pub open spec fn allows_spec(self, state: bool) -> bool {
        match self.fixed_spec() {
            Some(named) => named == state,
            None => true,
        }
    }

    /// The state to set where the state found is `current`.
    pub open spec fn target_spec(self, current: bool) -> bool {
        match self {
            Verb::Enable => true,
            Verb::Disable => false,
            Verb::Toggle => !current,
        }
    }

    /// Reads a verb.
    pub fn parse(word: &str) -> (verb: Option<Verb>)
        ensures
            verb == Verb::of(word@),
    {
        let word = String::from_str(word);
        if word == String::from_str("enable") {
            Some(Verb::Enable)
        } else if word == String::from_str("disable") {
            Some(Verb::Disable)
        } else if word == String::from_str("toggle") {
            Some(Verb::Toggle)
        } else {
            None
        }
    }

    /// The state that the verb names, where it names one.
    #[verifier::when_used_as_spec(fixed_spec)]
    pub fn fixed(self) -> (state: Option<bool>)
        ensures
            state == self.fixed_spec(),
    {
        match self {
            Verb::Enable => Some(true),
            Verb::Disable => Some(false),
            Verb::Toggle => None,
        }
    }

    /// Whether the verb can end in `state`: it names that state, or none.
    #[verifier::when_used_as_spec(allows_spec)]
    pub fn allows(self, state: bool) -> (possible: bool)
        ensures
            possible == self.allows_spec(state),
    {
        match self {
            Verb::Enable => state,
            Verb::Disable => !state,
            Verb::Toggle => true,
        }
    }

    /// The state to set where the state found is `current`.
    #[verifier::when_used_as_spec(target_spec)]
    pub fn target(self, current: bool) -> (state: bool)
        ensures
            state == self.target_spec(current),
    {
        match self {
            Verb::Enable => true,
            Verb::Disable => false,
            Verb::Toggle => !current,
        }
    }
}

} // verus!
