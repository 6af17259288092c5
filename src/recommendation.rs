//! Kinds of user behavior that feed recommendations.
use vstd::prelude::*;

verus! {

/// What a user did with a card.
#[derive(Debug, Clone, Copy, PartialEq, Eq, Structural)]
pub enum BehaviorAction {
    View,
    Like,
    Exchange,
    Comment,
}

/// The name of each action.
pub open spec fn behavior_name(a: BehaviorAction) -> Seq<char> {
    match a {
        BehaviorAction::View => "view"@,
        BehaviorAction::Like => "like"@,
        BehaviorAction::Exchange => "exchange"@,
        BehaviorAction::Comment => "comment"@,
    }
}

impl BehaviorAction {
    /// The name of this action.
    pub fn as_str(&self) -> (r: &'static str)
        ensures
            r@ == behavior_name(*self),
    {
        match self {
            BehaviorAction::View => "view",
            BehaviorAction::Like => "like",
            BehaviorAction::Exchange => "exchange",
            BehaviorAction::Comment => "comment",
        }
    }

    /// The display form of this action, its name.
    pub fn to_string(&self) -> (r: String)
        ensures
            r@ == behavior_name(*self),
    {
        self.as_str().to_owned()
    }
}

} // verus!
