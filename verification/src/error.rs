use vstd::prelude::*;

verus! {

/// Why a summon operation was refused. Every refusal leaves the order's
/// pulls exactly as they were.
#[derive(Copy, Clone, PartialEq, Eq, Structural, Debug)]
pub enum PullError {
    /// The quota of the requested kind of summon is used up.
    NoQuotaRemaining,
    /// A bulk summon is active and not all of its slots are revealed.
    BannerInProgress,
    /// The active single summon has no revealed slot yet.
    RerollRefused,
    /// The slot is already revealed.
    SlotAlreadyRevealed,
    /// A banner has no slot of that index.
    SlotIndexOutOfRange,
    /// No summon is active.
    NoActiveBanner,
    /// No product is in stock with a positive weight.
    NoEligibleProduct,
}

/// The sentence that tells a customer about a refusal.
pub open spec fn error_text(error: PullError) -> Seq<char> {
    match error {
        PullError::NoQuotaRemaining => "There are no more summons of this kind available for this order."@,
        PullError::BannerInProgress => "There is a bulk summon in progress already, which must be completed first."@,
        PullError::RerollRefused => "You may not reroll a fresh banner."@,
        PullError::SlotAlreadyRevealed => "This hero has already been summoned."@,
        PullError::SlotIndexOutOfRange => "A summon has no such slot."@,
        PullError::NoActiveBanner => "There is not currently an active summon for this order."@,
        PullError::NoEligibleProduct => "There is nothing in stock to summon right now."@,
    }
}

impl PullError {
    /// The refusal in words.
    pub fn message(&self) -> (text: &'static str)
        ensures
            text@ == error_text(*self),
    {
        match self {
            PullError::NoQuotaRemaining => "There are no more summons of this kind available for this order.",
            PullError::BannerInProgress => "There is a bulk summon in progress already, which must be completed first.",
            PullError::RerollRefused => "You may not reroll a fresh banner.",
            PullError::SlotAlreadyRevealed => "This hero has already been summoned.",
            PullError::SlotIndexOutOfRange => "A summon has no such slot.",
            PullError::NoActiveBanner => "There is not currently an active summon for this order.",
            PullError::NoEligibleProduct => "There is nothing in stock to summon right now.",
        }
    }
}

/// An error that is no more than its message.
#[derive(Debug, PartialEq, Eq)]
pub struct CustomError(pub String);

impl CustomError {
    /// The message of the error.
    pub fn to_string(&self) -> (text: String)
        ensures
            text@ == self.0@,
    {
        self.0.clone()
    }

    /// The error that tells a customer about a refused summon.
    pub fn from_pull_error(error: PullError) -> (custom: CustomError)
        ensures
            custom.0@ == error_text(error),
    {
        CustomError(String::from_str(error.message()))
    }
}

} // verus!
