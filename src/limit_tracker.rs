//! Tracks a value against a quota and reports through a messenger when it nears or passes it.

use vstd::prelude::*;

verus! {

/// Receives the warnings of a `LimitTracker`.
pub trait Messenger {
    fn send(&self, msg: &str);
}

/// How close a value has come to its quota.
#[derive(Debug, Clone, Copy, PartialEq, Eq)]
pub enum QuotaWarning {
    /// The value is at or beyond the quota.
    OverQuota,
    /// The value is at 90% of the quota or more.
    Urgent,
    /// The value is at 75% of the quota or more.
    Warning,
}

/// The warning due for `value` out of `max`, if any.
///
/// With `max == 0` every positive value is beyond the quota, and a value of zero
/// has no share of it at all, so it draws no warning.
pub open spec fn spec_quota_warning(value: usize, max: usize) -> Option<QuotaWarning> {
    if max == 0 && value == 0 {
        None
    } else if value >= max {
        Some(QuotaWarning::OverQuota)
    } else if 10 * value >= 9 * max {
        Some(QuotaWarning::Urgent)
    } else if 4 * value >= 3 * max {
        Some(QuotaWarning::Warning)
    } else {
        None
    }
}

/// The text sent for each warning.
pub open spec fn spec_warning_message(w: QuotaWarning) -> Seq<char> {
    match w {
        QuotaWarning::OverQuota => "Error: You are over your quota!"@,
        QuotaWarning::Urgent => "Urgent warning: You've used up over 90% of your quota!"@,
        QuotaWarning::Warning => "Warning: You've used up over 75% of your quota!"@,
    }
}

impl QuotaWarning {
    /// The text sent to the messenger for this warning.
    pub fn message(&self) -> (r: &'static str)
        ensures
            r@ == spec_warning_message(*self),
    {
        match self {
            QuotaWarning::OverQuota => "Error: You are over your quota!",
            QuotaWarning::Urgent => "Urgent warning: You've used up over 90% of your quota!",
            QuotaWarning::Warning => "Warning: You've used up over 75% of your quota!",
        }
    }
}

/// Decides which warning, if any, `value` out of `max` calls for.
pub fn quota_warning(value: usize, max: usize) -> (r: Option<QuotaWarning>)
    ensures
        r == spec_quota_warning(value, max),
{
    let v = value as u128;
    let m = max as u128;
    if max == 0 && value == 0 {
        None
    } else if value >= max {
        Some(QuotaWarning::OverQuota)
    } else if 10 * v >= 9 * m {
        Some(QuotaWarning::Urgent)
    } else if 4 * v >= 3 * m {
        Some(QuotaWarning::Warning)
    } else {
        None
    }
}

/// Holds a value and its quota, and warns through `messenger` when the value is set.
pub struct LimitTracker<'a, T: Messenger> {
    messenger: &'a T,
    value: usize,
    max: usize,
}

impl<'a, T> LimitTracker<'a, T> where T: Messenger {
    /// The messenger that receives the warnings.
    pub closed spec fn messenger(&self) -> &'a T {
        self.messenger
    }

    /// The value last set.
    pub closed spec fn value(&self) -> usize {
        self.value
    }

    /// The quota.
    pub closed spec fn max(&self) -> usize {
        self.max
    }

    /// A tracker with quota `max` and a value of zero.
    pub fn new(messenger: &T, max: usize) -> (r: LimitTracker<T>)
        ensures
            r.messenger() == messenger,
            r.value() == 0,
            r.max() == max,
    {
        LimitTracker { messenger, value: 0, max }
    }

    /// Sets the value, then sends the message of `quota_warning(value, max)` if there is one.
    pub fn set_value(&mut self, value: usize)
        ensures
            final(self).value() == value,
            final(self).max() == old(self).max(),
            final(self).messenger() == old(self).messenger(),
    {
        self.value = value;
        match quota_warning(self.value, self.max) {
            Some(w) => self.messenger.send(w.message()),
            None => {},
        }
    }
}

} // verus!
