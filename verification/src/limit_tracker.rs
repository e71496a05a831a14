//! A quota tracker: it stores a value against a maximum and warns its
//! messenger as the value crosses three-quarters, nine-tenths and the
//! whole of the quota.

use vstd::prelude::*;

verus! {

/// Whoever wants to hear about quota use implements this; the library
/// assumes nothing about what `send` does.
pub trait Messenger {
    fn send(&self, msg: &str);
}

/// How close a value stands to its maximum. With a maximum of zero any
/// positive value counts as over quota, and zero of zero is quiet.
#[derive(Debug, PartialEq, Eq, Structural, Clone, Copy)]
pub enum QuotaLevel {
    Quiet,
    Warning,
    Urgent,
    OverQuota,
}

/// The level of `value` against `max`: over quota at the whole of it,
/// urgent at nine-tenths, a warning at three-quarters.
pub open spec fn spec_quota_level(value: nat, max: nat) -> QuotaLevel {
    if max == 0 {
        if value > 0 {
            QuotaLevel::OverQuota
        } else {
            QuotaLevel::Quiet
        }
    } else if value >= max {
        QuotaLevel::OverQuota
    } else if 10 * value >= 9 * max {
        QuotaLevel::Urgent
    } else if 4 * value >= 3 * max {
        QuotaLevel::Warning
    } else {
        QuotaLevel::Quiet
    }
}

/// Compute the level of `value` against `max`.
pub fn quota_level(value: usize, max: usize) -> (level: QuotaLevel)
    ensures
        level == spec_quota_level(value as nat, max as nat),
{
    if max == 0 {
        if value > 0 {
            QuotaLevel::OverQuota
        } else {
            QuotaLevel::Quiet
        }
    } else if value >= max {
        QuotaLevel::OverQuota
    } else if 10 * (value as u128) >= 9 * (max as u128) {
        QuotaLevel::Urgent
    } else if 4 * (value as u128) >= 3 * (max as u128) {
        QuotaLevel::Warning
    } else {
        QuotaLevel::Quiet
    }
}

/// The words sent for each level: one fixed message per crossed
/// threshold, nothing while the value is quiet.
pub fn quota_message(level: QuotaLevel) -> (msg: Option<&'static str>)
    ensures
        level is OverQuota ==> (msg matches Some(m) && m@ == "Error: You are over your quota!"@),
        level is Urgent ==> (msg matches Some(m) && m@
            == "Urgent warning: You've used up over 90% of your quota!"@),
        level is Warning ==> (msg matches Some(m) && m@
            == "Warning: You've used up over 75% of your quota!"@),
        level is Quiet ==> msg is None,
{
    match level {
        QuotaLevel::OverQuota => Some("Error: You are over your quota!"),
        QuotaLevel::Urgent => Some("Urgent warning: You've used up over 90% of your quota!"),
        QuotaLevel::Warning => Some("Warning: You've used up over 75% of your quota!"),
        QuotaLevel::Quiet => None,
    }
}

pub struct LimitTracker<'a, T: Messenger> {
    messenger: &'a T,
    value: usize,
    max: usize,
}

impl<'a, T> LimitTracker<'a, T> where T: Messenger {
    /// The stored value.
    pub closed spec fn spec_value(&self) -> nat {
        self.value as nat
    }

    /// The quota against which values are measured.
    pub closed spec fn spec_max(&self) -> nat {
        self.max as nat
    }

    pub fn new(messenger: &'a T, max: usize) -> (t: LimitTracker<'a, T>)
        ensures
            t.spec_value() == 0,
            t.spec_max() == max,
    {
        LimitTracker { messenger, value: 0, max }
    }

    /// Store `value` and tell the messenger when it crosses a threshold:
    /// the level comes from [`quota_level`] and the words from
    /// [`quota_message`], each with its exact contract; a quiet level
    /// sends nothing. That the send happens — and happens once — is a
    /// fact about the body, not statable over the opaque messenger, so
    /// the contract itself speaks only of the stored state.
    pub fn set_value(&mut self, value: usize)
        ensures
            final(self).spec_value() == value,
            final(self).spec_max() == old(self).spec_max(),
    {
        self.value = value;

        match quota_message(quota_level(value, self.max)) {
            Some(msg) => {
                self.messenger.send(msg);
            },
            None => {},
        }
    }
}

} // verus!
