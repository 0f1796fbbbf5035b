//! Closed inclusive ranges used to express every length and count limit.

use vstd::prelude::*;

use crate::error::{result_view, ValidationError, ValidationErrorView};

verus! {

/// A closed inclusive range `[min_allowed, max_allowed]`.
///
/// Every limit the validation engine enforces is expressed once as an
/// `Interval` paired with a human-readable field name, so the limit data is
/// separate from the enforcement.
pub struct Interval {
    pub max_allowed: usize,
    pub min_allowed: usize,
}

impl Interval {
    /// Membership in the closed range, as a specification.
    pub open spec fn spec_contains(self, value: usize) -> bool {
        self.min_allowed <= value && value <= self.max_allowed
    }

    pub fn from_min_max(min_allowed: usize, max_allowed: usize) -> (r: Self)
        ensures
            r.min_allowed == min_allowed,
            r.max_allowed == max_allowed,
    {
        Interval { min_allowed, max_allowed }
    }

    /// `contains(value)` holds exactly when `min_allowed <= value <= max_allowed`.
    pub fn contains(&self, value: usize) -> (r: bool)
        ensures
            r == (self.min_allowed <= value && value <= self.max_allowed),
    {
        self.min_allowed <= value && self.max_allowed >= value
    }
}

/// Whether an interval bounds a string length or a count; the two kinds
/// surface as different error variants.
pub enum LimitKind {
    Length,
    Count,
}

/// The outcome of checking `value` against `interval` under `field_name`.
pub open spec fn spec_interval_check(
    interval: Interval,
    value: usize,
    field_name: Seq<char>,
    kind: LimitKind,
) -> Result<(), ValidationErrorView> {
    if interval.spec_contains(value) {
        Ok(())
    } else {
        match kind {
            LimitKind::Length => Err(
                ValidationErrorView::LengthExceeded {
                    field_name,
                    value: value as nat,
                    min_allowed: interval.min_allowed as nat,
                    max_allowed: interval.max_allowed as nat,
                },
            ),
            LimitKind::Count => Err(
                ValidationErrorView::LimitExceeded {
                    field_name,
                    value: value as nat,
                    min_allowed: interval.min_allowed as nat,
                    max_allowed: interval.max_allowed as nat,
                },
            ),
        }
    }
}

/// Checks `value_to_test` against `interval`, reporting a violation under
/// `field_name` with the error variant selected by `kind`.
pub fn interval_check(
    interval: &Interval,
    value_to_test: usize,
    field_name: &str,
    kind: LimitKind,
) -> (r: Result<(), ValidationError>)
    ensures
        result_view(r) == spec_interval_check(*interval, value_to_test, field_name@, kind),
{
    if !interval.contains(value_to_test) {
        match kind {
            LimitKind::Length => Err(
                ValidationError::LengthExceeded {
                    field_name: field_name.to_owned(),
                    value: value_to_test,
                    min_allowed: interval.min_allowed,
                    max_allowed: interval.max_allowed,
                },
            ),
            LimitKind::Count => Err(
                ValidationError::LimitExceeded {
                    field_name: field_name.to_owned(),
                    value: value_to_test,
                    min_allowed: interval.min_allowed,
                    max_allowed: interval.max_allowed,
                },
            ),
        }
    } else {
        Ok(())
    }
}

} // verus!
