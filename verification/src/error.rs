//! The validation error taxonomy and its human-readable rendering.

use vstd::prelude::*;

verus! {

/// A typed validation failure. Each variant carries the human-readable name
/// of the offending field and, where a limit was violated, the offending
/// value together with the violated bounds.
pub enum ValidationError {
    /// A string field's length falls outside its interval.
    LengthExceeded { field_name: String, value: usize, min_allowed: usize, max_allowed: usize },
    /// A count falls outside its interval.
    LimitExceeded { field_name: String, value: usize, min_allowed: usize, max_allowed: usize },
    /// A custom id collides with one registered earlier in the same message.
    DuplicateIdentifier { id: String },
    /// A field required for a given button variant is absent.
    MissingRequiredField { field_name: String },
    /// A composite component (an action row) contains zero components.
    EmptyComposite { composite_name: String },
}

/// The mathematical shadow of [`ValidationError`], with every string replaced
/// by its character sequence. Contracts and laws speak of this type.
pub enum ValidationErrorView {
    LengthExceeded { field_name: Seq<char>, value: nat, min_allowed: nat, max_allowed: nat },
    LimitExceeded { field_name: Seq<char>, value: nat, min_allowed: nat, max_allowed: nat },
    DuplicateIdentifier { id: Seq<char> },
    MissingRequiredField { field_name: Seq<char> },
    EmptyComposite { composite_name: Seq<char> },
}

impl View for ValidationError {
    type V = ValidationErrorView;

    open spec fn view(&self) -> ValidationErrorView {
        match self {
            ValidationError::LengthExceeded { field_name, value, min_allowed, max_allowed } => (
                ValidationErrorView::LengthExceeded {
                    field_name: field_name@,
                    value: *value as nat,
                    min_allowed: *min_allowed as nat,
                    max_allowed: *max_allowed as nat,
                }
            ),
            ValidationError::LimitExceeded { field_name, value, min_allowed, max_allowed } => (
                ValidationErrorView::LimitExceeded {
                    field_name: field_name@,
                    value: *value as nat,
                    min_allowed: *min_allowed as nat,
                    max_allowed: *max_allowed as nat,
                }
            ),
            ValidationError::DuplicateIdentifier { id } => (
                ValidationErrorView::DuplicateIdentifier { id: id@ }
            ),
            ValidationError::MissingRequiredField { field_name } => (
                ValidationErrorView::MissingRequiredField { field_name: field_name@ }
            ),
            ValidationError::EmptyComposite { composite_name } => (
                ValidationErrorView::EmptyComposite { composite_name: composite_name@ }
            ),
        }
    }
}

/// Maps a validation result to its mathematical shadow.
pub open spec fn result_view(r: Result<(), ValidationError>) -> Result<(), ValidationErrorView> {
    match r {
        Ok(()) => Ok(()),
        Err(e) => Err(e@),
    }
}

/// The decimal digit character for `d < 10`.
pub open spec fn spec_digit_char(d: nat) -> char {
    if d == 0 {
        '0'
    } else if d == 1 {
        '1'
    } else if d == 2 {
        '2'
    } else if d == 3 {
        '3'
    } else if d == 4 {
        '4'
    } else if d == 5 {
        '5'
    } else if d == 6 {
        '6'
    } else if d == 7 {
        '7'
    } else if d == 8 {
        '8'
    } else {
        '9'
    }
}

/// The decimal representation of `n`, most significant digit first.
pub open spec fn spec_decimal(n: nat) -> Seq<char>
    decreases n,
{
    if n < 10 {
        seq![spec_digit_char(n)]
    } else {
        spec_decimal(n / 10).push(spec_digit_char(n % 10))
    }
}

fn digit_str(d: usize) -> (r: &'static str)
    requires
        d < 10,
    ensures
        r@ == seq![spec_digit_char(d as nat)],
{
    let r: &'static str = match d {
        0 => "0",
        1 => "1",
        2 => "2",
        3 => "3",
        4 => "4",
        5 => "5",
        6 => "6",
        7 => "7",
        8 => "8",
        _ => "9",
    };
    proof {
        reveal_strlit("0");
        reveal_strlit("1");
        reveal_strlit("2");
        reveal_strlit("3");
        reveal_strlit("4");
        reveal_strlit("5");
        reveal_strlit("6");
        reveal_strlit("7");
        reveal_strlit("8");
        reveal_strlit("9");
        assert(r@ =~= seq![spec_digit_char(d as nat)]);
    }
    r
}

/// Renders `n` in decimal.
pub fn usize_to_string(n: usize) -> (r: String)
    ensures
        r@ == spec_decimal(n as nat),
    decreases n,
{
    if n < 10 {
        String::from_str(digit_str(n))
    } else {
        let prefix = usize_to_string(n / 10);
        let r = prefix.concat(digit_str(n % 10));
        proof {
            assert(r@ =~= spec_decimal((n / 10) as nat).push(spec_digit_char((n % 10) as nat)));
        }
        r
    }
}

impl ValidationError {
    /// The rendered message of an error, as a character sequence.
    pub open spec fn spec_message(e: ValidationErrorView) -> Seq<char> {
        match e {
            ValidationErrorView::LengthExceeded { field_name, value, min_allowed, max_allowed } => (
                field_name + " ("@ + spec_decimal(value) + ") not in the ["@ + spec_decimal(
                    min_allowed,
                ) + ", "@ + spec_decimal(max_allowed) + "] interval"@
            ),
            ValidationErrorView::LimitExceeded { field_name, value, min_allowed, max_allowed } => (
                field_name + " ("@ + spec_decimal(value) + ") not in the ["@ + spec_decimal(
                    min_allowed,
                ) + ", "@ + spec_decimal(max_allowed) + "] interval"@
            ),
            ValidationErrorView::DuplicateIdentifier { id } => (
                "Attempt to use the same custom ID ("@ + id + ") twice!"@
            ),
            ValidationErrorView::MissingRequiredField { field_name } => (
                "The "@ + field_name + " of the button must be set!"@
            ),
            ValidationErrorView::EmptyComposite { composite_name } => (
                "Empty "@ + composite_name + " detected!"@
            ),
        }
    }

    /// A human-readable description of the failure.
    pub fn message(&self) -> (r: String)
        ensures
            r@ == Self::spec_message(self@),
    {
        match self {
            ValidationError::LengthExceeded { field_name, value, min_allowed, max_allowed } => {
                field_name.clone().concat(" (").concat(usize_to_string(*value).as_str()).concat(
                    ") not in the [",
                ).concat(usize_to_string(*min_allowed).as_str()).concat(", ").concat(
                    usize_to_string(*max_allowed).as_str(),
                ).concat("] interval")
            },
            ValidationError::LimitExceeded { field_name, value, min_allowed, max_allowed } => {
                field_name.clone().concat(" (").concat(usize_to_string(*value).as_str()).concat(
                    ") not in the [",
                ).concat(usize_to_string(*min_allowed).as_str()).concat(", ").concat(
                    usize_to_string(*max_allowed).as_str(),
                ).concat("] interval")
            },
            ValidationError::DuplicateIdentifier { id } => {
                String::from_str("Attempt to use the same custom ID (").concat(id.as_str()).concat(
                    ") twice!",
                )
            },
            ValidationError::MissingRequiredField { field_name } => {
                String::from_str("The ").concat(field_name.as_str()).concat(
                    " of the button must be set!",
                )
            },
            ValidationError::EmptyComposite { composite_name } => {
                String::from_str("Empty ").concat(composite_name.as_str()).concat(" detected!")
            },
        }
    }
}

} // verus!
