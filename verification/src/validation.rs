//! Field constraints of the request payloads and the violations found.

use vstd::prelude::*;

verus! {

/// Fewest characters of a title.
pub const TITLE_MIN: u64 = 1;

/// Most characters of a title.
pub const TITLE_MAX: u64 = 30;

/// Fewest characters of a description.
pub const DESCRIPTION_MIN: u64 = 1;

/// Most characters of a description.
pub const DESCRIPTION_MAX: u64 = 1000;

/// A field of a payload that has a constraint.
#[derive(Debug, Clone, Copy, PartialEq, Eq)]
pub enum Field {
    Title,
    Description,
}

/// One violated length constraint: the field, the bounds that it has to keep, and
/// the value that does not keep them.
#[derive(Debug, PartialEq)]
pub struct LengthError {
    pub field: Field,
    pub min: u64,
    pub max: u64,
    pub value: String,
}

/// All the violations found in one payload, in the order of the payload's fields.
#[derive(Debug, PartialEq)]
pub struct ValidationErrors {
    pub errors: Vec<LengthError>,
}

/// [`LengthError`] as a mathematical value.
pub struct LengthErrorView {
    pub field: Field,
    pub min: u64,
    pub max: u64,
    pub value: Seq<char>,
}

/// [`ValidationErrors`] as a mathematical value.
pub struct ValidationErrorsView {
    pub errors: Seq<LengthErrorView>,
}

impl View for LengthError {
    type V = LengthErrorView;

    open spec fn view(&self) -> LengthErrorView {
        LengthErrorView { field: self.field, min: self.min, max: self.max, value: self.value@ }
    }
}

/// The violations of a list, each as a mathematical value.
pub open spec fn length_errors(errors: Seq<LengthError>) -> Seq<LengthErrorView> {
    errors.map_values(|e: LengthError| e@)
}

impl View for ValidationErrors {
    type V = ValidationErrorsView;

    open spec fn view(&self) -> ValidationErrorsView {
        ValidationErrorsView { errors: length_errors(self.errors@) }
    }
}

/// The name of the field as the payload spells it.
pub open spec fn field_name(field: Field) -> Seq<char> {
    match field {
        Field::Title => "title"@,
        Field::Description => "description"@,
    }
}

impl Field {
    /// The name of the field as the payload spells it.
    pub fn name(&self) -> (r: &'static str)
        ensures
            r@ == field_name(*self),
    {
        match self {
            Field::Title => "title",
            Field::Description => "description",
        }
    }
}

impl ValidationErrorsView {
    /// Whether a violation of `field` is among those listed.
    pub open spec fn lists(self, field: Field) -> bool {
        exists|i: int| 0 <= i < self.errors.len() && (#[trigger] self.errors[i]).field == field
    }
}

/// Whether `value` has at least `min` and at most `max` characters.
pub open spec fn length_within(value: Seq<char>, min: u64, max: u64) -> bool {
    min <= value.len() && value.len() <= max
}

/// Whether `value` is absent or has at least `min` and at most `max` characters.
pub open spec fn optional_length_within(value: Option<Seq<char>>, min: u64, max: u64) -> bool {
    match value {
        Some(value) => length_within(value, min, max),
        None => true,
    }
}

/// What checking one field yields: nothing where the value keeps the bounds, else
/// the one violation.
pub open spec fn check_of(field: Field, value: Seq<char>, min: u64, max: u64) -> Seq<
    LengthErrorView,
> {
    if length_within(value, min, max) {
        Seq::empty()
    } else {
        seq![LengthErrorView { field, min, max, value }]
    }
}

/// What checking an optional field yields: an absent field violates nothing.
pub open spec fn optional_check_of(
    field: Field,
    value: Option<Seq<char>>,
    min: u64,
    max: u64,
) -> Seq<LengthErrorView> {
    match value {
        Some(value) => check_of(field, value, min, max),
        None => Seq::empty(),
    }
}

/// The verdict on a payload with these violations.
pub open spec fn verdict_of(violations: Seq<LengthErrorView>) -> Result<(), ValidationErrorsView> {
    if violations.len() == 0 {
        Ok(())
    } else {
        Err(ValidationErrorsView { errors: violations })
    }
}

/// The view of a verdict.
pub open spec fn verdict_view(verdict: Result<(), ValidationErrors>) -> Result<
    (),
    ValidationErrorsView,
> {
    match verdict {
        Ok(()) => Ok(()),
        Err(e) => Err(e@),
    }
}

/// `validator::validate_length` with both bounds given and no exact length asked for.
/// The crate counts the characters of the string (not its bytes) and answers whether
/// the count is at least `min` and at most `max`.
#[verifier::external_body]
fn validate_length(value: &String, min: u64, max: u64) -> (ok: bool)
    ensures
        ok == length_within(value@, min, max),
{
    validator::validate_length(value, Some(min), Some(max), None)
}

/// Checks one field and adds the violation, if there is one, to `errors`.
pub fn check_length(errors: &mut Vec<LengthError>, field: Field, value: &String, min: u64, max: u64)
    ensures
        length_errors(final(errors)@) == length_errors(old(errors)@) + check_of(
            field,
            value@,
            min,
            max,
        ),
{
    if !validate_length(value, min, max) {
        let error = LengthError { field, min, max, value: value.clone() };
        errors.push(error);
    }
    assert(length_errors(errors@) =~= length_errors(old(errors)@) + check_of(
        field,
        value@,
        min,
        max,
    ));
}

/// The verdict on a payload whose checks found `errors`.
pub fn verdict(errors: Vec<LengthError>) -> (r: Result<(), ValidationErrors>)
    ensures
        verdict_view(r) == verdict_of(length_errors(errors@)),
{
    if errors.len() == 0 {
        Ok(())
    } else {
        Err(ValidationErrors { errors })
    }
}

impl ValidationErrors {
    /// A copy of the violations.
    pub fn duplicate(&self) -> (r: ValidationErrors)
        ensures
            r@ == self@,
    {
        let mut errors: Vec<LengthError> = Vec::new();
        let mut i: usize = 0;
        while i < self.errors.len()
            invariant
                i <= self.errors.len(),
                length_errors(errors@) =~= length_errors(self.errors@).subrange(0, i as int),
            decreases self.errors.len() - i,
        {
            let e = &self.errors[i];
            let ghost before = length_errors(errors@);
            errors.push(
                LengthError { field: e.field, min: e.min, max: e.max, value: e.value.clone() },
            );
            assert(length_errors(errors@) =~= before.push(self.errors@[i as int]@));
            i = i + 1;
        }
        assert(length_errors(self.errors@).subrange(0, i as int) =~= length_errors(self.errors@));
        ValidationErrors { errors }
    }
}

} // verus!
