//! The payloads of the write requests and their validation.

use crate::text::optional_text;
use crate::validation::{
    check_length, check_of, length_errors, length_within, optional_check_of,
    optional_length_within, verdict, verdict_of, verdict_view,
    Field, LengthError, LengthErrorView, ValidationErrors, ValidationErrorsView, DESCRIPTION_MAX,
    DESCRIPTION_MIN, TITLE_MAX, TITLE_MIN,
};
use vstd::prelude::*;

verus! {

/// The payload that creates a todo: every field is required.
#[derive(Debug, PartialEq)]
pub struct CreateTodoDto {
    pub title: String,
    pub description: String,
    pub done: bool,
}

/// The payload that updates a todo: only the fields present are checked and written.
#[derive(Debug, PartialEq)]
pub struct UpdateTodoDto {
    pub title: Option<String>,
    pub description: Option<String>,
    pub done: Option<bool>,
}

/// [`CreateTodoDto`] as a mathematical value.
pub struct CreateTodoDtoView {
    pub title: Seq<char>,
    pub description: Seq<char>,
    pub done: bool,
}

/// [`UpdateTodoDto`] as a mathematical value.
pub struct UpdateTodoDtoView {
    pub title: Option<Seq<char>>,
    pub description: Option<Seq<char>>,
    pub done: Option<bool>,
}

impl View for CreateTodoDto {
    type V = CreateTodoDtoView;

    open spec fn view(&self) -> CreateTodoDtoView {
        CreateTodoDtoView { title: self.title@, description: self.description@, done: self.done }
    }
}

impl View for UpdateTodoDto {
    type V = UpdateTodoDtoView;

    open spec fn view(&self) -> UpdateTodoDtoView {
        UpdateTodoDtoView {
            title: optional_text(self.title),
            description: optional_text(self.description),
            done: self.done,
        }
    }
}

impl CreateTodoDtoView {
    /// The constraints that the payload violates: the title's first, then the description's.
    pub open spec fn violations(self) -> Seq<LengthErrorView> {
        check_of(Field::Title, self.title, TITLE_MIN, TITLE_MAX) + check_of(
            Field::Description,
            self.description,
            DESCRIPTION_MIN,
            DESCRIPTION_MAX,
        )
    }

    /// `Ok` where the payload violates nothing, else all its violations.
    pub open spec fn validate(self) -> Result<(), ValidationErrorsView> {
        verdict_of(self.violations())
    }
}

impl UpdateTodoDtoView {
    /// The constraints that the fields present violate: the title's first, then the
    /// description's.
    pub open spec fn violations(self) -> Seq<LengthErrorView> {
        optional_check_of(Field::Title, self.title, TITLE_MIN, TITLE_MAX) + optional_check_of(
            Field::Description,
            self.description,
            DESCRIPTION_MIN,
            DESCRIPTION_MAX,
        )
    }

    /// `Ok` where the payload violates nothing, else all its violations.
    pub open spec fn validate(self) -> Result<(), ValidationErrorsView> {
        verdict_of(self.violations())
    }
}

impl CreateTodoDto {
    /// Checks the title and the description against their bounds and reports every
    /// violation, not only the first.
    pub fn validate(&self) -> (r: Result<(), ValidationErrors>)
        ensures
            verdict_view(r) == self@.validate(),
    {
        let mut errors: Vec<LengthError> = Vec::new();
        check_length(&mut errors, Field::Title, &self.title, TITLE_MIN, TITLE_MAX);
        check_length(
            &mut errors,
            Field::Description,
            &self.description,
            DESCRIPTION_MIN,
            DESCRIPTION_MAX,
        );
        assert(length_errors(errors@) =~= self@.violations());
        verdict(errors)
    }
}

impl UpdateTodoDto {
    /// Checks the title and the description, where they are present, against their
    /// bounds and reports every violation, not only the first.
    pub fn validate(&self) -> (r: Result<(), ValidationErrors>)
        ensures
            verdict_view(r) == self@.validate(),
    {
        let mut errors: Vec<LengthError> = Vec::new();
        match &self.title {
            Some(title) => {
                check_length(&mut errors, Field::Title, title, TITLE_MIN, TITLE_MAX);
            },
            None => {},
        }
        match &self.description {
            Some(description) => {
                check_length(
                    &mut errors,
                    Field::Description,
                    description,
                    DESCRIPTION_MIN,
                    DESCRIPTION_MAX,
                );
            },
            None => {},
        }
        assert(length_errors(errors@) =~= self@.violations());
        verdict(errors)
    }
}

/// A payload is turned down exactly when a field is out of its bounds, and the
/// violations then list each such field and no other.
pub proof fn lemma_create_violations_listed(dto: CreateTodoDtoView)
    ensures
        dto.validate() is Ok <==> length_within(dto.title, TITLE_MIN, TITLE_MAX) && length_within(
            dto.description,
            DESCRIPTION_MIN,
            DESCRIPTION_MAX,
        ),
        dto.validate() matches Err(e) ==> {
            &&& e.errors == dto.violations()
            &&& e.lists(Field::Title) <==> !length_within(dto.title, TITLE_MIN, TITLE_MAX)
            &&& e.lists(Field::Description) <==> !length_within(
                dto.description,
                DESCRIPTION_MIN,
                DESCRIPTION_MAX,
            )
        },
{
    let v = dto.violations();
    let t = check_of(Field::Title, dto.title, TITLE_MIN, TITLE_MAX);
    let d = check_of(Field::Description, dto.description, DESCRIPTION_MIN, DESCRIPTION_MAX);
    assert(v.len() == t.len() + d.len());
    if t.len() > 0 {
        assert(v[0].field == Field::Title);
    }
    if d.len() > 0 {
        assert(v[t.len() as int].field == Field::Description);
    }
}

/// An update is turned down exactly when a field that is present is out of its
/// bounds, and the violations then list each such field and no other.
pub proof fn lemma_update_violations_listed(dto: UpdateTodoDtoView)
    ensures
        dto.validate() is Ok <==> optional_length_within(dto.title, TITLE_MIN, TITLE_MAX)
            && optional_length_within(dto.description, DESCRIPTION_MIN, DESCRIPTION_MAX),
        dto.validate() matches Err(e) ==> {
            &&& e.errors == dto.violations()
            &&& e.lists(Field::Title) <==> !optional_length_within(dto.title, TITLE_MIN, TITLE_MAX)
            &&& e.lists(Field::Description) <==> !optional_length_within(
                dto.description,
                DESCRIPTION_MIN,
                DESCRIPTION_MAX,
            )
        },
{
    let v = dto.violations();
    let t = optional_check_of(Field::Title, dto.title, TITLE_MIN, TITLE_MAX);
    let d = optional_check_of(
        Field::Description,
        dto.description,
        DESCRIPTION_MIN,
        DESCRIPTION_MAX,
    );
    assert(v.len() == t.len() + d.len());
    if t.len() > 0 {
        assert(v[0].field == Field::Title);
    }
    if d.len() > 0 {
        assert(v[t.len() as int].field == Field::Description);
    }
}

} // verus!
