use crate::model::text_of;
use vstd::prelude::*;

verus! {

/// What the store reports when it rejects a statement: the name of the
/// integrity constraint that was violated, if that was the cause, and the
/// store's own description of the failure.
#[derive(Debug, PartialEq, Eq)]
pub struct StorageFailure {
    pub constraint: Option<String>,
    pub detail: String,
}

/// The mathematical value of a [`StorageFailure`].
pub struct StorageFailureView {
    pub constraint: Option<Seq<char>>,
    pub detail: Seq<char>,
}

impl View for StorageFailure {
    type V = StorageFailureView;

    open spec fn view(&self) -> StorageFailureView {
        StorageFailureView { constraint: text_of(self.constraint), detail: self.detail@ }
    }
}

/// One entry of a validation error: the offending field and what is wrong with it.
#[derive(Debug, PartialEq, Eq)]
pub struct FieldError {
    pub field: String,
    pub message: String,
}

/// The mathematical value of a [`FieldError`].
pub struct FieldErrorView {
    pub field: Seq<char>,
    pub message: Seq<char>,
}

impl View for FieldError {
    type V = FieldErrorView;

    open spec fn view(&self) -> FieldErrorView {
        FieldErrorView { field: self.field@, message: self.message@ }
    }
}

/// The three kinds of error that a client can tell apart.
#[derive(Debug, PartialEq, Eq)]
pub enum Error {
    /// No resource matches the request.
    NotFound,
    /// The input conflicts with existing data; one entry per offending field.
    Validation(Vec<FieldError>),
    /// Any other failure of the store, handed on unchanged.
    Internal(StorageFailure),
}

/// The mathematical value of an [`Error`].
pub enum ErrorView {
    NotFound,
    Validation(Seq<FieldErrorView>),
    Internal(StorageFailureView),
}

/// The views of a list of field errors, in order.
pub open spec fn field_errors(entries: Seq<FieldError>) -> Seq<FieldErrorView> {
    entries.map_values(|entry: FieldError| entry@)
}

impl View for Error {
    type V = ErrorView;

    open spec fn view(&self) -> ErrorView {
        match self {
            Error::NotFound => ErrorView::NotFound,
            Error::Validation(entries) => ErrorView::Validation(field_errors(entries@)),
            Error::Internal(failure) => ErrorView::Internal(failure@),
        }
    }
}

/// A validation error with the single entry (`field`, `message`).
pub open spec fn validation_of(field: Seq<char>, message: Seq<char>) -> ErrorView {
    ErrorView::Validation(seq![FieldErrorView { field, message }])
}

/// The HTTP status that an error is surfaced with.
pub open spec fn status_of(error: ErrorView) -> u16 {
    match error {
        ErrorView::NotFound => 404u16,
        ErrorView::Validation(_) => 422u16,
        ErrorView::Internal(_) => 500u16,
    }
}

impl Error {
    /// A validation error that names one field and says what is wrong with it.
    pub fn unprocessable_entity(field: &str, message: &str) -> (error: Error)
        ensures
            error@ == validation_of(field@, message@),
    {
        let entry = FieldError { field: field.to_owned(), message: message.to_owned() };
        let mut entries: Vec<FieldError> = Vec::new();
        entries.push(entry);
        proof {
            assert(field_errors(entries@) =~= seq![
                FieldErrorView { field: field@, message: message@ },
            ]);
        }
        Error::Validation(entries)
    }

    /// The HTTP status that this error is surfaced with: 404, 422 or 500.
    pub fn status_code(&self) -> (code: u16)
        ensures
            code == status_of(self@),
    {
        match self {
            Error::NotFound => 404,
            Error::Validation(_) => 422,
            Error::Internal(_) => 500,
        }
    }
}

/// One line of a translation table: a violation of `constraint` is reported
/// to the client as `message` on `field`.
#[derive(Debug, PartialEq, Eq)]
pub struct ConstraintRule {
    pub constraint: String,
    pub field: String,
    pub message: String,
}

/// The mathematical value of a [`ConstraintRule`].
pub struct ConstraintRuleView {
    pub constraint: Seq<char>,
    pub field: Seq<char>,
    pub message: Seq<char>,
}

impl View for ConstraintRule {
    type V = ConstraintRuleView;

    open spec fn view(&self) -> ConstraintRuleView {
        ConstraintRuleView {
            constraint: self.constraint@,
            field: self.field@,
            message: self.message@,
        }
    }
}

/// The views of a translation table's rules, in order.
pub open spec fn rule_views(rules: Seq<ConstraintRule>) -> Seq<ConstraintRuleView> {
    rules.map_values(|rule: ConstraintRule| rule@)
}

/// Whether `failure` is a violation of the constraint that `rule` is about.
pub open spec fn rule_applies(rule: ConstraintRuleView, failure: StorageFailureView) -> bool {
    failure.constraint == Some(rule.constraint)
}

/// The error that `failure` is reported as under `rules`, looking only at
/// the rules from index `from` on: the first rule that applies decides, and
/// a failure to which none applies is handed on as an internal error.
pub open spec fn translated_from(
    failure: StorageFailureView,
    rules: Seq<ConstraintRuleView>,
    from: int,
) -> ErrorView
    decreases rules.len() - from,
{
    if from < 0 || from >= rules.len() {
        ErrorView::Internal(failure)
    } else if rule_applies(rules[from], failure) {
        validation_of(rules[from].field, rules[from].message)
    } else {
        translated_from(failure, rules, from + 1)
    }
}

/// The error that `failure` is reported as under `rules`.
pub open spec fn translated(failure: StorageFailureView, rules: Seq<ConstraintRuleView>) -> ErrorView {
    translated_from(failure, rules, 0)
}

/// Whether an optional string holds exactly `text`.
fn holds_text(value: &Option<String>, text: &String) -> (same: bool)
    ensures
        same == (text_of(*value) == Some(text@)),
{
    match value {
        Some(held) => *held == *text,
        None => false,
    }
}

/// Translates a failure of the store into the error that the client sees.
/// A violation of a constraint that `rules` names becomes a validation error
/// on that rule's field; every other failure becomes an internal error that
/// carries the failure unchanged.
pub fn translate(failure: StorageFailure, rules: &Vec<ConstraintRule>) -> (error: Error)
    ensures
        error@ == translated(failure@, rule_views(rules@)),
{
    let mut index: usize = 0;
    while index < rules.len()
        invariant
            index <= rules.len(),
            translated(failure@, rule_views(rules@)) == translated_from(
                failure@,
                rule_views(rules@),
                index as int,
            ),
        decreases rules.len() - index,
    {
        let rule = &rules[index];
        if holds_text(&failure.constraint, &rule.constraint) {
            return Error::unprocessable_entity(rule.field.as_str(), rule.message.as_str());
        }
        index += 1;
    }
    Error::Internal(failure)
}

/// The status of a successful response.
#[derive(Clone, Copy, PartialEq, Eq, Structural, Debug)]
pub enum Status {
    /// 200: the body holds what was asked for.
    Found,
    /// 201: the resource was created.
    Created,
    /// 202: the change was accepted.
    Accepted,
}

impl Status {
    /// The HTTP status code: 200, 201 or 202.
    pub fn code(&self) -> (code: u16)
        ensures
            code == match *self {
                Status::Found => 200u16,
                Status::Created => 201u16,
                Status::Accepted => 202u16,
            },
    {
        match self {
            Status::Found => 200,
            Status::Created => 201,
            Status::Accepted => 202,
        }
    }
}

} // verus!
