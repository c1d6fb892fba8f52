use crate::error::{
    rule_views, translate, translated, validation_of, ConstraintRule, ConstraintRuleView, Error,
    ErrorView, Status, StorageFailure, StorageFailureView,
};
use crate::model::{effective_limit, effective_offset, Pagination, User, UserUpdate};
use crate::store::{
    email_key, has_email, has_username, lookup, page, update_conflicts, updated, user_views,
    username_key, UserTable,
};
use vstd::prelude::*;

verus! {

/// The translation table of the create operation: a violation of either
/// uniqueness constraint is reported on the field that the constraint guards.
pub open spec fn create_rule_views() -> Seq<ConstraintRuleView> {
    seq![
        ConstraintRuleView {
            constraint: username_key(),
            field: "username"@,
            message: "already taken"@,
        },
        ConstraintRuleView { constraint: email_key(), field: "email"@, message: "already taken"@ },
    ]
}

/// The translation table of the create operation.
pub fn create_rules() -> (rules: Vec<ConstraintRule>)
    ensures
        rule_views(rules@) == create_rule_views(),
{
    let mut rules: Vec<ConstraintRule> = Vec::new();
    rules.push(
        ConstraintRule {
            constraint: "user_username_key".to_owned(),
            field: "username".to_owned(),
            message: "already taken".to_owned(),
        },
    );
    rules.push(
        ConstraintRule {
            constraint: "user_email_key".to_owned(),
            field: "email".to_owned(),
            message: "already taken".to_owned(),
        },
    );
    proof {
        assert(rule_views(rules@) =~= create_rule_views());
    }
    rules
}

/// The response to a point lookup: the row, or `NotFound` where the store
/// had none.
pub fn fetched(row: Option<User>) -> (response: Result<User, Error>)
    ensures
        match response {
            Ok(user) => row == Some(user),
            Err(error) => row is None && error@ == ErrorView::NotFound,
        },
{
    match row {
        Some(user) => Ok(user),
        None => Err(Error::NotFound),
    }
}

/// The response to a listing: the rows as the store returned them, or the
/// store's failure as an internal error.
pub fn listed(outcome: Result<Vec<User>, StorageFailure>) -> (response: Result<Vec<User>, Error>)
    ensures
        match response {
            Ok(users) => outcome == Ok::<Vec<User>, StorageFailure>(users),
            Err(error) => outcome is Err && error@ == ErrorView::Internal(outcome->Err_0@),
        },
{
    match outcome {
        Ok(users) => Ok(users),
        Err(failure) => Err(Error::Internal(failure)),
    }
}

/// The response to an insert: `Created`, or the store's failure translated
/// by the table of the create operation.
pub fn created(outcome: Result<(), StorageFailure>) -> (response: Result<Status, Error>)
    ensures
        match response {
            Ok(status) => outcome is Ok && status == Status::Created,
            Err(error) => outcome is Err && error@ == translated(
                outcome->Err_0@,
                create_rule_views(),
            ),
        },
{
    match outcome {
        Ok(()) => Ok(Status::Created),
        Err(failure) => {
            let rules = create_rules();
            Err(translate(failure, &rules))
        },
    }
}

/// The response to an update: `Accepted`, or the store's failure as an
/// internal error. No constraint is translated here.
pub fn accepted(outcome: Result<(), StorageFailure>) -> (response: Result<Status, Error>)
    ensures
        match response {
            Ok(status) => outcome is Ok && status == Status::Accepted,
            Err(error) => outcome is Err && error@ == ErrorView::Internal(outcome->Err_0@),
        },
{
    match outcome {
        Ok(()) => Ok(Status::Accepted),
        Err(failure) => Err(Error::Internal(failure)),
    }
}

/// What the table of the create operation makes of each failure: a
/// violation of the username constraint or of the e-mail constraint, which
/// are two different constraints, is reported on that field, and any other
/// failure is an internal error.
pub proof fn lemma_create_rules_translate(failure: StorageFailureView)
    ensures
        username_key() != email_key(),
        translated(failure, create_rule_views()) == if failure.constraint == Some(username_key()) {
            validation_of("username"@, "already taken"@)
        } else if failure.constraint == Some(email_key()) {
            validation_of("email"@, "already taken"@)
        } else {
            ErrorView::Internal(failure)
        },
{
    reveal_with_fuel(crate::error::translated_from, 4);
    reveal_strlit("user_username_key");
    reveal_strlit("user_email_key");
    assert(username_key().len() != email_key().len());
}

/// Fetch-one: the user with the given username, or `NotFound` exactly when
/// the table has no such user.
pub fn get_user(table: &UserTable, username: &String) -> (response: Result<User, Error>)
    requires
        table.wf(),
    ensures
        response is Ok <==> has_username(table@, username@),
        match response {
            Ok(user) => lookup(table@, username@) == Some(user@),
            Err(error) => !has_username(table@, username@) && error@ == ErrorView::NotFound,
        },
{
    fetched(table.fetch_optional(username))
}

/// List-paged: at most `limit` users starting at `offset`, where an absent
/// offset is 0 and an absent limit is the largest representable one. An
/// offset past the end gives an empty list; a negative bound is refused by
/// the store and surfaces as an internal error.
pub fn get_users(table: &UserTable, pagination: &Pagination) -> (response: Result<
    Vec<User>,
    Error,
>)
    ensures
        match response {
            Ok(users) => effective_offset(pagination.offset) >= 0 && effective_limit(
                pagination.limit,
            ) >= 0 && user_views(users@) == page(
                table@,
                effective_offset(pagination.offset) as int,
                effective_limit(pagination.limit) as int,
            ),
            Err(error) => (effective_offset(pagination.offset) < 0 || effective_limit(
                pagination.limit,
            ) < 0) && error@ is Internal && error@->Internal_0.constraint is None,
        },
{
    listed(table.fetch_page(pagination.offset(), pagination.limit()))
}

/// Create: adds `payload` to the table and answers `Created`. Where the
/// username is taken the answer is a validation error on `username`; else,
/// where the e-mail address is taken, one on `email`; either way the table
/// is left as it was.
pub fn create_user(table: &mut UserTable, payload: User) -> (response: Result<Status, Error>)
    requires
        old(table).wf(),
    ensures
        final(table).wf(),
        match response {
            Ok(status) => status == Status::Created && !has_username(
                old(table)@,
                payload@.username,
            ) && !has_email(old(table)@, payload@.email) && final(table)@ == old(table)@.push(
                payload@,
            ),
            Err(error) => final(table)@ == old(table)@ && if has_username(
                old(table)@,
                payload@.username,
            ) {
                error@ == validation_of("username"@, "already taken"@)
            } else {
                has_email(old(table)@, payload@.email) && error@ == validation_of(
                    "email"@,
                    "already taken"@,
                )
            },
        },
{
    let outcome = table.insert(payload);
    proof {
        if outcome is Err {
            lemma_create_rules_translate(outcome->Err_0@);
        }
    }
    created(outcome)
}

/// Patch: overwrites the fields that `payload` supplies on the user named
/// `username`, leaves the others as stored, and answers `Accepted`; also
/// where no user has that name, in which case nothing changes. Where the
/// new e-mail address belongs to another user the store refuses, nothing
/// changes, and the answer is an internal error.
pub fn update_user(table: &mut UserTable, username: &String, payload: &UserUpdate) -> (response:
    Result<Status, Error>)
    requires
        old(table).wf(),
    ensures
        final(table).wf(),
        match response {
            Ok(status) => status == Status::Accepted && !update_conflicts(
                old(table)@,
                username@,
                payload@,
            ) && final(table)@ == updated(old(table)@, username@, payload@),
            Err(error) => update_conflicts(old(table)@, username@, payload@) && final(table)@
                == old(table)@ && error@ is Internal && error@->Internal_0.constraint == Some(
                email_key(),
            ),
        },
{
    accepted(table.update(username, payload))
}

} // verus!
