use crate::model::{patched, UserUpdateView, UserView};
use crate::store::{
    has_username, lookup, page, update_conflicts, updated, username_key, violated_on_insert,
    well_formed,
};
use vstd::prelude::*;

verus! {

/// In a well-formed table, looking up the username of the row at index `i`
/// gives that row.
pub proof fn lemma_lookup_finds_row(rows: Seq<UserView>, i: int)
    requires
        well_formed(rows),
        0 <= i < rows.len(),
    ensures
        lookup(rows, rows[i].username) == Some(rows[i]),
{
    let username = rows[i].username;
    assert(has_username(rows, username));
    let k = choose|k: int| 0 <= k < rows.len() && (#[trigger] rows[k]).username == username;
    assert(k == i);
}

/// A listing holds `limit` rows where the table has that many from `offset`
/// on, else those that are left; from an offset at or past the end, none.
/// Its rows are the table's, in the table's order.
pub proof fn lemma_page_is_window(rows: Seq<UserView>, offset: int, limit: int)
    requires
        offset >= 0,
        limit >= 0,
    ensures
        page(rows, offset, limit).len() == if offset >= rows.len() {
            0
        } else if limit <= rows.len() - offset {
            limit
        } else {
            rows.len() - offset
        },
        forall|k: int|
            0 <= k < page(rows, offset, limit).len() ==> #[trigger] page(rows, offset, limit)[k]
                == rows[offset + k],
{
}

/// A user whose creation succeeded is then found under its username,
/// exactly as it was stored; every other username is looked up as before;
/// and the table still keeps its constraints.
pub proof fn lemma_created_user_is_found(rows: Seq<UserView>, user: UserView)
    requires
        well_formed(rows),
        violated_on_insert(rows, user) is None,
    ensures
        well_formed(rows.push(user)),
        lookup(rows.push(user), user.username) == Some(user),
        forall|other: Seq<char>|
            other != user.username ==> lookup(rows.push(user), other) == lookup(rows, other),
{
    let after = rows.push(user);
    assert forall|i: int, j: int|
        0 <= i < after.len() && 0 <= j < after.len() && i != j implies {
        &&& (#[trigger] after[i]).username != (#[trigger] after[j]).username
        &&& after[i].email != after[j].email
    } by {
        if i < rows.len() {
            assert(after[i] == rows[i]);
        }
        if j < rows.len() {
            assert(after[j] == rows[j]);
        }
    }
    assert(after[rows.len() as int] == user);
    lemma_lookup_finds_row(after, rows.len() as int);
    assert forall|other: Seq<char>| other != user.username implies lookup(after, other) == lookup(
        rows,
        other,
    ) by {
        if has_username(rows, other) {
            let k = choose|k: int| 0 <= k < rows.len() && (#[trigger] rows[k]).username == other;
            assert(after[k] == rows[k]);
            lemma_lookup_finds_row(after, k);
            lemma_lookup_finds_row(rows, k);
        } else {
            if has_username(after, other) {
                let k = choose|k: int|
                    0 <= k < after.len() && (#[trigger] after[k]).username == other;
                assert(k < rows.len());
                assert(rows[k] == after[k]);
            }
        }
    }
}

/// In a well-formed table a patch reaches exactly the user it names: that
/// user is afterwards found with the supplied fields overwritten and the
/// others as stored, a missing user is still missing, and every other user
/// is found as before.
pub proof fn lemma_patch_reaches_named_user(
    rows: Seq<UserView>,
    username: Seq<char>,
    change: UserUpdateView,
)
    requires
        well_formed(rows),
    ensures
        lookup(updated(rows, username, change), username) == match lookup(rows, username) {
            Some(stored) => Some(patched(stored, change)),
            None => None,
        },
        forall|other: Seq<char>|
            other != username ==> lookup(updated(rows, username, change), other) == lookup(
                rows,
                other,
            ),
{
    let after = updated(rows, username, change);
    assert forall|name: Seq<char>| has_username(after, name) == has_username(rows, name) by {
        if has_username(rows, name) {
            let k = choose|k: int| 0 <= k < rows.len() && (#[trigger] rows[k]).username == name;
            assert(after[k].username == name);
        }
        if has_username(after, name) {
            let k = choose|k: int| 0 <= k < after.len() && (#[trigger] after[k]).username == name;
            assert(rows[k].username == name);
        }
    }
    assert forall|name: Seq<char>| has_username(rows, name) implies lookup(after, name) == (
    if name == username {
        Some(patched(lookup(rows, name)->Some_0, change))
    } else {
        lookup(rows, name)
    }) by {
        let k = choose|k: int| 0 <= k < rows.len() && (#[trigger] rows[k]).username == name;
        let m = choose|m: int| 0 <= m < after.len() && (#[trigger] after[m]).username == name;
        assert(has_username(after, name));
        assert(rows[m].username == name);
        assert(m == k);
    }
}

/// A patch that supplies only `bio` is never refused, sets the `bio` of the
/// user it names, and leaves every user's `email` and `username`, and every
/// other user's `bio`, exactly as stored.
pub proof fn lemma_patch_bio_keeps_email(rows: Seq<UserView>, username: Seq<char>, bio: Seq<char>)
    ensures
        ({
            let change = UserUpdateView { email: None, bio: Some(bio) };
            let after = updated(rows, username, change);
            &&& !update_conflicts(rows, username, change)
            &&& after.len() == rows.len()
            &&& forall|i: int|
                0 <= i < rows.len() ==> (#[trigger] after[i]).email == rows[i].email && after[i].username
                    == rows[i].username
            &&& forall|i: int|
                0 <= i < rows.len() && rows[i].username == username ==> (#[trigger] after[i]).bio
                    == bio
            &&& forall|i: int|
                0 <= i < rows.len() && rows[i].username != username ==> (#[trigger] after[i])
                    == rows[i]
            &&& well_formed(rows) ==> well_formed(after)
        }),
{
}

/// A patch that supplies nothing is never refused and leaves the table
/// exactly as it was.
pub proof fn lemma_empty_patch_changes_nothing(rows: Seq<UserView>, username: Seq<char>)
    ensures
        ({
            let change = UserUpdateView { email: None, bio: None };
            &&& !update_conflicts(rows, username, change)
            &&& updated(rows, username, change) == rows
        }),
{
    let change = UserUpdateView { email: None, bio: None };
    assert(updated(rows, username, change) =~= rows);
}

/// Of two creations under one username, applied one after the other to a
/// table that would take the first, the first succeeds and the second is
/// refused on the username constraint, whatever its other fields are. The
/// same holds with the two exchanged, so exactly one of them succeeds.
pub proof fn lemma_second_create_is_refused(rows: Seq<UserView>, first: UserView, second: UserView)
    requires
        first.username == second.username,
        violated_on_insert(rows, first) is None,
    ensures
        violated_on_insert(rows.push(first), second) == Some(username_key()),
{
    let after = rows.push(first);
    assert(after[rows.len() as int].username == second.username);
}

} // verus!
