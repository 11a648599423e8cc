//! The periodic clean-up: files past their deletion time and accounts past their end
//! date are removed.

use vstd::prelude::*;
use crate::clock::{latest_time, unix_now};
use crate::models::{FileDB, UserDB};

verus! {

/// The stored names of the files in `files` whose deletion time is before `now`, in order.
pub open spec fn expired_file_names(files: Seq<FileDB>, now: i64) -> Seq<Seq<char>>
    decreases files.len(),
{
    if files.len() == 0 {
        seq![]
    } else {
        let rest = expired_file_names(files.drop_last(), now);
        let f = files.last();
        if file_due(f, now) {
            rest.push(f.saved_name@)
        } else {
            rest
        }
    }
}

/// The ids of the accounts in `users` whose end date is before `now`, in order.
pub open spec fn expired_user_ids(users: Seq<UserDB>, now: i64) -> Seq<i64>
    decreases users.len(),
{
    if users.len() == 0 {
        seq![]
    } else {
        let rest = expired_user_ids(users.drop_last(), now);
        let u = users.last();
        if account_due(u, now) {
            rest.push(u.id)
        } else {
            rest
        }
    }
}

/// The file `f` is due for deletion at `now`: it has a deletion time, and it is past.
pub open spec fn file_due(f: FileDB, now: i64) -> bool {
    f.destroy matches Some(t) && t < now
}

/// The account `u` is due for deletion at `now`: it has an end date, and it is past.
pub open spec fn account_due(u: UserDB, now: i64) -> bool {
    u.terminate matches Some(t) && t < now
}

/// A stored name is in the clean-up's list exactly when some file with that name is due;
/// files without a deletion time, or whose time has not come, stay.
pub proof fn lemma_expired_files_are_the_due_ones(files: Seq<FileDB>, now: i64, name: Seq<char>)
    ensures
        expired_file_names(files, now).contains(name) <==> exists|i: int|
            0 <= i < files.len() && #[trigger] files[i].saved_name@ == name && file_due(files[i], now),
    decreases files.len(),
{
    if files.len() > 0 {
        let init = files.drop_last();
        lemma_expired_files_are_the_due_ones(init, now, name);
        let rest = expired_file_names(init, now);
        let f = files.last();
        if exists|i: int| 0 <= i < files.len() && #[trigger] files[i].saved_name@ == name && file_due(files[i], now) {
            let i = choose|i: int| 0 <= i < files.len() && #[trigger] files[i].saved_name@ == name && file_due(files[i], now);
            if i < files.len() - 1 {
                assert(init[i] == files[i]);
                assert(rest.contains(name));
                if file_due(f, now) {
                    assert(rest.push(f.saved_name@)[rest.index_of(name)] == name);
                }
            } else {
                assert(rest.push(f.saved_name@)[rest.len() as int] == name);
            }
        }
        if expired_file_names(files, now).contains(name) {
            if file_due(f, now) && f.saved_name@ == name {
                assert(files[files.len() - 1].saved_name@ == name);
            } else {
                let k = choose|k: int| 0 <= k < expired_file_names(files, now).len() && expired_file_names(files, now)[k] == name;
                if file_due(f, now) {
                    assert(k < rest.len());
                    assert(rest[k] == name);
                }
                assert(rest.contains(name));
                let j = choose|j: int| 0 <= j < init.len() && #[trigger] init[j].saved_name@ == name && file_due(init[j], now);
                assert(files[j] == init[j]);
            }
        }
    }
}

/// An account id is in the clean-up's list exactly when some account with that id is
/// due; accounts without an end date, or whose end has not come, stay.
pub proof fn lemma_expired_accounts_are_the_due_ones(users: Seq<UserDB>, now: i64, id: i64)
    ensures
        expired_user_ids(users, now).contains(id) <==> exists|i: int|
            0 <= i < users.len() && #[trigger] users[i].id == id && account_due(users[i], now),
    decreases users.len(),
{
    if users.len() > 0 {
        let init = users.drop_last();
        lemma_expired_accounts_are_the_due_ones(init, now, id);
        let rest = expired_user_ids(init, now);
        let u = users.last();
        if exists|i: int| 0 <= i < users.len() && #[trigger] users[i].id == id && account_due(users[i], now) {
            let i = choose|i: int| 0 <= i < users.len() && #[trigger] users[i].id == id && account_due(users[i], now);
            if i < users.len() - 1 {
                assert(init[i] == users[i]);
                assert(rest.contains(id));
                if account_due(u, now) {
                    assert(rest.push(u.id)[rest.index_of(id)] == id);
                }
            } else {
                assert(rest.push(u.id)[rest.len() as int] == id);
            }
        }
        if expired_user_ids(users, now).contains(id) {
            if account_due(u, now) && u.id == id {
                assert(users[users.len() - 1].id == id);
            } else {
                let k = choose|k: int| 0 <= k < expired_user_ids(users, now).len() && expired_user_ids(users, now)[k] == id;
                if account_due(u, now) {
                    assert(k < rest.len());
                    assert(rest[k] == id);
                }
                assert(rest.contains(id));
                let j = choose|j: int| 0 <= j < init.len() && #[trigger] init[j].id == id && account_due(init[j], now);
                assert(users[j] == init[j]);
            }
        }
    }
}

/// The texts of a list of strings.
pub open spec fn texts(v: Seq<String>) -> Seq<Seq<char>> {
    v.map_values(|s: String| s@)
}

/// The stored names of the files to delete at `now`.
pub fn expired_files(files: &Vec<FileDB>, now: i64) -> (r: Vec<String>)
    ensures
        texts(r@) == expired_file_names(files@, now),
{
    let mut r: Vec<String> = Vec::new();
    let mut i: usize = 0;
    assert(files@.take(0) =~= seq![]);
    assert(texts(r@) =~= seq![]);
    while i < files.len()
        invariant
            i <= files.len(),
            texts(r@) == expired_file_names(files@.take(i as int), now),
        decreases files.len() - i,
    {
        let f = &files[i];
        assert(files@.take(i + 1).drop_last() =~= files@.take(i as int));
        assert(files@.take(i + 1).last() == files@[i as int]);
        let expired = match f.destroy {
            Some(t) => t < now,
            None => false,
        };
        if expired {
            let ghost before = r@;
            r.push(f.saved_name.clone());
            assert(texts(r@) =~= texts(before).push(f.saved_name@));
        }
        i += 1;
    }
    assert(files@.take(files.len() as int) =~= files@);
    r
}

/// The ids of the accounts to delete at `now`.
pub fn expired_users(users: &Vec<UserDB>, now: i64) -> (r: Vec<i64>)
    ensures
        r@ == expired_user_ids(users@, now),
{
    let mut r: Vec<i64> = Vec::new();
    let mut i: usize = 0;
    assert(users@.take(0) =~= seq![]);
    while i < users.len()
        invariant
            i <= users.len(),
            r@ == expired_user_ids(users@.take(i as int), now),
        decreases users.len() - i,
    {
        let u = &users[i];
        assert(users@.take(i + 1).drop_last() =~= users@.take(i as int));
        assert(users@.take(i + 1).last() == users@[i as int]);
        let expired = match u.terminate {
            Some(t) => t < now,
            None => false,
        };
        if expired {
            r.push(u.id);
        }
        i += 1;
    }
    assert(users@.take(users.len() as int) =~= users@);
    r
}

/// What one round of the clean-up deletes.
#[derive(Debug)]
pub struct DeletionPlan {
    /// The stored names of the files to delete.
    pub files: Vec<String>,
    /// The ids of the accounts to delete.
    pub users: Vec<i64>,
}

/// What the clean-up deletes at `now`, among the given files and accounts.
pub fn plan_deletion(files: &Vec<FileDB>, users: &Vec<UserDB>, now: i64) -> (p: DeletionPlan)
    ensures
        texts(p.files@) == expired_file_names(files@, now),
        p.users@ == expired_user_ids(users@, now),
{
    DeletionPlan { files: expired_files(files, now), users: expired_users(users, now) }
}

/// What the clean-up deletes now, among the given files and accounts; `None` when the
/// clock cannot be read (it is set before the Unix epoch or past the last time that can be
/// held).
pub fn scheduled_deletion(files: &Vec<FileDB>, users: &Vec<UserDB>) -> (p: Option<DeletionPlan>)
    ensures
        (p matches Some(plan) ==> exists|now: i64|
            0 <= now <= latest_time() && #[trigger] expired_file_names(files@, now) == texts(
                plan.files@,
            ) && expired_user_ids(users@, now) == plan.users@),
{
    match unix_now() {
        Some(now) => Some(plan_deletion(files, users, now)),
        None => None,
    }
}


/// A file is due exactly when it has a deletion time and that time is before `now`; an
/// account exactly when it has an end date before `now`.
pub proof fn lemma_due_means_past(f: FileDB, u: UserDB, now: i64)
    ensures
        file_due(f, now) <==> (f.destroy matches Some(t) && t < now),
        account_due(u, now) <==> (u.terminate matches Some(t) && t < now),
{
}

} // verus!
