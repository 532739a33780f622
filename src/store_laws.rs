//! What holds of sequences of the store's commands.
use crate::db::{
    Action, DBError, NameOrID, ResponseView, StatusReport, Tables, add_session_key_spec,
    add_user_spec, counted, create_channel_list_spec, inc, executes, get_active_channel_spec, key_in,
    list_named, list_names, list_with_id, logout_session_key_spec, set_active_channel_spec,
    set_channel_list_spec, tables_wf, user_lookup, user_named, user_with_code, user_with_id,
    validate_account_spec, validate_session_key_spec,
};
use crate::db_models::{ListView, SessKeyView};
use crate::helpers::{SessType, is_expired};
use crate::row_count::{
    count_where, index_where, lemma_count_at_most_one, lemma_count_positive, lemma_count_push,
    lemma_count_remove, lemma_count_update, lemma_keep_count, lemma_single_found,
    lemma_single_index,
};
use vstd::prelude::*;

verus! {

/// A session key is accepted, and its last use set to the time of the
/// check, while its age is within its class's maximum; past that age the
/// check deletes it and answers `(false, 0)`, and a later check of the token
/// answers `(false, 0)` again and changes nothing.
pub proof fn lemma_session_expiry(
    t: Tables,
    sess_type: SessType,
    sess_key: Seq<char>,
    now: i64,
    later: i64,
)
    requires
        count_where(t.sess_keys, key_in(sess_type, sess_key)) == 1,
    ensures
        ({
            let j = index_where(t.sess_keys, key_in(sess_type, sess_key));
            let row = t.sess_keys[j];
            let (t2, r) = validate_session_key_spec(t, sess_type, sess_key, now);
            &&& !is_expired(sess_type, row.creationtime, now) ==> {
                &&& r == Ok::<ResponseView, DBError>(ResponseView::ValidatedKey(true, row.userid))
                &&& t2.sess_keys[j].lastusedtime == now
                &&& count_where(t2.sess_keys, key_in(sess_type, sess_key)) == 1
            }
            &&& is_expired(sess_type, row.creationtime, now) ==> {
                &&& r == Ok::<ResponseView, DBError>(ResponseView::ValidatedKey(false, 0))
                &&& count_where(t2.sess_keys, key_in(sess_type, sess_key)) == 0
                &&& validate_session_key_spec(t2, sess_type, sess_key, later) == (
                    t2,
                    Ok::<ResponseView, DBError>(ResponseView::ValidatedKey(false, 0)),
                )
            }
        }),
{
    let p = key_in(sess_type, sess_key);
    lemma_single_found(t.sess_keys, p);
    let j = index_where(t.sess_keys, p);
    let row = t.sess_keys[j];
    if is_expired(sess_type, row.creationtime, now) {
        lemma_count_remove(t.sess_keys, p, j);
    } else {
        lemma_count_update(t.sess_keys, p, j, SessKeyView { lastusedtime: now, ..row });
    }
}

/// Two session keys issued to one user under one class, with different
/// tokens, are each accepted for that user, one after the other, while
/// young enough.
pub proof fn lemma_two_keys_both_valid(
    t: Tables,
    user: NameOrID,
    sess_type: SessType,
    k1: Seq<char>,
    k2: Seq<char>,
    now: i64,
    later: i64,
)
    requires
        count_where(t.users, user_lookup(user)) == 1,
        count_where(t.sess_keys, key_in(sess_type, k1)) == 0,
        count_where(t.sess_keys, key_in(sess_type, k2)) == 0,
        k1 != k2,
        t.next_sess_id < i32::MAX - 1,
        !is_expired(sess_type, now, later),
    ensures
        ({
            let uid = t.users[index_where(t.users, user_lookup(user))].id;
            let (t1, a1) = add_session_key_spec(t, user, sess_type, k1, now);
            let (t2, a2) = add_session_key_spec(t1, user, sess_type, k2, now);
            let (t3, r1) = validate_session_key_spec(t2, sess_type, k1, later);
            let (_, r2) = validate_session_key_spec(t3, sess_type, k2, later);
            &&& a1 == Ok::<ResponseView, DBError>(ResponseView::Empty)
            &&& a2 == Ok::<ResponseView, DBError>(ResponseView::Empty)
            &&& r1 == Ok::<ResponseView, DBError>(ResponseView::ValidatedKey(true, uid))
            &&& r2 == Ok::<ResponseView, DBError>(ResponseView::ValidatedKey(true, uid))
        }),
{
    let pu = user_lookup(user);
    let has_k1 = key_in(sess_type, k1);
    let has_k2 = key_in(sess_type, k2);
    lemma_single_found(t.users, pu);
    let (t1, _) = add_session_key_spec(t, user, sess_type, k1, now);
    let (t2, _) = add_session_key_spec(t1, user, sess_type, k2, now);
    let n: int = t.sess_keys.len() as int;
    let row1 = t1.sess_keys[n];
    let row2 = t2.sess_keys[n + 1];
    lemma_count_push(t.sess_keys, has_k1, row1);
    lemma_count_push(t.sess_keys, has_k2, row1);
    lemma_count_push(t1.sess_keys, has_k1, row2);
    lemma_count_push(t1.sess_keys, has_k2, row2);
    assert(t2.sess_keys[n] == row1);
    lemma_single_index(t2.sess_keys, has_k1, n);
    let (t3, _) = validate_session_key_spec(t2, sess_type, k1, later);
    lemma_count_update(t2.sess_keys, has_k2, n, SessKeyView { lastusedtime: later, ..row1 });
    assert(t3.sess_keys[n + 1] == row2);
    lemma_single_index(t3.sess_keys, has_k2, n + 1);
}

/// Logging a session key out leaves no row for its token, so a later check
/// of the token answers `(false, 0)` and changes nothing.
pub proof fn lemma_logout_then_refused(
    t: Tables,
    sess_type: SessType,
    sess_key: Seq<char>,
    now: i64,
)
    ensures
        ({
            let (t2, r) = logout_session_key_spec(t, sess_type, sess_key);
            &&& r == Ok::<ResponseView, DBError>(ResponseView::Empty)
            &&& count_where(t2.sess_keys, key_in(sess_type, sess_key)) == 0
            &&& validate_session_key_spec(t2, sess_type, sess_key, now) == (
                t2,
                Ok::<ResponseView, DBError>(ResponseView::ValidatedKey(false, 0)),
            )
        }),
{
    lemma_keep_count(t.sess_keys, key_in(sess_type, sess_key));
}

/// Commands run one after another on the store's counters: two status
/// requests in a row read counts one apart, and the second read includes the
/// first, so no count is lost between them.
pub proof fn lemma_no_lost_update(
    report: StatusReport,
    first: Result<ResponseView, DBError>,
    second: Result<ResponseView, DBError>,
)
    requires
        report.get_status_report < u32::MAX - 1,
    ensures
        ({
            let r1 = counted(report, Action::GetStatusReport, first);
            let r2 = counted(r1, Action::GetStatusReport, second);
            &&& r1.get_status_report == report.get_status_report + 1
            &&& r2.get_status_report == r1.get_status_report + 1
        }),
{
}

/// Creating a list under a name the user already has is refused with
/// `EntryAlreadyExists` and changes nothing; another user may still create a
/// list of that name.
pub proof fn lemma_create_list_twice(t: Tables, user_id: i32, other_id: i32, name: Seq<char>)
    requires
        count_where(t.lists, list_named(user_id, name)) == 0,
        count_where(t.lists, list_named(other_id, name)) == 0,
        user_id != other_id,
        t.next_list_id < i32::MAX - 1,
    ensures
        ({
            let (t1, r1) = create_channel_list_spec(t, user_id, name);
            let (t2, r2) = create_channel_list_spec(t1, user_id, name);
            let (_, r3) = create_channel_list_spec(t2, other_id, name);
            &&& r1 == Ok::<ResponseView, DBError>(ResponseView::Empty)
            &&& r2 == Err::<ResponseView, DBError>(DBError::EntryAlreadyExists)
            &&& t2 == t1
            &&& r3 == Ok::<ResponseView, DBError>(ResponseView::Empty)
        }),
{
    let (t1, _) = create_channel_list_spec(t, user_id, name);
    let row = t1.lists[t.lists.len() as int];
    lemma_count_push(t.lists, list_named(user_id, name), row);
    lemma_count_push(t.lists, list_named(other_id, name), row);
}

/// Validating an account by a code that no pending account holds fails
/// with a count of zero, distinct from the success of exactly one; a code
/// that several accounts hold is an error too, never a success.
pub proof fn lemma_validate_account_counts(t: Tables, val_code: Seq<char>)
    ensures
        ({
            let n = count_where(t.users, user_with_code(val_code));
            let r = validate_account_spec(t, val_code).1;
            &&& n == 0 ==> r == Err::<ResponseView, DBError>(DBError::InvalidRowCount(0))
            &&& n == 1 ==> r == Ok::<ResponseView, DBError>(ResponseView::Bool(true))
            &&& n >= 2 ==> r is Err && r != Err::<ResponseView, DBError>(
                DBError::InvalidRowCount(0),
            ) && r != Err::<ResponseView, DBError>(DBError::InvalidRowCount(1))
        }),
{
}

/// Registering a user, validating the account with its code, and issuing a
/// browser session key by the user's name lets that key be validated as the
/// new user's.
pub proof fn lemma_register_then_login(
    t: Tables,
    user: String,
    pass_hash: Seq<char>,
    pass_hash_ver: i32,
    val_code: Seq<char>,
    sess_key: Seq<char>,
    now: i64,
    later: i64,
)
    requires
        count_where(t.users, user_named(user@)) == 0,
        count_where(t.users, user_with_code(val_code)) == 0,
        count_where(t.sess_keys, key_in(SessType::Frontend, sess_key)) == 0,
        t.next_user_id < i32::MAX,
        t.next_sess_id < i32::MAX,
        !is_expired(SessType::Frontend, now, later),
    ensures
        ({
            let (t1, r1) = add_user_spec(t, user@, pass_hash, pass_hash_ver, val_code);
            let (t2, r2) = validate_account_spec(t1, val_code);
            let (t3, r3) = add_session_key_spec(
                t2,
                NameOrID::Name(user),
                SessType::Frontend,
                sess_key,
                now,
            );
            let (_, r4) = validate_session_key_spec(t3, SessType::Frontend, sess_key, later);
            &&& r1 == Ok::<ResponseView, DBError>(ResponseView::UserID(t.next_user_id))
            &&& r2 == Ok::<ResponseView, DBError>(ResponseView::Bool(true))
            &&& r3 == Ok::<ResponseView, DBError>(ResponseView::Empty)
            &&& r4 == Ok::<ResponseView, DBError>(
                ResponseView::ValidatedKey(true, t.next_user_id),
            )
        }),
{
    let n = t.users.len();
    let (t1, _) = add_user_spec(t, user@, pass_hash, pass_hash_ver, val_code);
    let row = t1.users[n as int];
    lemma_count_push(t.users, user_named(user@), row);
    lemma_count_push(t.users, user_with_code(val_code), row);
    lemma_single_index(t1.users, user_with_code(val_code), n as int);
    let (t2, _) = validate_account_spec(t1, val_code);
    lemma_count_update(t1.users, user_named(user@), n as int, t2.users[n as int]);
    lemma_single_index(t2.users, user_named(user@), n as int);
    let (t3, _) = add_session_key_spec(t2, NameOrID::Name(user), SessType::Frontend, sess_key, now);
    let m = t.sess_keys.len();
    lemma_count_push(t2.sess_keys, key_in(SessType::Frontend, sess_key), t3.sess_keys[m as int]);
    lemma_single_index(t3.sess_keys, key_in(SessType::Frontend, sess_key), m as int);
}

/// Tables whose account ids and list ids stay as they were, row by row, stay
/// well formed.
proof fn lemma_same_ids_keep_wf(t: Tables, t2: Tables)
    requires
        tables_wf(t),
        t2.users.len() == t.users.len(),
        t2.lists.len() == t.lists.len(),
        forall|i: int|
            0 <= i < t.users.len() ==> #[trigger] t2.users[i].id == t.users[i].id
                && t2.users[i].username == t.users[i].username,
        forall|i: int|
            0 <= i < t.lists.len() ==> #[trigger] t2.lists[i].id == t.lists[i].id
                && t2.lists[i].userid == t.lists[i].userid && t2.lists[i].name == t.lists[i].name,
        t2.next_user_id == t.next_user_id,
        t2.next_list_id == t.next_list_id,
    ensures
        tables_wf(t2),
{
    assert forall|i: int, j: int| 0 <= i < j < t2.users.len() implies t2.users[i].id
        != t2.users[j].id && t2.users[i].username != t2.users[j].username by {
        assert(t.users[i].id != t.users[j].id);
        assert(t.users[i].username != t.users[j].username);
    }
    assert forall|i: int, j: int| 0 <= i < j < t2.lists.len() implies t2.lists[i].id
        != t2.lists[j].id && !(t2.lists[i].userid == t2.lists[j].userid && t2.lists[i].name
        == t2.lists[j].name) by {
        assert(t.lists[i].id != t.lists[j].id);
        assert(!(t.lists[i].userid == t.lists[j].userid && t.lists[i].name == t.lists[j].name));
    }
}

/// Every command keeps the tables well formed: account ids and list ids
/// stay distinct and below the next id to be handed out.
pub proof fn lemma_executes_keeps_wf(
    t: Tables,
    action: Action,
    now: i64,
    t2: Tables,
    r: Result<ResponseView, DBError>,
)
    requires
        tables_wf(t),
        executes(t, action, now, t2, r),
    ensures
        tables_wf(t2),
{
    match action {
        Action::AddUser { user, pass_hash, pass_hash_ver, reg_key } => {
            if t2 != t {
                let n = t.users.len() as int;
                assert forall|i: int| 0 <= i < t2.users.len() implies #[trigger] t2.users[i].id
                    < t2.next_user_id by {
                    if i < n {
                        assert(t2.users[i] == t.users[i]);
                    }
                }
                assert forall|i: int, j: int| 0 <= i < j < t2.users.len() implies t2.users[i].id
                    != t2.users[j].id && t2.users[i].username != t2.users[j].username by {
                    assert(t2.users[i] == t.users[i]);
                    if j < n {
                        assert(t2.users[j] == t.users[j]);
                    } else if t.users[i].username == user@ {
                        lemma_count_positive(t.users, user_named(user@), i);
                    }
                }
            }
        },
        Action::ValidateAccount { val_code } => {
            if t2 != t {
                lemma_single_found(t.users, user_with_code(val_code@));
                lemma_same_ids_keep_wf(t, t2);
            }
        },
        Action::SetChannelList { user_id, list_name, list_data } => {
            if t2 != t {
                lemma_single_found(t.lists, list_named(user_id, list_name@));
                lemma_same_ids_keep_wf(t, t2);
            }
        },
        Action::SetActiveChannel { user_id, list_name } => {
            if t2 != t {
                lemma_single_found(t.lists, list_named(user_id, list_name@));
                lemma_single_found(t.users, user_with_id(user_id));
                lemma_same_ids_keep_wf(t, t2);
            }
        },
        Action::CreateChannelList { user_id, list_name } => {
            if t2 != t {
                let n = t.lists.len() as int;
                assert forall|i: int| 0 <= i < t2.lists.len() implies #[trigger] t2.lists[i].id
                    < t2.next_list_id by {
                    if i < n {
                        assert(t2.lists[i] == t.lists[i]);
                    }
                }
                assert forall|i: int, j: int| 0 <= i < j < t2.lists.len() implies t2.lists[i].id
                    != t2.lists[j].id && !(t2.lists[i].userid == t2.lists[j].userid
                    && t2.lists[i].name == t2.lists[j].name) by {
                    assert(t2.lists[i] == t.lists[i]);
                    if j < n {
                        assert(t2.lists[j] == t.lists[j]);
                    } else if t.lists[i].userid == user_id && t.lists[i].name == list_name@ {
                        lemma_count_positive(t.lists, list_named(user_id, list_name@), i);
                    }
                }
            }
        },
        _ => {},
    }
}

/// Once a user's list is made active, asking for the active list answers
/// that list's data, and after the list's data is set, the new data.
pub proof fn lemma_active_after_set(
    t: Tables,
    user_id: i32,
    list_name: Seq<char>,
    list_data: Seq<char>,
)
    requires
        tables_wf(t),
        set_active_channel_spec(t, user_id, list_name).1 is Ok,
    ensures
        ({
            let t2 = set_active_channel_spec(t, user_id, list_name).0;
            let j = index_where(t.lists, list_named(user_id, list_name));
            let (t3, r3) = set_channel_list_spec(t2, user_id, list_name, list_data);
            &&& get_active_channel_spec(t2, user_id) == Ok::<ResponseView, DBError>(
                ResponseView::StringResp(t.lists[j].data),
            )
            &&& r3 == Ok::<ResponseView, DBError>(ResponseView::Empty)
            &&& get_active_channel_spec(t3, user_id) == Ok::<ResponseView, DBError>(
                ResponseView::StringResp(list_data),
            )
        }),
{
    let pl = list_named(user_id, list_name);
    let pu = user_with_id(user_id);
    lemma_single_found(t.lists, pl);
    lemma_single_found(t.users, pu);
    let j = index_where(t.lists, pl);
    let k = index_where(t.users, pu);
    let lid = t.lists[j].id;
    let t2 = set_active_channel_spec(t, user_id, list_name).0;
    lemma_count_update(t.users, pu, k, t2.users[k]);
    lemma_single_index(t2.users, pu, k);
    let pi = list_with_id(user_id, lid);
    lemma_count_positive(t.lists, pi, j);
    assert forall|a: int, b: int| 0 <= a < b < t.lists.len() && pi(#[trigger] t.lists[a]) implies !pi(
        #[trigger] t.lists[b],
    ) by {
        assert(t.lists[a].id != t.lists[b].id);
    }
    lemma_count_at_most_one(t.lists, pi);
    lemma_single_index(t.lists, pi, j);
    let t3 = set_channel_list_spec(t2, user_id, list_name, list_data).0;
    lemma_count_update(t2.lists, pi, j, t3.lists[j]);
    lemma_single_index(t3.lists, pi, j);
}

/// Each name among a user's list names is the name of one of the user's
/// lists.
proof fn lemma_list_names_from(lists: Seq<ListView>, user_id: i32, k: int)
    requires
        0 <= k < list_names(lists, user_id).len(),
    ensures
        exists|i: int|
            0 <= i < lists.len() && lists[i].userid == user_id && #[trigger] lists[i].name
                == list_names(lists, user_id)[k],
    decreases lists.len(),
{
    let prev = list_names(lists.drop_last(), user_id);
    if lists.last().userid == user_id && k == prev.len() {
        assert(lists[lists.len() - 1].name == list_names(lists, user_id)[k]);
    } else {
        lemma_list_names_from(lists.drop_last(), user_id, k);
        let i = choose|i: int|
            0 <= i < lists.drop_last().len() && lists.drop_last()[i].userid == user_id
                && #[trigger] lists.drop_last()[i].name == prev[k];
        assert(lists[i] == lists.drop_last()[i]);
    }
}

proof fn lemma_names_distinct(lists: Seq<ListView>, user_id: i32)
    requires
        forall|i: int, j: int|
            #![trigger lists[i], lists[j]]
            0 <= i < j < lists.len() ==> !(lists[i].userid == lists[j].userid && lists[i].name
                == lists[j].name),
    ensures
        list_names(lists, user_id).no_duplicates(),
    decreases lists.len(),
{
    if lists.len() > 0 {
        let front = lists.drop_last();
        assert forall|i: int, j: int|
            #![trigger front[i], front[j]]
            0 <= i < j < front.len() implies !(front[i].userid == front[j].userid && front[i].name
                == front[j].name) by {
            assert(front[i] == lists[i] && front[j] == lists[j]);
        }
        lemma_names_distinct(front, user_id);
        let prev = list_names(front, user_id);
        let last = lists.last();
        if last.userid == user_id {
            let names = prev.push(last.name);
            assert forall|a: int, b: int| 0 <= a < names.len() && 0 <= b < names.len() && a != b
                implies names[a] != names[b] by {
                if a == prev.len() || b == prev.len() {
                    let k = if a == prev.len() {
                        b
                    } else {
                        a
                    };
                    if prev[k] == last.name {
                        lemma_list_names_from(front, user_id, k);
                        let i = choose|i: int|
                            0 <= i < front.len() && front[i].userid == user_id && #[trigger] front[i].name
                                == prev[k];
                        assert(lists[i] == front[i]);
                        assert(lists[lists.len() - 1] == last);
                    }
                }
            }
        }
    }
}

/// Where the tables are well formed, a user's list names have no repeats,
/// so GetChannelLists names each of the user's lists once.
pub proof fn lemma_list_names_distinct(t: Tables, user_id: i32)
    requires
        tables_wf(t),
    ensures
        list_names(t.lists, user_id).no_duplicates(),
{
    lemma_names_distinct(t.lists, user_id);
}

/// The counters after `n` status requests in a row, each answered with the
/// counters it leaves.
pub open spec fn after_status_requests(report: StatusReport, n: nat) -> StatusReport
    decreases n,
{
    if n == 0 {
        report
    } else {
        let before = after_status_requests(report, (n - 1) as nat);
        let after = StatusReport { get_status_report: inc(before.get_status_report), ..before };
        counted(before, Action::GetStatusReport, Ok(ResponseView::StatusReport(after)))
    }
}

/// Status requests executed one after another read counts one apart: the
/// `i`-th of them reads the starting count plus `i`, so no request's count is
/// lost, whatever the number of requests (below the counter's maximum).
pub proof fn lemma_status_requests_count(report: StatusReport, n: nat, i: nat)
    requires
        report.get_status_report + n <= u32::MAX,
        i <= n,
    ensures
        after_status_requests(report, i).get_status_report == report.get_status_report + i,
    decreases i,
{
    if i > 0 {
        lemma_status_requests_count(report, n, (i - 1) as nat);
    }
}

/// Adding a second session key for a user, under a new token, keeps the keys
/// already there: a key that validated before still validates for its
/// owner, and the new key validates for the user.
pub proof fn lemma_second_key_keeps_first(
    t: Tables,
    user: NameOrID,
    sess_type: SessType,
    k1: Seq<char>,
    k2: Seq<char>,
    now: i64,
    later: i64,
)
    requires
        count_where(t.users, user_lookup(user)) == 1,
        count_where(t.sess_keys, key_in(sess_type, k1)) == 1,
        count_where(t.sess_keys, key_in(sess_type, k2)) == 0,
        k1 != k2,
        t.next_sess_id < i32::MAX,
        !is_expired(
            sess_type,
            t.sess_keys[index_where(t.sess_keys, key_in(sess_type, k1))].creationtime,
            later,
        ),
        !is_expired(sess_type, now, later),
    ensures
        ({
            let uid = t.users[index_where(t.users, user_lookup(user))].id;
            let owner = t.sess_keys[index_where(t.sess_keys, key_in(sess_type, k1))].userid;
            let (t1, a) = add_session_key_spec(t, user, sess_type, k2, now);
            let (t2, r1) = validate_session_key_spec(t1, sess_type, k1, later);
            let (_, r2) = validate_session_key_spec(t2, sess_type, k2, later);
            &&& a == Ok::<ResponseView, DBError>(ResponseView::Empty)
            &&& t1.sess_keys.subrange(0, t.sess_keys.len() as int) == t.sess_keys
            &&& r1 == Ok::<ResponseView, DBError>(ResponseView::ValidatedKey(true, owner))
            &&& r2 == Ok::<ResponseView, DBError>(ResponseView::ValidatedKey(true, uid))
        }),
{
    let has_k1 = key_in(sess_type, k1);
    let has_k2 = key_in(sess_type, k2);
    lemma_single_found(t.users, user_lookup(user));
    lemma_single_found(t.sess_keys, has_k1);
    let j = index_where(t.sess_keys, has_k1);
    let (t1, _) = add_session_key_spec(t, user, sess_type, k2, now);
    let n: int = t.sess_keys.len() as int;
    let row2 = t1.sess_keys[n];
    assert(t1.sess_keys.subrange(0, n) =~= t.sess_keys);
    lemma_count_push(t.sess_keys, has_k1, row2);
    lemma_count_push(t.sess_keys, has_k2, row2);
    assert(t1.sess_keys[j] == t.sess_keys[j]);
    lemma_single_index(t1.sess_keys, has_k1, j);
    let (t2, _) = validate_session_key_spec(t1, sess_type, k1, later);
    let row1 = t1.sess_keys[j];
    lemma_count_update(t1.sess_keys, has_k2, j, SessKeyView { lastusedtime: later, ..row1 });
    assert(t2.sess_keys[n] == row2);
    lemma_single_index(t2.sess_keys, has_k2, n);
}

} // verus!
