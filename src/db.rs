//! The data-access store: the single owner of the account, session-key and
//! channel-list tables. It executes one command at a time, and every lookup
//! that expects one row treats zero or several rows as an error; the one
//! exception is a session token with no key, which is simply not valid.
//!
//! The tables are held in memory, in this value: nothing is written to a
//! database, there is no connection to establish or retry and no schema to
//! migrate, and a process that ends loses every account, session and list.
use crate::db_models::{
    InsertChannelList, InsertUserData, ListView, QueryChannelList, QueryUserData, SessKeyRow,
    SessKeyView, UserView, keys_view, lists_view, users_view,
};
use crate::helpers::{SessType, is_expired};
use crate::store_laws::lemma_executes_keeps_wf;
use crate::text::{decimal, push_count};
use crate::row_count::{
    count_where, index_where, keep_unless, lemma_count_prefix_step,
    lemma_keep_prefix_step, lemma_single_index,
};
use vstd::prelude::*;

verus! {

/// The most rows a lookup returns; a larger match is reported as this many.
pub const QUERY_LIMIT: usize = 5;

/// The data a new channel list starts with.
pub const NEW_LIST_DATA: &'static str = "{\"entries\": []}";

/// What can go wrong when the store executes a command.
#[derive(Debug, Clone, Copy, PartialEq, Eq)]
pub enum DBError {
    /// The entry to be created exists already.
    EntryAlreadyExists,
    /// A lookup or change that expects exactly one row met this many.
    InvalidRowCount(usize),
    /// A value could not be turned into JSON.
    JSONConversionError,
    /// The reply to a command was lost on its way back.
    ThreadResponseFailure,
    /// The storage refused the change (its keys are exhausted).
    OtherErr,
}

/// The rows a lookup returns out of `n` matches.
pub open spec fn returned_rows(n: nat) -> usize {
    if n > QUERY_LIMIT {
        QUERY_LIMIT
    } else {
        n as usize
    }
}

/// The error for a lookup that met `n` matches where one was expected.
pub open spec fn row_count_error(n: nat) -> DBError {
    DBError::InvalidRowCount(returned_rows(n))
}

/// The one check behind every lookup or change that expects a single row:
/// zero rows or several are an error that carries the count.
pub fn allow_only_one(rows: usize) -> (r: Result<(), DBError>)
    ensures
        rows == 1 ==> r is Ok,
        rows != 1 ==> r == Err::<(), DBError>(DBError::InvalidRowCount(rows)),
{
    if rows == 1 {
        Ok(())
    } else {
        Err(DBError::InvalidRowCount(rows))
    }
}

fn returned(n: usize) -> (r: usize)
    ensures
        r == returned_rows(n as nat),
{
    if n > QUERY_LIMIT {
        QUERY_LIMIT
    } else {
        n
    }
}

/// How a command names the user it acts for.
#[derive(Debug, Clone)]
pub enum NameOrID {
    Name(String),
    ID(i32),
}

/// The counts of commands executed, and of those that succeeded.
#[derive(Debug, Clone, Copy)]
pub struct StatusReport {
    pub add_user: u32,
    pub validate_account: u32,
    pub add_session_key: u32,
    pub validate_session_key: u32,
    pub logout_session_key: u32,
    pub get_user_passhash: u32,
    pub get_channel_lists: u32,
    pub get_channel_list: u32,
    pub set_channel_list: u32,
    pub create_channel_list: u32,
    pub get_active_channel: u32,
    pub set_active_channel: u32,
    pub get_status_report: u32,
    pub add_user_success: u32,
    pub validate_acct_success: u32,
    pub add_sess_key_success: u32,
    pub validate_sess_key_success: u32,
}

impl Default for StatusReport {
    fn default() -> (r: StatusReport)
        ensures
            r == StatusReport::zero(),
    {
        StatusReport {
            add_user: 0,
            validate_account: 0,
            add_session_key: 0,
            validate_session_key: 0,
            logout_session_key: 0,
            get_user_passhash: 0,
            get_channel_lists: 0,
            get_channel_list: 0,
            set_channel_list: 0,
            create_channel_list: 0,
            get_active_channel: 0,
            set_active_channel: 0,
            get_status_report: 0,
            add_user_success: 0,
            validate_acct_success: 0,
            add_sess_key_success: 0,
            validate_sess_key_success: 0,
        }
    }
}

impl StatusReport {
    pub open spec fn zero() -> StatusReport {
        StatusReport {
            add_user: 0,
            validate_account: 0,
            add_session_key: 0,
            validate_session_key: 0,
            logout_session_key: 0,
            get_user_passhash: 0,
            get_channel_lists: 0,
            get_channel_list: 0,
            set_channel_list: 0,
            create_channel_list: 0,
            get_active_channel: 0,
            set_active_channel: 0,
            get_status_report: 0,
            add_user_success: 0,
            validate_acct_success: 0,
            add_sess_key_success: 0,
            validate_sess_key_success: 0,
        }
    }
}

/// The text of the store's status report.
pub open spec fn report_text(r: StatusReport) -> Seq<char> {
    "Database status report:\n"@
        + "  Add User: "@ + decimal(r.add_user as nat) + "\n"@
        + "    Success: "@ + decimal(r.add_user_success as nat) + "\n"@
        + "  Validate User: "@ + decimal(r.validate_account as nat) + "\n"@
        + "    Success: "@ + decimal(r.validate_acct_success as nat) + "\n"@
        + "  Add Session Key: "@ + decimal(r.add_session_key as nat) + "\n"@
        + "    Success: "@ + decimal(r.add_sess_key_success as nat) + "\n"@
        + "  Validate Session Key: "@ + decimal(r.validate_session_key as nat) + "\n"@
        + "    Success: "@ + decimal(r.validate_sess_key_success as nat) + "\n"@
        + "  Logout: "@ + decimal(r.logout_session_key as nat) + "\n"@
        + "  Get User and Pass Hash: "@ + decimal(r.get_user_passhash as nat) + "\n"@
        + "  Channel List:\n"@
        + "    List them: "@ + decimal(r.get_channel_lists as nat) + "\n"@
        + "    Get: "@ + decimal(r.get_channel_list as nat) + "\n"@
        + "    Set: "@ + decimal(r.set_channel_list as nat) + "\n"@
        + "    Create: "@ + decimal(r.create_channel_list as nat) + "\n"@
        + "    Get Active: "@ + decimal(r.get_active_channel as nat) + "\n"@
        + "    Set Active: "@ + decimal(r.set_active_channel as nat) + "\n"@
        + "  Status Reports: "@ + decimal(r.get_status_report as nat) + ""@
}

impl StatusReport {
    /// The human-readable status report of the store.
    pub fn summary(&self) -> (t: String)
        ensures
            t@ == report_text(*self),
    {
        let mut t = String::from_str("Database status report:\n");
        push_count(&mut t, "  Add User: ", self.add_user, "\n");
        push_count(&mut t, "    Success: ", self.add_user_success, "\n");
        push_count(&mut t, "  Validate User: ", self.validate_account, "\n");
        push_count(&mut t, "    Success: ", self.validate_acct_success, "\n");
        push_count(&mut t, "  Add Session Key: ", self.add_session_key, "\n");
        push_count(&mut t, "    Success: ", self.add_sess_key_success, "\n");
        push_count(&mut t, "  Validate Session Key: ", self.validate_session_key, "\n");
        push_count(&mut t, "    Success: ", self.validate_sess_key_success, "\n");
        push_count(&mut t, "  Logout: ", self.logout_session_key, "\n");
        push_count(&mut t, "  Get User and Pass Hash: ", self.get_user_passhash, "\n");
        t.append("  Channel List:\n");
        push_count(&mut t, "    List them: ", self.get_channel_lists, "\n");
        push_count(&mut t, "    Get: ", self.get_channel_list, "\n");
        push_count(&mut t, "    Set: ", self.set_channel_list, "\n");
        push_count(&mut t, "    Create: ", self.create_channel_list, "\n");
        push_count(&mut t, "    Get Active: ", self.get_active_channel, "\n");
        push_count(&mut t, "    Set Active: ", self.set_active_channel, "\n");
        push_count(&mut t, "  Status Reports: ", self.get_status_report, "");
        t
    }
}

/// A counter one higher, staying at the maximum once there.
pub open spec fn inc(x: u32) -> u32 {
    if x == u32::MAX {
        x
    } else {
        (x + 1) as u32
    }
}

fn bump(x: u32) -> (r: u32)
    ensures
        r == inc(x),
{
    x.saturating_add(1)
}

/// What a successful command hands back.
#[derive(Debug, Clone)]
pub enum Response {
    Empty,
    Bool(bool),
    StringResp(String),
    UserID(i32),
    ValidatedKey(bool, i32),
    UserPassHash(String, i32, bool),
    StatusReport(StatusReport),
    Shutdown,
}

/// A reply as the store's contracts see it, strings as their characters.
pub ghost enum ResponseView {
    Empty,
    Bool(bool),
    StringResp(Seq<char>),
    UserID(i32),
    ValidatedKey(bool, i32),
    UserPassHash(Seq<char>, i32, bool),
    StatusReport(StatusReport),
    Shutdown,
}

impl View for Response {
    type V = ResponseView;

    open spec fn view(&self) -> ResponseView {
        match self {
            Response::Empty => ResponseView::Empty,
            Response::Bool(b) => ResponseView::Bool(*b),
            Response::StringResp(s) => ResponseView::StringResp(s@),
            Response::UserID(id) => ResponseView::UserID(*id),
            Response::ValidatedKey(b, id) => ResponseView::ValidatedKey(*b, *id),
            Response::UserPassHash(h, v, b) => ResponseView::UserPassHash(h@, *v, *b),
            Response::StatusReport(s) => ResponseView::StatusReport(*s),
            Response::Shutdown => ResponseView::Shutdown,
        }
    }
}

/// A command's outcome, with strings seen as their characters.
pub open spec fn outcome(r: Result<Response, DBError>) -> Result<ResponseView, DBError> {
    match r {
        Ok(resp) => Ok(resp@),
        Err(e) => Err(e),
    }
}

/// The stored tables, as the store's commands see them.
pub ghost struct Tables {
    pub users: Seq<UserView>,
    pub sess_keys: Seq<SessKeyView>,
    pub lists: Seq<ListView>,
    pub next_user_id: i32,
    pub next_sess_id: i32,
    pub next_list_id: i32,
}

/// Whether the tables are well formed: the ids of the accounts are distinct
/// and below the next account id, and likewise the ids of the channel lists;
/// usernames are unique, and so is each user's list name.
pub open spec fn tables_wf(t: Tables) -> bool {
    &&& forall|i: int, j: int|
        #![trigger t.users[i], t.users[j]]
        0 <= i < j < t.users.len() ==> t.users[i].username != t.users[j].username
    &&& forall|i: int, j: int|
        #![trigger t.lists[i], t.lists[j]]
        0 <= i < j < t.lists.len() ==> !(t.lists[i].userid == t.lists[j].userid
            && t.lists[i].name == t.lists[j].name)
    &&& forall|i: int| 0 <= i < t.users.len() ==> #[trigger] t.users[i].id < t.next_user_id
    &&& forall|i: int, j: int|
        #![trigger t.users[i], t.users[j]]
        0 <= i < j < t.users.len() ==> t.users[i].id != t.users[j].id
    &&& forall|i: int| 0 <= i < t.lists.len() ==> #[trigger] t.lists[i].id < t.next_list_id
    &&& forall|i: int, j: int|
        #![trigger t.lists[i], t.lists[j]]
        0 <= i < j < t.lists.len() ==> t.lists[i].id != t.lists[j].id
}

pub open spec fn user_named(name: Seq<char>) -> spec_fn(UserView) -> bool {
    |u: UserView| u.username == name
}

pub open spec fn user_with_id(id: i32) -> spec_fn(UserView) -> bool {
    |u: UserView| u.id == id
}

pub open spec fn user_with_code(code: Seq<char>) -> spec_fn(UserView) -> bool {
    |u: UserView| u.validation_code == Some(code)
}

pub open spec fn user_lookup(user: NameOrID) -> spec_fn(UserView) -> bool {
    match user {
        NameOrID::Name(name) => user_named(name@),
        NameOrID::ID(id) => user_with_id(id),
    }
}

pub open spec fn key_in(t: SessType, key: Seq<char>) -> spec_fn(SessKeyView) -> bool {
    |k: SessKeyView| k.sess_type == t && k.sesskey == key
}

pub open spec fn list_named(user_id: i32, name: Seq<char>) -> spec_fn(ListView) -> bool {
    |l: ListView| l.userid == user_id && l.name == name
}

pub open spec fn list_with_id(user_id: i32, list_id: i32) -> spec_fn(ListView) -> bool {
    |l: ListView| l.userid == user_id && l.id == list_id
}

pub open spec fn list_of(user_id: i32) -> spec_fn(ListView) -> bool {
    |l: ListView| l.userid == user_id
}

/// The names of a user's channel lists, in the order they were created.
pub open spec fn list_names(lists: Seq<ListView>, user_id: i32) -> Seq<Seq<char>>
    decreases lists.len(),
{
    if lists.len() == 0 {
        Seq::empty()
    } else if lists.last().userid == user_id {
        list_names(lists.drop_last(), user_id).push(lists.last().name)
    } else {
        list_names(lists.drop_last(), user_id)
    }
}

/// AddUser: a new, unvalidated account holding the validation code; refused
/// with `EntryAlreadyExists` where the name is taken.
pub open spec fn add_user_spec(
    t: Tables,
    user: Seq<char>,
    pass_hash: Seq<char>,
    pass_hash_ver: i32,
    reg_key: Seq<char>,
) -> (Tables, Result<ResponseView, DBError>) {
    if count_where(t.users, user_named(user)) > 0 {
        (t, Err(DBError::EntryAlreadyExists))
    } else if t.next_user_id == i32::MAX {
        (t, Err(DBError::OtherErr))
    } else {
        let row = UserView {
            id: t.next_user_id,
            username: user,
            pass_hash: pass_hash,
            pass_hash_type: pass_hash_ver,
            validation_status: false,
            validation_code: Some(reg_key),
            active_channel: None,
        };
        (
            Tables { users: t.users.push(row), next_user_id: (t.next_user_id + 1) as i32, ..t },
            Ok(ResponseView::UserID(t.next_user_id)),
        )
    }
}

/// ValidateAccount: the one account pending with this code becomes
/// validated and loses its code.
pub open spec fn validate_account_spec(t: Tables, val_code: Seq<char>) -> (
    Tables,
    Result<ResponseView, DBError>,
) {
    let p = user_with_code(val_code);
    let n = count_where(t.users, p);
    if n != 1 {
        (t, Err(row_count_error(n)))
    } else {
        let j = index_where(t.users, p);
        let row = UserView { validation_status: true, validation_code: None, ..t.users[j] };
        (Tables { users: t.users.update(j, row), ..t }, Ok(ResponseView::Bool(true)))
    }
}

/// GetUserPassHash: the stored hash, its version and whether the account is
/// validated, of the one account with this name.
pub open spec fn get_user_passhash_spec(t: Tables, user: Seq<char>) -> Result<
    ResponseView,
    DBError,
> {
    let p = user_named(user);
    let n = count_where(t.users, p);
    if n != 1 {
        Err(row_count_error(n))
    } else {
        let u = t.users[index_where(t.users, p)];
        Ok(ResponseView::UserPassHash(u.pass_hash, u.pass_hash_type, u.validation_status))
    }
}

/// Relies on `serde_json::to_string` of a list of strings: the JSON array
/// of those strings, in their order.
pub uninterp spec fn json_string_array(items: Seq<Seq<char>>) -> Seq<char>;

#[verifier::external_type_specification]
#[verifier::external_body]
pub struct ExJsonError(serde_json::Error);

/// Relies on `serde_json::to_string` on a `Vec<String>`: the JSON array of
/// the strings. It fails only where a `Serialize` impl fails or a map has
/// keys that are not strings, neither of which a list of strings can meet.
#[verifier::external_body]
fn names_to_json(names: &Vec<String>) -> (r: Result<String, serde_json::Error>)
    ensures
        r is Ok,
        r matches Ok(s) ==> s@ == json_string_array(names@.map_values(|n: String| n@)),
{
    serde_json::to_string(names)
}

/// AddSessKey: a new key of class `sess_type` for the one account named by
/// `user`, created and last used at `now`.
pub open spec fn add_session_key_spec(
    t: Tables,
    user: NameOrID,
    sess_type: SessType,
    sess_key: Seq<char>,
    now: i64,
) -> (Tables, Result<ResponseView, DBError>) {
    let p = user_lookup(user);
    let n = count_where(t.users, p);
    if n != 1 {
        (t, Err(row_count_error(n)))
    } else if t.next_sess_id == i32::MAX {
        (t, Err(DBError::OtherErr))
    } else {
        let row = SessKeyView {
            id: t.next_sess_id,
            userid: t.users[index_where(t.users, p)].id,
            sess_type: sess_type,
            sesskey: sess_key,
            creationtime: now,
            lastusedtime: now,
        };
        (
            Tables {
                sess_keys: t.sess_keys.push(row),
                next_sess_id: (t.next_sess_id + 1) as i32,
                ..t
            },
            Ok(ResponseView::Empty),
        )
    }
}

/// ValidateSessKey: the one key with this token in the class's partition is
/// deleted if it has expired at `now`, and `(false, 0)` answered; else its
/// last use becomes `now` and its owner is answered. A token with no key
/// (never issued, logged out, or expired and deleted) is answered
/// `(false, 0)` as well; several keys with one token are an error.
pub open spec fn validate_session_key_spec(
    t: Tables,
    sess_type: SessType,
    sess_key: Seq<char>,
    now: i64,
) -> (Tables, Result<ResponseView, DBError>) {
    let p = key_in(sess_type, sess_key);
    let n = count_where(t.sess_keys, p);
    if n == 0 {
        (t, Ok(ResponseView::ValidatedKey(false, 0)))
    } else if n != 1 {
        (t, Err(row_count_error(n)))
    } else {
        let j = index_where(t.sess_keys, p);
        let row = t.sess_keys[j];
        if is_expired(sess_type, row.creationtime, now) {
            (
                Tables { sess_keys: t.sess_keys.remove(j), ..t },
                Ok(ResponseView::ValidatedKey(false, 0)),
            )
        } else {
            (
                Tables {
                    sess_keys: t.sess_keys.update(j, SessKeyView { lastusedtime: now, ..row }),
                    ..t
                },
                Ok(ResponseView::ValidatedKey(true, row.userid)),
            )
        }
    }
}

/// LogoutSessKey: every key with this token in the class's partition is
/// deleted; none being there is no error.
pub open spec fn logout_session_key_spec(t: Tables, sess_type: SessType, sess_key: Seq<char>) -> (
    Tables,
    Result<ResponseView, DBError>,
) {
    (
        Tables { sess_keys: keep_unless(t.sess_keys, key_in(sess_type, sess_key)), ..t },
        Ok(ResponseView::Empty),
    )
}

/// GetChannelLists: the JSON array of the names of the user's lists, in the
/// order they were created.
pub open spec fn get_channel_lists_spec(t: Tables, user_id: i32) -> Result<ResponseView, DBError> {
    Ok(ResponseView::StringResp(json_string_array(list_names(t.lists, user_id))))
}

/// GetChannelList: the data of the user's one list of this name.
pub open spec fn get_channel_list_spec(t: Tables, user_id: i32, list_name: Seq<char>) -> Result<
    ResponseView,
    DBError,
> {
    let p = list_named(user_id, list_name);
    let n = count_where(t.lists, p);
    if n != 1 {
        Err(row_count_error(n))
    } else {
        Ok(ResponseView::StringResp(t.lists[index_where(t.lists, p)].data))
    }
}

/// SetChannelList: the user's one list of this name gets new data.
pub open spec fn set_channel_list_spec(
    t: Tables,
    user_id: i32,
    list_name: Seq<char>,
    list_data: Seq<char>,
) -> (Tables, Result<ResponseView, DBError>) {
    let p = list_named(user_id, list_name);
    let n = count_where(t.lists, p);
    if n != 1 {
        (t, Err(DBError::InvalidRowCount(n as usize)))
    } else {
        let j = index_where(t.lists, p);
        (
            Tables { lists: t.lists.update(j, ListView { data: list_data, ..t.lists[j] }), ..t },
            Ok(ResponseView::Empty),
        )
    }
}

/// CreateChannelList: a new list of this name for the user, holding no
/// entries; refused where the user has one of that name.
pub open spec fn create_channel_list_spec(t: Tables, user_id: i32, list_name: Seq<char>) -> (
    Tables,
    Result<ResponseView, DBError>,
) {
    if count_where(t.lists, list_named(user_id, list_name)) > 0 {
        (t, Err(DBError::EntryAlreadyExists))
    } else if t.next_list_id == i32::MAX {
        (t, Err(DBError::OtherErr))
    } else {
        let row = ListView {
            id: t.next_list_id,
            userid: user_id,
            name: list_name,
            data: NEW_LIST_DATA@,
        };
        (
            Tables {
                lists: t.lists.push(row),
                next_list_id: (t.next_list_id + 1) as i32,
                ..t
            },
            Ok(ResponseView::Empty),
        )
    }
}

/// GetActiveChannel: the data of the list that the one account with this id
/// marks active.
pub open spec fn get_active_channel_spec(t: Tables, user_id: i32) -> Result<ResponseView, DBError> {
    let q = user_with_id(user_id);
    let n = count_where(t.users, q);
    if n != 1 {
        Err(row_count_error(n))
    } else {
        match t.users[index_where(t.users, q)].active_channel {
            None => Err(DBError::InvalidRowCount(0)),
            Some(list_id) => {
                let p = list_with_id(user_id, list_id);
                let m = count_where(t.lists, p);
                if m != 1 {
                    Err(row_count_error(m))
                } else {
                    Ok(ResponseView::StringResp(t.lists[index_where(t.lists, p)].data))
                }
            },
        }
    }
}

/// SetActiveChannel: the account with this id marks its one list of this
/// name active.
pub open spec fn set_active_channel_spec(t: Tables, user_id: i32, list_name: Seq<char>) -> (
    Tables,
    Result<ResponseView, DBError>,
) {
    let p = list_named(user_id, list_name);
    let n = count_where(t.lists, p);
    if n != 1 {
        (t, Err(row_count_error(n)))
    } else {
        let list_id = t.lists[index_where(t.lists, p)].id;
        let q = user_with_id(user_id);
        let m = count_where(t.users, q);
        if m != 1 {
            (t, Err(DBError::InvalidRowCount(m as usize)))
        } else {
            let k = index_where(t.users, q);
            (
                Tables {
                    users: t.users.update(k, UserView { active_channel: Some(list_id), ..t.users[k] }),
                    ..t
                },
                Ok(ResponseView::Empty),
            )
        }
    }
}

/// A command for the store, carrying everything its execution needs.
#[allow(inconsistent_fields)]
#[derive(Debug, Clone)]
pub enum Action {
    AddUser { user: String, pass_hash: String, pass_hash_ver: i32, reg_key: String },
    ValidateAccount { val_code: String },
    AddSessKey { user: NameOrID, sess_type: SessType, sess_key: String },
    ValidateSessKey { sess_type: SessType, sess_key: String },
    LogoutSessKey { sess_type: SessType, sess_key: String },
    GetUserPassHash { user: String },
    GetChannelLists { user_id: i32 },
    GetChannelList { user_id: i32, list_name: String },
    SetChannelList { user_id: i32, list_name: String, list_data: String },
    CreateChannelList { user_id: i32, list_name: String },
    GetActiveChannel { user_id: i32 },
    SetActiveChannel { user_id: i32, list_name: String },
    GetStatusReport,
    Shutdown,
}

/// A report with the counter of `action` one higher, and its success
/// counter too where the command succeeded in the way it counts.
pub open spec fn counted(s: StatusReport, action: Action, r: Result<ResponseView, DBError>) -> StatusReport {
    match action {
        Action::AddUser { .. } => StatusReport {
            add_user: inc(s.add_user),
            add_user_success: if r is Ok { inc(s.add_user_success) } else { s.add_user_success },
            ..s
        },
        Action::ValidateAccount { .. } => StatusReport {
            validate_account: inc(s.validate_account),
            validate_acct_success: if r is Ok {
                inc(s.validate_acct_success)
            } else {
                s.validate_acct_success
            },
            ..s
        },
        Action::AddSessKey { .. } => StatusReport {
            add_session_key: inc(s.add_session_key),
            add_sess_key_success: if r is Ok {
                inc(s.add_sess_key_success)
            } else {
                s.add_sess_key_success
            },
            ..s
        },
        Action::ValidateSessKey { .. } => StatusReport {
            validate_session_key: inc(s.validate_session_key),
            validate_sess_key_success: if r matches Ok(ResponseView::ValidatedKey(true, _)) {
                inc(s.validate_sess_key_success)
            } else {
                s.validate_sess_key_success
            },
            ..s
        },
        Action::LogoutSessKey { .. } => StatusReport {
            logout_session_key: inc(s.logout_session_key),
            ..s
        },
        Action::GetUserPassHash { .. } => StatusReport {
            get_user_passhash: inc(s.get_user_passhash),
            ..s
        },
        Action::GetChannelLists { .. } => StatusReport {
            get_channel_lists: inc(s.get_channel_lists),
            ..s
        },
        Action::GetChannelList { .. } => StatusReport {
            get_channel_list: inc(s.get_channel_list),
            ..s
        },
        Action::SetChannelList { .. } => StatusReport {
            set_channel_list: inc(s.set_channel_list),
            ..s
        },
        Action::CreateChannelList { .. } => StatusReport {
            create_channel_list: inc(s.create_channel_list),
            ..s
        },
        Action::GetActiveChannel { .. } => StatusReport {
            get_active_channel: inc(s.get_active_channel),
            ..s
        },
        Action::SetActiveChannel { .. } => StatusReport {
            set_active_channel: inc(s.set_active_channel),
            ..s
        },
        Action::GetStatusReport => StatusReport {
            get_status_report: inc(s.get_status_report),
            ..s
        },
        Action::Shutdown => s,
    }
}

/// What executing `action` at `now` does to the tables, and what it
/// answers.
pub open spec fn executes(
    t: Tables,
    action: Action,
    now: i64,
    t2: Tables,
    r: Result<ResponseView, DBError>,
) -> bool {
    match action {
        Action::AddUser { user, pass_hash, pass_hash_ver, reg_key } => (t2, r) == add_user_spec(
            t,
            user@,
            pass_hash@,
            pass_hash_ver,
            reg_key@,
        ),
        Action::ValidateAccount { val_code } => (t2, r) == validate_account_spec(t, val_code@),
        Action::AddSessKey { user, sess_type, sess_key } => (t2, r) == add_session_key_spec(
            t,
            user,
            sess_type,
            sess_key@,
            now,
        ),
        Action::ValidateSessKey { sess_type, sess_key } => (t2, r) == validate_session_key_spec(
            t,
            sess_type,
            sess_key@,
            now,
        ),
        Action::LogoutSessKey { sess_type, sess_key } => (t2, r) == logout_session_key_spec(
            t,
            sess_type,
            sess_key@,
        ),
        Action::GetUserPassHash { user } => t2 == t && r == get_user_passhash_spec(t, user@),
        Action::GetChannelLists { user_id } => t2 == t && r == get_channel_lists_spec(t, user_id),
        Action::GetChannelList { user_id, list_name } => t2 == t && r == get_channel_list_spec(
            t,
            user_id,
            list_name@,
        ),
        Action::SetChannelList { user_id, list_name, list_data } => (t2, r)
            == set_channel_list_spec(t, user_id, list_name@, list_data@),
        Action::CreateChannelList { user_id, list_name } => (t2, r) == create_channel_list_spec(
            t,
            user_id,
            list_name@,
        ),
        Action::GetActiveChannel { user_id } => t2 == t && r == get_active_channel_spec(
            t,
            user_id,
        ),
        Action::SetActiveChannel { user_id, list_name } => (t2, r) == set_active_channel_spec(
            t,
            user_id,
            list_name@,
        ),
        Action::GetStatusReport => t2 == t && r is Ok,
        Action::Shutdown => t2 == t && r == Ok::<ResponseView, DBError>(ResponseView::Shutdown),
    }
}

/// Relies on `chrono::Utc::now`: the current time in seconds since the Unix
/// epoch. Nothing is known of its value.
#[verifier::external_body]
fn now_seconds() -> (r: i64) {
    chrono::Utc::now().timestamp()
}

/// The executing store: the tables, the next keys, and the counters.
pub struct Db {
    users: Vec<QueryUserData>,
    sess_keys: Vec<SessKeyRow>,
    lists: Vec<QueryChannelList>,
    next_user_id: i32,
    next_sess_id: i32,
    next_list_id: i32,
    report: StatusReport,
    running: bool,
}

impl Db {
    pub closed spec fn tables(&self) -> Tables {
        Tables {
            users: users_view(self.users@),
            sess_keys: keys_view(self.sess_keys@),
            lists: lists_view(self.lists@),
            next_user_id: self.next_user_id,
            next_sess_id: self.next_sess_id,
            next_list_id: self.next_list_id,
        }
    }

    /// Whether the store's tables are well formed; a new store is, and every
    /// command keeps it so.
    pub open spec fn wf(&self) -> bool {
        tables_wf(self.tables())
    }

    pub closed spec fn report(&self) -> StatusReport {
        self.report
    }

    /// An empty store.
    pub fn new() -> (r: Db)
        ensures
            r.tables() == empty_tables(),
            r.report() == StatusReport::zero(),
            r.is_running(),
            r.wf(),
    {
        let r = Db {
            users: Vec::new(),
            sess_keys: Vec::new(),
            lists: Vec::new(),
            next_user_id: 1,
            next_sess_id: 1,
            next_list_id: 1,
            report: StatusReport::default(),
            running: true,
        };
        proof {
            assert(users_view(r.users@) =~= Seq::<UserView>::empty());
            assert(keys_view(r.sess_keys@) =~= Seq::<SessKeyView>::empty());
            assert(lists_view(r.lists@) =~= Seq::<ListView>::empty());
        }
        r
    }

    /// The number of accounts matching `user`, and where the first is.
    fn find_user(&self, user: &NameOrID) -> (r: (usize, usize))
        ensures
            r.0 == count_where(self.tables().users, user_lookup(*user)),
            r.0 >= 1 ==> r.1 < self.users.len() && user_lookup(*user)(self.tables().users[r.1 as int]),
    {
        let ghost s = self.tables().users;
        let ghost p = user_lookup(*user);
        let mut count: usize = 0;
        let mut found: usize = 0;
        let mut i: usize = 0;
        while i < self.users.len()
            invariant
                s == users_view(self.users@),
                p == user_lookup(*user),
                0 <= i <= self.users.len(),
                count <= i,
                count == count_where(s.subrange(0, i as int), p),
                count >= 1 ==> found < i && p(s[found as int]),
            decreases self.users.len() - i,
        {
            proof {
                lemma_count_prefix_step(s, p, i as int);
            }
            let hit = match user {
                NameOrID::Name(name) => self.users[i].username == *name,
                NameOrID::ID(id) => self.users[i].id == *id,
            };
            if hit {
                if count == 0 {
                    found = i;
                }
                count = count + 1;
            }
            i = i + 1;
        }
        proof {
            assert(s.subrange(0, i as int) =~= s);
        }
        (count, found)
    }

    /// The number of accounts pending with `code`, and where the first is.
    fn find_code(&self, code: &String) -> (r: (usize, usize))
        ensures
            r.0 == count_where(self.tables().users, user_with_code(code@)),
            r.0 >= 1 ==> r.1 < self.users.len() && user_with_code(code@)(
                self.tables().users[r.1 as int],
            ),
    {
        let ghost s = self.tables().users;
        let ghost p = user_with_code(code@);
        let mut count: usize = 0;
        let mut found: usize = 0;
        let mut i: usize = 0;
        while i < self.users.len()
            invariant
                s == users_view(self.users@),
                p == user_with_code(code@),
                0 <= i <= self.users.len(),
                count <= i,
                count == count_where(s.subrange(0, i as int), p),
                count >= 1 ==> found < i && p(s[found as int]),
            decreases self.users.len() - i,
        {
            proof {
                lemma_count_prefix_step(s, p, i as int);
            }
            let hit = match &self.users[i].validation_code {
                Some(c) => *c == *code,
                None => false,
            };
            if hit {
                if count == 0 {
                    found = i;
                }
                count = count + 1;
            }
            i = i + 1;
        }
        proof {
            assert(s.subrange(0, i as int) =~= s);
        }
        (count, found)
    }

    /// Executes AddUser.
    pub fn add_user(
        &mut self,
        user: String,
        pass_hash: String,
        pass_hash_ver: i32,
        reg_key: String,
    ) -> (r: Result<Response, DBError>)
        ensures
            (final(self).tables(), outcome(r)) == add_user_spec(
                old(self).tables(),
                user@,
                pass_hash@,
                pass_hash_ver,
                reg_key@,
            ),
            final(self).is_running() == old(self).is_running(),
            old(self).wf() ==> final(self).wf(),
            final(self).report() == (StatusReport {
                add_user: inc(old(self).report().add_user),
                add_user_success: if r is Ok {
                    inc(old(self).report().add_user_success)
                } else {
                    old(self).report().add_user_success
                },
                ..old(self).report()
            }),
    {
        proof {
            let ghost res = add_user_spec(self.tables(), user@, pass_hash@, pass_hash_ver, reg_key@);
            if self.wf() {
                lemma_executes_keeps_wf(
                    self.tables(),
                    Action::AddUser { user, pass_hash, pass_hash_ver, reg_key },
                    0,
                    res.0,
                    res.1,
                );
            }
        }
        self.report.add_user = bump(self.report.add_user);
        let new_user = InsertUserData {
            username: user,
            pass_hash: pass_hash,
            pass_hash_type: pass_hash_ver,
            validation_status: false,
            validation_code: reg_key,
        };
        let key = NameOrID::Name(new_user.username.clone());
        let (taken, _) = self.find_user(&key);
        if taken > 0 {
            return Err(DBError::EntryAlreadyExists);
        }
        if self.next_user_id == i32::MAX {
            return Err(DBError::OtherErr);
        }
        let id = self.next_user_id;
        let row = QueryUserData {
            id: id,
            username: new_user.username,
            pass_hash: new_user.pass_hash,
            pass_hash_type: new_user.pass_hash_type,
            validation_status: new_user.validation_status,
            validation_code: Some(new_user.validation_code),
            active_channel: None,
        };
        let ghost old_users = self.users@;
        self.users.push(row);
        proof {
            assert(users_view(self.users@) =~= users_view(old_users).push(row@));
        }
        self.next_user_id = id + 1;
        self.report.add_user_success = bump(self.report.add_user_success);
        Ok(Response::UserID(id))
    }

    /// Executes ValidateAccount.
    pub fn validate_account(&mut self, val_code: String) -> (r: Result<Response, DBError>)
        ensures
            (final(self).tables(), outcome(r)) == validate_account_spec(
                old(self).tables(),
                val_code@,
            ),
            final(self).is_running() == old(self).is_running(),
            old(self).wf() ==> final(self).wf(),
            final(self).report() == (StatusReport {
                validate_account: inc(old(self).report().validate_account),
                validate_acct_success: if r is Ok {
                    inc(old(self).report().validate_acct_success)
                } else {
                    old(self).report().validate_acct_success
                },
                ..old(self).report()
            }),
    {
        proof {
            let ghost res = validate_account_spec(self.tables(), val_code@);
            if self.wf() {
                lemma_executes_keeps_wf(self.tables(), Action::ValidateAccount { val_code }, 0, res.0, res.1);
            }
        }
        self.report.validate_account = bump(self.report.validate_account);
        let (n, j) = self.find_code(&val_code);
        if let Err(e) = allow_only_one(returned(n)) {
            return Err(e);
        }
        proof {
            lemma_single_index(self.tables().users, user_with_code(val_code@), j as int);
        }
        let row = QueryUserData {
            id: self.users[j].id,
            username: self.users[j].username.clone(),
            pass_hash: self.users[j].pass_hash.clone(),
            pass_hash_type: self.users[j].pass_hash_type,
            validation_status: true,
            validation_code: None,
            active_channel: self.users[j].active_channel,
        };
        let ghost old_users = self.users@;
        self.users.set(j, row);
        proof {
            assert(users_view(self.users@) =~= users_view(old_users).update(j as int, row@));
        }
        self.report.validate_acct_success = bump(self.report.validate_acct_success);
        Ok(Response::Bool(true))
    }

    /// Executes GetUserPassHash.
    pub fn get_user_passhash(&mut self, user: String) -> (r: Result<Response, DBError>)
        ensures
            final(self).tables() == old(self).tables(),
            outcome(r) == get_user_passhash_spec(old(self).tables(), user@),
            final(self).is_running() == old(self).is_running(),
            old(self).wf() ==> final(self).wf(),
            final(self).report() == (StatusReport {
                get_user_passhash: inc(old(self).report().get_user_passhash),
                ..old(self).report()
            }),
    {
        self.report.get_user_passhash = bump(self.report.get_user_passhash);
        let key = NameOrID::Name(user);
        let (n, j) = self.find_user(&key);
        if let Err(e) = allow_only_one(returned(n)) {
            return Err(e);
        }
        proof {
            lemma_single_index(self.tables().users, user_lookup(key), j as int);
        }
        Ok(
            Response::UserPassHash(
                self.users[j].pass_hash.clone(),
                self.users[j].pass_hash_type,
                self.users[j].validation_status,
            ),
        )
    }

    /// The number of keys with this token in the class's partition, and
    /// where the first is.
    fn find_key(&self, sess_type: SessType, sess_key: &String) -> (r: (usize, usize))
        ensures
            r.0 == count_where(self.tables().sess_keys, key_in(sess_type, sess_key@)),
            r.0 >= 1 ==> r.1 < self.sess_keys.len() && key_in(sess_type, sess_key@)(
                self.tables().sess_keys[r.1 as int],
            ),
    {
        let ghost s = self.tables().sess_keys;
        let ghost p = key_in(sess_type, sess_key@);
        let mut count: usize = 0;
        let mut found: usize = 0;
        let mut i: usize = 0;
        while i < self.sess_keys.len()
            invariant
                s == keys_view(self.sess_keys@),
                p == key_in(sess_type, sess_key@),
                0 <= i <= self.sess_keys.len(),
                count <= i,
                count == count_where(s.subrange(0, i as int), p),
                count >= 1 ==> found < i && p(s[found as int]),
            decreases self.sess_keys.len() - i,
        {
            proof {
                lemma_count_prefix_step(s, p, i as int);
            }
            if self.sess_keys[i].sess_type == sess_type && self.sess_keys[i].sesskey == *sess_key {
                if count == 0 {
                    found = i;
                }
                count = count + 1;
            }
            i = i + 1;
        }
        proof {
            assert(s.subrange(0, i as int) =~= s);
        }
        (count, found)
    }

    /// The number of the user's lists named `list_name` (or, given no name,
    /// with id `list_id`), and where the first is.
    fn find_list(&self, user_id: i32, list_name: Option<&String>, list_id: i32) -> (r: (
        usize,
        usize,
    ))
        ensures
            ({
                let p = match list_name {
                    Some(name) => list_named(user_id, name@),
                    None => list_with_id(user_id, list_id),
                };
                &&& r.0 == count_where(self.tables().lists, p)
                &&& r.0 >= 1 ==> r.1 < self.lists.len() && p(self.tables().lists[r.1 as int])
            }),
    {
        let ghost s = self.tables().lists;
        let ghost p = match list_name {
            Some(name) => list_named(user_id, name@),
            None => list_with_id(user_id, list_id),
        };
        let mut count: usize = 0;
        let mut found: usize = 0;
        let mut i: usize = 0;
        while i < self.lists.len()
            invariant
                s == lists_view(self.lists@),
                p == match list_name {
                    Some(name) => list_named(user_id, name@),
                    None => list_with_id(user_id, list_id),
                },
                0 <= i <= self.lists.len(),
                count <= i,
                count == count_where(s.subrange(0, i as int), p),
                count >= 1 ==> found < i && p(s[found as int]),
            decreases self.lists.len() - i,
        {
            proof {
                lemma_count_prefix_step(s, p, i as int);
            }
            let hit = self.lists[i].userid == user_id && match list_name {
                Some(name) => self.lists[i].name == *name,
                None => self.lists[i].id == list_id,
            };
            if hit {
                if count == 0 {
                    found = i;
                }
                count = count + 1;
            }
            i = i + 1;
        }
        proof {
            assert(s.subrange(0, i as int) =~= s);
        }
        (count, found)
    }

    /// Executes AddSessKey at time `now`.
    pub fn add_session_key(
        &mut self,
        user: NameOrID,
        sess_type: SessType,
        sess_key: String,
        now: i64,
    ) -> (r: Result<Response, DBError>)
        ensures
            (final(self).tables(), outcome(r)) == add_session_key_spec(
                old(self).tables(),
                user,
                sess_type,
                sess_key@,
                now,
            ),
            final(self).is_running() == old(self).is_running(),
            old(self).wf() ==> final(self).wf(),
            final(self).report() == (StatusReport {
                add_session_key: inc(old(self).report().add_session_key),
                add_sess_key_success: if r is Ok {
                    inc(old(self).report().add_sess_key_success)
                } else {
                    old(self).report().add_sess_key_success
                },
                ..old(self).report()
            }),
    {
        self.report.add_session_key = bump(self.report.add_session_key);
        let (n, j) = self.find_user(&user);
        if let Err(e) = allow_only_one(returned(n)) {
            return Err(e);
        }
        proof {
            lemma_single_index(self.tables().users, user_lookup(user), j as int);
        }
        if self.next_sess_id == i32::MAX {
            return Err(DBError::OtherErr);
        }
        let id = self.next_sess_id;
        let row = SessKeyRow {
            id: id,
            userid: self.users[j].id,
            sess_type: sess_type,
            sesskey: sess_key,
            creationtime: now,
            lastusedtime: now,
        };
        let ghost old_keys = self.sess_keys@;
        self.sess_keys.push(row);
        proof {
            assert(keys_view(self.sess_keys@) =~= keys_view(old_keys).push(row@));
        }
        self.next_sess_id = id + 1;
        self.report.add_sess_key_success = bump(self.report.add_sess_key_success);
        Ok(Response::Empty)
    }

    /// Executes ValidateSessKey at time `now`.
    pub fn validate_session_key(&mut self, sess_type: SessType, sess_key: String, now: i64) -> (r:
        Result<Response, DBError>)
        ensures
            (final(self).tables(), outcome(r)) == validate_session_key_spec(
                old(self).tables(),
                sess_type,
                sess_key@,
                now,
            ),
            final(self).is_running() == old(self).is_running(),
            old(self).wf() ==> final(self).wf(),
            final(self).report() == (StatusReport {
                validate_session_key: inc(old(self).report().validate_session_key),
                validate_sess_key_success: if r matches Ok(Response::ValidatedKey(true, _)) {
                    inc(old(self).report().validate_sess_key_success)
                } else {
                    old(self).report().validate_sess_key_success
                },
                ..old(self).report()
            }),
    {
        self.report.validate_session_key = bump(self.report.validate_session_key);
        let (n, j) = self.find_key(sess_type, &sess_key);
        if n == 0 {
            return Ok(Response::ValidatedKey(false, 0));
        }
        if let Err(e) = allow_only_one(returned(n)) {
            return Err(e);
        }
        proof {
            lemma_single_index(self.tables().sess_keys, key_in(sess_type, sess_key@), j as int);
        }
        let ghost old_keys = self.sess_keys@;
        if sess_type.expired(self.sess_keys[j].creationtime, now) {
            self.sess_keys.remove(j);
            proof {
                assert(keys_view(self.sess_keys@) =~= keys_view(old_keys).remove(j as int));
            }
            return Ok(Response::ValidatedKey(false, 0));
        }
        let userid = self.sess_keys[j].userid;
        let row = SessKeyRow {
            id: self.sess_keys[j].id,
            userid: userid,
            sess_type: self.sess_keys[j].sess_type,
            sesskey: self.sess_keys[j].sesskey.clone(),
            creationtime: self.sess_keys[j].creationtime,
            lastusedtime: now,
        };
        self.sess_keys.set(j, row);
        proof {
            assert(keys_view(self.sess_keys@) =~= keys_view(old_keys).update(j as int, row@));
        }
        self.report.validate_sess_key_success = bump(self.report.validate_sess_key_success);
        Ok(Response::ValidatedKey(true, userid))
    }

    /// Executes LogoutSessKey.
    pub fn logout_session_key(&mut self, sess_type: SessType, sess_key: String) -> (r: Result<
        Response,
        DBError,
    >)
        ensures
            (final(self).tables(), outcome(r)) == logout_session_key_spec(
                old(self).tables(),
                sess_type,
                sess_key@,
            ),
            final(self).is_running() == old(self).is_running(),
            old(self).wf() ==> final(self).wf(),
            final(self).report() == (StatusReport {
                logout_session_key: inc(old(self).report().logout_session_key),
                ..old(self).report()
            }),
    {
        self.report.logout_session_key = bump(self.report.logout_session_key);
        let ghost s = self.tables().sess_keys;
        let ghost p = key_in(sess_type, sess_key@);
        let mut kept: Vec<SessKeyRow> = Vec::new();
        let mut i: usize = 0;
        while i < self.sess_keys.len()
            invariant
                s == keys_view(self.sess_keys@),
                p == key_in(sess_type, sess_key@),
                0 <= i <= self.sess_keys.len(),
                keys_view(kept@) == keep_unless(s.subrange(0, i as int), p),
            decreases self.sess_keys.len() - i,
        {
            proof {
                lemma_keep_prefix_step(s, p, i as int);
            }
            if !(self.sess_keys[i].sess_type == sess_type && self.sess_keys[i].sesskey == sess_key) {
                let row = SessKeyRow {
                    id: self.sess_keys[i].id,
                    userid: self.sess_keys[i].userid,
                    sess_type: self.sess_keys[i].sess_type,
                    sesskey: self.sess_keys[i].sesskey.clone(),
                    creationtime: self.sess_keys[i].creationtime,
                    lastusedtime: self.sess_keys[i].lastusedtime,
                };
                let ghost before = kept@;
                kept.push(row);
                proof {
                    assert(keys_view(kept@) =~= keys_view(before).push(row@));
                }
            }
            i = i + 1;
        }
        proof {
            assert(s.subrange(0, i as int) =~= s);
        }
        self.sess_keys = kept;
        Ok(Response::Empty)
    }

    /// Executes GetChannelLists: the JSON array of the names of the user's
    /// lists.
    pub fn get_channel_lists(&mut self, user_id: i32) -> (r: Result<Response, DBError>)
        ensures
            final(self).tables() == old(self).tables(),
            outcome(r) == get_channel_lists_spec(old(self).tables(), user_id),
            final(self).is_running() == old(self).is_running(),
            old(self).wf() ==> final(self).wf(),
            final(self).report() == (StatusReport {
                get_channel_lists: inc(old(self).report().get_channel_lists),
                ..old(self).report()
            }),
    {
        self.report.get_channel_lists = bump(self.report.get_channel_lists);
        let ghost s = self.tables().lists;
        let mut names: Vec<String> = Vec::new();
        let mut i: usize = 0;
        while i < self.lists.len()
            invariant
                s == lists_view(self.lists@),
                0 <= i <= self.lists.len(),
                names@.map_values(|n: String| n@) == list_names(s.subrange(0, i as int), user_id),
            decreases self.lists.len() - i,
        {
            proof {
                assert(s.subrange(0, i as int + 1).drop_last() =~= s.subrange(0, i as int));
            }
            if self.lists[i].userid == user_id {
                let name = self.lists[i].name.clone();
                let ghost before = names@;
                names.push(name);
                proof {
                    assert(names@.map_values(|n: String| n@) =~= before.map_values(
                        |n: String| n@,
                    ).push(name@));
                }
            }
            i = i + 1;
        }
        proof {
            assert(s.subrange(0, i as int) =~= s);
        }
        match names_to_json(&names) {
            Ok(json) => Ok(Response::StringResp(json)),
            Err(_) => Err(DBError::JSONConversionError),
        }
    }

    /// Executes GetChannelList.
    pub fn get_channel_list(&mut self, user_id: i32, list_name: String) -> (r: Result<
        Response,
        DBError,
    >)
        ensures
            final(self).tables() == old(self).tables(),
            outcome(r) == get_channel_list_spec(old(self).tables(), user_id, list_name@),
            final(self).is_running() == old(self).is_running(),
            old(self).wf() ==> final(self).wf(),
            final(self).report() == (StatusReport {
                get_channel_list: inc(old(self).report().get_channel_list),
                ..old(self).report()
            }),
    {
        self.report.get_channel_list = bump(self.report.get_channel_list);
        let (n, j) = self.find_list(user_id, Some(&list_name), 0);
        if let Err(e) = allow_only_one(returned(n)) {
            return Err(e);
        }
        proof {
            lemma_single_index(self.tables().lists, list_named(user_id, list_name@), j as int);
        }
        Ok(Response::StringResp(self.lists[j].data.clone()))
    }

    /// Executes SetChannelList.
    pub fn set_channel_list(&mut self, user_id: i32, list_name: String, list_data: String) -> (r:
        Result<Response, DBError>)
        ensures
            (final(self).tables(), outcome(r)) == set_channel_list_spec(
                old(self).tables(),
                user_id,
                list_name@,
                list_data@,
            ),
            final(self).is_running() == old(self).is_running(),
            old(self).wf() ==> final(self).wf(),
            final(self).report() == (StatusReport {
                set_channel_list: inc(old(self).report().set_channel_list),
                ..old(self).report()
            }),
    {
        proof {
            let ghost res = set_channel_list_spec(self.tables(), user_id, list_name@, list_data@);
            if self.wf() {
                lemma_executes_keeps_wf(
                    self.tables(),
                    Action::SetChannelList { user_id, list_name, list_data },
                    0,
                    res.0,
                    res.1,
                );
            }
        }
        self.report.set_channel_list = bump(self.report.set_channel_list);
        let (n, j) = self.find_list(user_id, Some(&list_name), 0);
        if let Err(e) = allow_only_one(n) {
            return Err(e);
        }
        proof {
            lemma_single_index(self.tables().lists, list_named(user_id, list_name@), j as int);
        }
        let row = QueryChannelList {
            id: self.lists[j].id,
            userid: self.lists[j].userid,
            name: self.lists[j].name.clone(),
            data: list_data,
        };
        let ghost old_lists = self.lists@;
        self.lists.set(j, row);
        proof {
            assert(lists_view(self.lists@) =~= lists_view(old_lists).update(j as int, row@));
        }
        Ok(Response::Empty)
    }

    /// Executes CreateChannelList.
    pub fn create_channel_list(&mut self, user_id: i32, list_name: String) -> (r: Result<
        Response,
        DBError,
    >)
        ensures
            (final(self).tables(), outcome(r)) == create_channel_list_spec(
                old(self).tables(),
                user_id,
                list_name@,
            ),
            final(self).is_running() == old(self).is_running(),
            old(self).wf() ==> final(self).wf(),
            final(self).report() == (StatusReport {
                create_channel_list: inc(old(self).report().create_channel_list),
                ..old(self).report()
            }),
    {
        proof {
            let ghost res = create_channel_list_spec(self.tables(), user_id, list_name@);
            if self.wf() {
                lemma_executes_keeps_wf(
                    self.tables(),
                    Action::CreateChannelList { user_id, list_name },
                    0,
                    res.0,
                    res.1,
                );
            }
        }
        self.report.create_channel_list = bump(self.report.create_channel_list);
        let (n, _) = self.find_list(user_id, Some(&list_name), 0);
        if n > 0 {
            return Err(DBError::EntryAlreadyExists);
        }
        if self.next_list_id == i32::MAX {
            return Err(DBError::OtherErr);
        }
        let new_channel = InsertChannelList {
            userid: user_id,
            name: list_name,
            data: String::from_str(NEW_LIST_DATA),
        };
        let id = self.next_list_id;
        let row = QueryChannelList {
            id: id,
            userid: new_channel.userid,
            name: new_channel.name,
            data: new_channel.data,
        };
        let ghost old_lists = self.lists@;
        self.lists.push(row);
        proof {
            assert(lists_view(self.lists@) =~= lists_view(old_lists).push(row@));
        }
        self.next_list_id = id + 1;
        Ok(Response::Empty)
    }

    /// Executes GetActiveChannel.
    pub fn get_active_channel(&mut self, user_id: i32) -> (r: Result<Response, DBError>)
        ensures
            final(self).tables() == old(self).tables(),
            outcome(r) == get_active_channel_spec(old(self).tables(), user_id),
            final(self).is_running() == old(self).is_running(),
            old(self).wf() ==> final(self).wf(),
            final(self).report() == (StatusReport {
                get_active_channel: inc(old(self).report().get_active_channel),
                ..old(self).report()
            }),
    {
        self.report.get_active_channel = bump(self.report.get_active_channel);
        let key = NameOrID::ID(user_id);
        let (n, k) = self.find_user(&key);
        if let Err(e) = allow_only_one(returned(n)) {
            return Err(e);
        }
        proof {
            lemma_single_index(self.tables().users, user_with_id(user_id), k as int);
        }
        let list_id = match self.users[k].active_channel {
            Some(id) => id,
            None => {
                return Err(DBError::InvalidRowCount(0));
            },
        };
        let (m, j) = self.find_list(user_id, None, list_id);
        if let Err(e) = allow_only_one(returned(m)) {
            return Err(e);
        }
        proof {
            lemma_single_index(self.tables().lists, list_with_id(user_id, list_id), j as int);
        }
        Ok(Response::StringResp(self.lists[j].data.clone()))
    }

    /// Executes SetActiveChannel.
    pub fn set_active_channel(&mut self, user_id: i32, list_name: String) -> (r: Result<
        Response,
        DBError,
    >)
        ensures
            (final(self).tables(), outcome(r)) == set_active_channel_spec(
                old(self).tables(),
                user_id,
                list_name@,
            ),
            final(self).is_running() == old(self).is_running(),
            old(self).wf() ==> final(self).wf(),
            final(self).report() == (StatusReport {
                set_active_channel: inc(old(self).report().set_active_channel),
                ..old(self).report()
            }),
    {
        proof {
            let ghost res = set_active_channel_spec(self.tables(), user_id, list_name@);
            if self.wf() {
                lemma_executes_keeps_wf(
                    self.tables(),
                    Action::SetActiveChannel { user_id, list_name },
                    0,
                    res.0,
                    res.1,
                );
            }
        }
        self.report.set_active_channel = bump(self.report.set_active_channel);
        let (n, j) = self.find_list(user_id, Some(&list_name), 0);
        if let Err(e) = allow_only_one(returned(n)) {
            return Err(e);
        }
        proof {
            lemma_single_index(self.tables().lists, list_named(user_id, list_name@), j as int);
        }
        let list_id = self.lists[j].id;
        let key = NameOrID::ID(user_id);
        let (m, k) = self.find_user(&key);
        if let Err(e) = allow_only_one(m) {
            return Err(e);
        }
        proof {
            lemma_single_index(self.tables().users, user_with_id(user_id), k as int);
        }
        let row = QueryUserData {
            id: self.users[k].id,
            username: self.users[k].username.clone(),
            pass_hash: self.users[k].pass_hash.clone(),
            pass_hash_type: self.users[k].pass_hash_type,
            validation_status: self.users[k].validation_status,
            validation_code: match &self.users[k].validation_code {
                Some(c) => Some(c.clone()),
                None => None,
            },
            active_channel: Some(list_id),
        };
        let ghost old_users = self.users@;
        self.users.set(k, row);
        proof {
            assert(users_view(self.users@) =~= users_view(old_users).update(k as int, row@));
        }
        Ok(Response::Empty)
    }

    /// Whether the store still accepts commands: it stops after Shutdown.
    pub closed spec fn is_running(&self) -> bool {
        self.running
    }

    /// Executes one command at time `now`. A stopped store refuses every
    /// command and changes nothing.
    pub fn execute(&mut self, action: Action, now: i64) -> (r: Result<Response, DBError>)
        ensures
            old(self).wf() ==> final(self).wf(),
            !old(self).is_running() ==> r == Err::<Response, DBError>(DBError::ThreadResponseFailure)
                && final(self).tables() == old(self).tables() && final(self).report() == old(
                self,
            ).report() && !final(self).is_running(),
            old(self).is_running() ==> {
                &&& executes(old(self).tables(), action, now, final(self).tables(), outcome(r))
                &&& final(self).report() == counted(old(self).report(), action, outcome(r))
                &&& final(self).is_running() == !(action is Shutdown)
                &&& action is GetStatusReport ==> r == Ok::<Response, DBError>(
                    Response::StatusReport(final(self).report()),
                )
            },
    {
        if !self.running {
            return Err(DBError::ThreadResponseFailure);
        }
        match action {
            Action::AddUser { user, pass_hash, pass_hash_ver, reg_key } => self.add_user(
                user,
                pass_hash,
                pass_hash_ver,
                reg_key,
            ),
            Action::ValidateAccount { val_code } => self.validate_account(val_code),
            Action::AddSessKey { user, sess_type, sess_key } => self.add_session_key(
                user,
                sess_type,
                sess_key,
                now,
            ),
            Action::ValidateSessKey { sess_type, sess_key } => self.validate_session_key(
                sess_type,
                sess_key,
                now,
            ),
            Action::LogoutSessKey { sess_type, sess_key } => self.logout_session_key(
                sess_type,
                sess_key,
            ),
            Action::GetUserPassHash { user } => self.get_user_passhash(user),
            Action::GetChannelLists { user_id } => self.get_channel_lists(user_id),
            Action::GetChannelList { user_id, list_name } => self.get_channel_list(
                user_id,
                list_name,
            ),
            Action::SetChannelList { user_id, list_name, list_data } => self.set_channel_list(
                user_id,
                list_name,
                list_data,
            ),
            Action::CreateChannelList { user_id, list_name } => self.create_channel_list(
                user_id,
                list_name,
            ),
            Action::GetActiveChannel { user_id } => self.get_active_channel(user_id),
            Action::SetActiveChannel { user_id, list_name } => self.set_active_channel(
                user_id,
                list_name,
            ),
            Action::GetStatusReport => self.get_status_report(),
            Action::Shutdown => {
                self.running = false;
                Ok(Response::Shutdown)
            },
        }
    }

    /// Executes one command at the current time, read from the clock.
    pub fn please(&mut self, action: Action) -> (r: Result<Response, DBError>)
        ensures
            !old(self).is_running() ==> r == Err::<Response, DBError>(DBError::ThreadResponseFailure)
                && final(self).tables() == old(self).tables() && final(self).report() == old(
                self,
            ).report(),
            old(self).wf() ==> final(self).wf(),
            final(self).is_running() == (old(self).is_running() && !(action is Shutdown)),
            old(self).is_running() && action is GetStatusReport ==> r == Ok::<Response, DBError>(
                Response::StatusReport(final(self).report()),
            ),
            old(self).is_running() ==> exists|now: i64|
                #![auto]
                executes(old(self).tables(), action, now, final(self).tables(), outcome(r)),
            old(self).is_running() ==> final(self).report() == counted(
                old(self).report(),
                action,
                outcome(r),
            ),
    {
        let now = now_seconds();
        self.execute(action, now)
    }

    /// Executes GetStatusReport: the counters, this request included.
    pub fn get_status_report(&mut self) -> (r: Result<Response, DBError>)
        ensures
            final(self).tables() == old(self).tables(),
            final(self).is_running() == old(self).is_running(),
            old(self).wf() ==> final(self).wf(),
            final(self).report() == (StatusReport {
                get_status_report: inc(old(self).report().get_status_report),
                ..old(self).report()
            }),
            r == Ok::<Response, DBError>(Response::StatusReport(final(self).report())),
    {
        self.report.get_status_report = bump(self.report.get_status_report);
        Ok(Response::StatusReport(self.report))
    }
}

/// The tables of a store that holds nothing yet.
pub open spec fn empty_tables() -> Tables {
    Tables {
        users: Seq::empty(),
        sess_keys: Seq::empty(),
        lists: Seq::empty(),
        next_user_id: 1,
        next_sess_id: 1,
        next_list_id: 1,
    }
}

} // verus!
