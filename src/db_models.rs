//! The rows of the stored tables, and their mathematical views.
use crate::helpers::SessType;
use vstd::prelude::*;

verus! {

/// A stored user account.
#[derive(Debug, Clone)]
pub struct QueryUserData {
    pub id: i32,
    pub username: String,
    pub pass_hash: String,
    pub pass_hash_type: i32,
    pub validation_status: bool,
    pub validation_code: Option<String>,
    pub active_channel: Option<i32>,
}

/// What a new account is inserted with.
#[derive(Debug, Clone)]
pub struct InsertUserData {
    pub username: String,
    pub pass_hash: String,
    pub pass_hash_type: i32,
    pub validation_status: bool,
    pub validation_code: String,
}

/// A stored session key; `sess_type` names the partition it belongs to.
/// Times are in seconds since the Unix epoch.
#[derive(Debug, Clone)]
pub struct SessKeyRow {
    pub id: i32,
    pub userid: i32,
    pub sess_type: SessType,
    pub sesskey: String,
    pub creationtime: i64,
    pub lastusedtime: i64,
}

/// A stored channel list.
#[derive(Debug, Clone)]
pub struct QueryChannelList {
    pub id: i32,
    pub userid: i32,
    pub name: String,
    pub data: String,
}

/// What a new channel list is inserted with.
#[derive(Debug, Clone)]
pub struct InsertChannelList {
    pub userid: i32,
    pub name: String,
    pub data: String,
}

/// A user account as the store's contracts see it.
pub ghost struct UserView {
    pub id: i32,
    pub username: Seq<char>,
    pub pass_hash: Seq<char>,
    pub pass_hash_type: i32,
    pub validation_status: bool,
    pub validation_code: Option<Seq<char>>,
    pub active_channel: Option<i32>,
}

/// A session key as the store's contracts see it.
pub ghost struct SessKeyView {
    pub id: i32,
    pub userid: i32,
    pub sess_type: SessType,
    pub sesskey: Seq<char>,
    pub creationtime: i64,
    pub lastusedtime: i64,
}

/// A channel list as the store's contracts see it.
pub ghost struct ListView {
    pub id: i32,
    pub userid: i32,
    pub name: Seq<char>,
    pub data: Seq<char>,
}

/// An optional string seen as its characters.
pub open spec fn opt_view(o: Option<String>) -> Option<Seq<char>> {
    match o {
        Some(s) => Some(s@),
        None => None,
    }
}

impl View for QueryUserData {
    type V = UserView;

    open spec fn view(&self) -> UserView {
        UserView {
            id: self.id,
            username: self.username@,
            pass_hash: self.pass_hash@,
            pass_hash_type: self.pass_hash_type,
            validation_status: self.validation_status,
            validation_code: opt_view(self.validation_code),
            active_channel: self.active_channel,
        }
    }
}

impl View for SessKeyRow {
    type V = SessKeyView;

    open spec fn view(&self) -> SessKeyView {
        SessKeyView {
            id: self.id,
            userid: self.userid,
            sess_type: self.sess_type,
            sesskey: self.sesskey@,
            creationtime: self.creationtime,
            lastusedtime: self.lastusedtime,
        }
    }
}

impl View for QueryChannelList {
    type V = ListView;

    open spec fn view(&self) -> ListView {
        ListView { id: self.id, userid: self.userid, name: self.name@, data: self.data@ }
    }
}

pub open spec fn users_view(v: Seq<QueryUserData>) -> Seq<UserView> {
    v.map_values(|u: QueryUserData| u@)
}

pub open spec fn keys_view(v: Seq<SessKeyRow>) -> Seq<SessKeyView> {
    v.map_values(|k: SessKeyRow| k@)
}

pub open spec fn lists_view(v: Seq<QueryChannelList>) -> Seq<ListView> {
    v.map_values(|l: QueryChannelList| l@)
}

} // verus!
