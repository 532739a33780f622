//! The forms and queries that requests carry.
use vstd::prelude::*;

verus! {

#[derive(Debug, Clone)]
pub struct AuthForm {
    pub username: String,
    pub password: String,
}

#[derive(Debug, Clone)]
pub struct CreateAcctForm {
    pub username: String,
    pub password: String,
}

#[derive(Debug, Clone)]
pub struct SetChannelListForm {
    pub listname: String,
    pub listdata: String,
}

#[derive(Debug, Clone)]
pub struct RenameChannelForm {
    pub listname: String,
    pub newlistname: String,
}

#[derive(Debug, Clone)]
pub struct CreateChannelListForm {
    pub listname: String,
}

#[derive(Debug, Clone)]
pub struct SetActiveChannelForm {
    pub listname: String,
}

#[derive(Debug, Clone)]
pub struct DeleteChannelQuery {
    pub listname: String,
}

#[derive(Debug, Clone)]
pub struct GetChannelListQuery {
    pub list_name: String,
}

#[derive(Debug, Clone)]
pub struct ValidateAccountRequest {
    pub val_code: String,
}

} // verus!
