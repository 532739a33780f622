//! Accounts, multi-client sessions and per-user channel lists, served by a
//! single owner of the storage that executes typed commands one at a time.
pub mod api_handlers;
pub mod db;
pub mod db_models;
pub mod email;
pub mod helpers;
pub mod json_xml;
pub mod models;
pub mod password_hash_version;
pub mod row_count;
pub mod store_laws;
pub mod text;
