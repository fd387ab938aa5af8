//! A relay bot's file-rehosting logic: which remote file a chat message
//! refers to, what the rehosted copy is called, and where it is stored and
//! served.
pub mod composer;
pub mod naming;
pub mod relay;
pub mod user;
pub mod weburl;
