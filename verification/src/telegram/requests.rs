//! What the client asks of the engine.

use vstd::prelude::*;

verus! {

/// The lists in which the engine keeps chats.
#[derive(Clone, Copy, Debug, PartialEq, Eq, Structural)]
pub enum ChatList {
    Main,
    Archive,
}

/// The parameters with which the engine is set up.
#[derive(Clone, Debug, PartialEq, Eq)]
pub struct EngineParameters {
    pub use_test_dc: bool,
    pub database_directory: String,
    pub files_directory: String,
    pub database_encryption_key: String,
    pub use_file_database: bool,
    pub use_chat_info_database: bool,
    pub use_message_database: bool,
    pub use_secret_chats: bool,
    pub api_id: i32,
    pub api_hash: String,
    pub system_language_code: String,
    pub device_model: String,
    pub system_version: String,
    pub application_version: String,
}

/// A request to the engine. Each is answered by one response.
#[derive(Clone, Debug, PartialEq, Eq)]
pub enum Request {
    SetTdlibParameters { parameters: EngineParameters },
    SetAuthenticationPhoneNumber { phone_number: String },
    CheckAuthenticationCode { code: String },
    CheckAuthenticationPassword { password: String },
    LoadChats { chat_list: ChatList, limit: i32 },
    GetBasicGroupFullInfo { basic_group_id: i64 },
    GetSupergroupMembers { supergroup_id: i64, offset: i32, limit: i32 },
    GetChatMember { chat_id: i64, user_id: i64 },
    GetUser { user_id: i64 },
    GetChatHistory { chat_id: i64, from_message_id: i64, offset: i32, limit: i32, only_local: bool },
}

} // verus!
