//! The client core: what a caller may ask for in which phase, and what is
//! sent to the engine for it.
//!
//! A `Client` is a snapshot of the session and its catalog, together with the
//! configuration. Its methods send nothing: each one checks the phase that it
//! is meant for and returns the request, or the plan of requests, that the
//! caller then performs.

pub mod catalog;
pub mod key;
pub mod messages;
pub mod paging;
pub mod poller;
pub mod requests;
pub mod router;
pub mod session;
pub mod wire;

use crate::decimal::{decimal_text, i32_of, parse_i32, render_i64};
use crate::json::{
    integer_member, is_object, items, items_member, json_is_object, json_items, json_rendering,
    member, member_integer, member_items, member_of, member_text, text_member,
};
use crate::telegram::messages::{integer_or_default, text_or_empty, TdLibResponse};
use crate::telegram::paging::{
    Collection, PageRequest, PaginatedFetcher, Position, FetchView, PageCursor, HISTORY_PAGE,
    MAX_OFFSET, MEMBERS_PAGE, PAGE_TIMEOUT_SECS,
};
use crate::telegram::requests::{ChatList, EngineParameters, Request};
use crate::telegram::router::CorrelationRouter;
use crate::telegram::wire::{is_object_of, wire_fields};
use crate::telegram::session::{Phase, PhaseWait, State};
use crate::text::text_eq;
use serde_json::Value;
use std::collections::BTreeMap;
use std::collections::BTreeSet;
use std::path::PathBuf;
use vstd::prelude::*;
use vstd::string::*;

pub use crate::telegram::key::get_or_create_encryption_key;

verus! {

#[verifier::external_type_specification]
#[verifier::external_body]
pub struct ExPathBuf(std::path::PathBuf);

/// A path as text, with what is not Unicode in it replaced.
pub uninterp spec fn path_text(path: PathBuf) -> Seq<char>;

/// `std::path::Path::to_string_lossy`: the path as text. The result is a
/// function of the path alone.
#[verifier::external_body]
fn directory_text(path: &PathBuf) -> (r: String)
    ensures
        r@ == path_text(*path),
{
    path.to_string_lossy().into_owned()
}

/// `Clone` of `std::path::PathBuf`: an equal path.
pub assume_specification[ <PathBuf as Clone>::clone ](path: &PathBuf) -> (r: PathBuf)
    ensures
        r == *path,
;

/// What the client is configured with.
#[derive(Clone)]
pub struct Config {
    pub api_id: String,
    pub api_hash: String,
    pub database_directory: PathBuf,
    pub encryption_key: String,
}

/// Why the client could not say what to send.
#[derive(Clone, Copy, Debug, PartialEq, Eq, Structural)]
pub enum ClientError {
    /// The configured API id is no 32-bit integer.
    InvalidApiId,
    /// The catalog has no chat with this id.
    UnknownChat { chat_id: i64 },
    /// The record of the chat does not say of what kind the chat is.
    UnreadableChat { chat_id: i64 },
}

impl ClientError {
    /// The message that states the error.
    pub open spec fn message(self) -> Seq<char> {
        match self {
            ClientError::InvalidApiId => "Invalid API_ID"@,
            ClientError::UnknownChat { chat_id } => "Unknown chat ID: "@ + decimal_text(
                chat_id as int,
            ),
            ClientError::UnreadableChat { chat_id } => "Unreadable chat record: "@ + decimal_text(
                chat_id as int,
            ),
        }
    }

    pub fn to_string(&self) -> (r: String)
        ensures
            r@ == self.message(),
    {
        match self {
            ClientError::InvalidApiId => "Invalid API_ID".to_owned(),
            ClientError::UnknownChat { chat_id } => "Unknown chat ID: ".to_owned().concat(
                render_i64(*chat_id).as_str(),
            ),
            ClientError::UnreadableChat { chat_id } => "Unreadable chat record: ".to_owned().concat(
                render_i64(*chat_id).as_str(),
            ),
        }
    }
}

/// The kinds of chat, each with the id under which its members are found.
#[derive(Clone, Copy, Debug, PartialEq, Eq, Structural)]
pub enum ChatKind {
    Private { user_id: i64 },
    BasicGroup { basic_group_id: i64 },
    Supergroup { supergroup_id: i64 },
    Secret { user_id: i64 },
}

impl ChatKind {
    /// The kind that the member `type` of a chat's record states.
    pub open spec fn recorded(record: Value) -> Option<ChatKind> {
        match member_of(record, "type"@) {
            Some(kind) => match text_member(kind, "@type"@) {
                Some(name) => if name == "chatTypePrivate"@ {
                    match integer_member(kind, "user_id"@) {
                        Some(user_id) => Some(ChatKind::Private { user_id }),
                        None => None,
                    }
                } else if name == "chatTypeBasicGroup"@ {
                    match integer_member(kind, "basic_group_id"@) {
                        Some(basic_group_id) => Some(ChatKind::BasicGroup { basic_group_id }),
                        None => None,
                    }
                } else if name == "chatTypeSupergroup"@ {
                    match integer_member(kind, "supergroup_id"@) {
                        Some(supergroup_id) => Some(ChatKind::Supergroup { supergroup_id }),
                        None => None,
                    }
                } else if name == "chatTypeSecret"@ {
                    match integer_member(kind, "user_id"@) {
                        Some(user_id) => Some(ChatKind::Secret { user_id }),
                        None => None,
                    }
                } else {
                    None
                },
                None => None,
            },
            None => None,
        }
    }

    /// Reads the kind of a chat from its record.
    pub fn of_record(record: &Value) -> (r: Option<ChatKind>)
        ensures
            r == Self::recorded(*record),
    {
        let kind = match member(record, "type") {
            Some(k) => k,
            None => { return None; },
        };
        let name = match member_text(kind, "@type") {
            Some(n) => n,
            None => { return None; },
        };
        if text_eq(name, "chatTypePrivate") {
            match member_integer(kind, "user_id") {
                Some(user_id) => Some(ChatKind::Private { user_id }),
                None => None,
            }
        } else if text_eq(name, "chatTypeBasicGroup") {
            match member_integer(kind, "basic_group_id") {
                Some(basic_group_id) => Some(ChatKind::BasicGroup { basic_group_id }),
                None => None,
            }
        } else if text_eq(name, "chatTypeSupergroup") {
            match member_integer(kind, "supergroup_id") {
                Some(supergroup_id) => Some(ChatKind::Supergroup { supergroup_id }),
                None => None,
            }
        } else if text_eq(name, "chatTypeSecret") {
            match member_integer(kind, "user_id") {
                Some(user_id) => Some(ChatKind::Secret { user_id }),
                None => None,
            }
        } else {
            None
        }
    }
}

/// The title of a chat, from its record.
pub fn chat_title(record: &Value) -> (r: Option<&str>)
    ensures
        match r {
            Some(title) => text_member(*record, "title"@) == Some(title@),
            None => text_member(*record, "title"@) is None,
        },
{
    member_text(record, "title")
}

/// How the members of a chat are listed.
#[derive(Debug)]
pub enum MemberPlan {
    /// Ask for the full info of the basic group, and keep `limit` of its
    /// members at most.
    BasicGroup { basic_group_id: i64, limit: Option<usize> },
    /// Fetch the members of the supergroup page by page.
    Supergroup { fetcher: PaginatedFetcher },
    /// The chat is with one user: ask for that member.
    Single { chat_id: i64, user_id: i64 },
}

/// The plan for a chat of kind `kind`, as contracts see it.
pub open spec fn plans(plan: MemberPlan, chat_id: i64, kind: ChatKind, limit: Option<usize>)
    -> bool {
    match kind {
        ChatKind::BasicGroup { basic_group_id } => plan == (MemberPlan::BasicGroup {
            basic_group_id,
            limit,
        }),
        ChatKind::Supergroup { supergroup_id } => plan matches MemberPlan::Supergroup { fetcher }
            && fetcher@ == members_fetch(supergroup_id, limit),
        ChatKind::Private { user_id } => plan == (MemberPlan::Single { chat_id, user_id }),
        ChatKind::Secret { user_id } => plan == (MemberPlan::Single { chat_id, user_id }),
    }
}

/// The fetch of the members of a supergroup, at its start.
pub open spec fn members_fetch(supergroup_id: i64, limit: Option<usize>) -> FetchView {
    FetchView {
        collection: Collection::SupergroupMembers { supergroup_id },
        cursor: PageCursor { position: Position::Offset(0), remaining: limit },
        page_cap: MEMBERS_PAGE,
        timeout_secs: PAGE_TIMEOUT_SECS,
        finished: false,
    }
}

/// The fetch of the history of a chat, at its start.
pub open spec fn history_fetch(chat_id: i64, from_msg_id: Option<i64>, limit: Option<usize>)
    -> FetchView {
    FetchView {
        collection: Collection::ChatHistory { chat_id },
        cursor: PageCursor { position: Position::Before(from_msg_id), remaining: limit },
        page_cap: HISTORY_PAGE,
        timeout_secs: PAGE_TIMEOUT_SECS,
        finished: false,
    }
}

/// A size as the engine takes it: 32 bits with sign, and the largest of them
/// for anything above.
pub open spec fn clamped(n: usize) -> i32 {
    if n <= MAX_OFFSET {
        n as i32
    } else {
        2147483647i32
    }
}

fn clamp(n: usize) -> (r: i32)
    ensures
        r == clamped(n),
{
    if n <= MAX_OFFSET {
        n as i32
    } else {
        2147483647
    }
}

/// The request that asks for a page; `None` where the position is not of the
/// kind by which the collection is walked.
pub open spec fn page_request(page: PageRequest) -> Option<Request> {
    match (page.collection, page.position) {
        (Collection::SupergroupMembers { supergroup_id }, Position::Offset(count)) => Some(
            Request::GetSupergroupMembers {
                supergroup_id,
                offset: clamped(count),
                limit: clamped(page.limit),
            },
        ),
        (Collection::ChatHistory { chat_id }, Position::Before(seen)) => Some(
            Request::GetChatHistory {
                chat_id,
                from_message_id: match seen {
                    Some(id) => id,
                    None => 0i64,
                },
                offset: 0i32,
                limit: clamped(page.limit),
                only_local: false,
            },
        ),
        _ => None,
    }
}

impl Request {
    /// The request that asks the engine for a page.
    pub fn for_page(page: &PageRequest) -> (r: Option<Request>)
        ensures
            r == page_request(*page),
    {
        match (page.collection, page.position) {
            (Collection::SupergroupMembers { supergroup_id }, Position::Offset(count)) => Some(
                Request::GetSupergroupMembers {
                    supergroup_id,
                    offset: clamp(count),
                    limit: clamp(page.limit),
                },
            ),
            (Collection::ChatHistory { chat_id }, Position::Before(seen)) => Some(
                Request::GetChatHistory {
                    chat_id,
                    from_message_id: match seen {
                        Some(id) => id,
                        None => 0,
                    },
                    offset: 0,
                    limit: clamp(page.limit),
                    only_local: false,
                },
            ),
            _ => None,
        }
    }
}

/// The members that a reply lists under `members`; none where it lists none.
pub fn members_in(reply: &Value) -> (r: Vec<Value>)
    ensures
        r@ == items_member(*reply, "members"@),
{
    member_items(reply, "members")
}

/// The members that a page lists; `None` for a reply that has no array
/// `members`, which is no page.
pub fn read_members(reply: &Value) -> (r: Option<Vec<Value>>)
    ensures
        r matches Some(list) ==> list@ == items_member(*reply, "members"@),
        r is Some <==> (member_of(*reply, "members"@) matches Some(m) && json_items(m) is Some),
{
    match member(reply, "members") {
        Some(m) => match items(m) {
            Some(_) => Some(member_items(reply, "members")),
            None => None,
        },
        None => None,
    }
}

/// The first `limit` of `members`, or all of them where there are no more
/// than that or there is no limit.
pub fn limit_members<T>(members: Vec<T>, limit: Option<usize>) -> (r: Vec<T>)
    ensures
        r@ == (match limit {
            Some(n) => if n <= members@.len() {
                members@.take(n as int)
            } else {
                members@
            },
            None => members@,
        }),
{
    let mut members = members;
    match limit {
        Some(n) => {
            if n <= members.len() {
                let ghost all = members@;
                members.truncate(n);
                assert(members@ =~= all.take(n as int));
            }
        },
        None => {},
    }
    members
}

/// Why a reply is no confirmation.
#[derive(Clone, Debug, PartialEq, Eq)]
pub enum ReplyError {
    /// The reply is no JSON object.
    NotAnObject,
    /// The engine turned the request down, with this code and message.
    Rejected { code: i64, message: String },
    /// The reply is of a kind that confirms nothing.
    Unknown,
}

impl ReplyError {
    /// The message that states the error.
    pub open spec fn message(self) -> Seq<char> {
        match self {
            ReplyError::NotAnObject => "Response not a JSON object"@,
            ReplyError::Rejected { message, .. } => message@,
            ReplyError::Unknown => "Unknown failure"@,
        }
    }

    pub fn to_string(&self) -> (r: String)
        ensures
            r@ == self.message(),
    {
        match self {
            ReplyError::NotAnObject => "Response not a JSON object".to_owned(),
            ReplyError::Rejected { message, .. } => message.clone(),
            ReplyError::Unknown => "Unknown failure".to_owned(),
        }
    }
}

/// What the client does for its caller, as failures name it.
#[derive(Clone, Copy, Debug, PartialEq, Eq, Structural)]
pub enum Operation {
    Initialization,
    RequestAuthenticationCode,
    ConfirmAuthenticationCode,
    ConfirmAuthenticationPassword,
    LoadChats,
    GetUser,
    GetChatMember,
    GetChatMembers,
    GetChatHistory,
}

impl Operation {
    /// How a failure of the operation begins.
    pub open spec fn label(self) -> Seq<char> {
        match self {
            Operation::Initialization => "TdLib client initialization failed"@,
            Operation::RequestAuthenticationCode => "Failed to request authentication code"@,
            Operation::ConfirmAuthenticationCode => "Failed to confirm authentication code"@,
            Operation::ConfirmAuthenticationPassword =>
                "Failed to confirm authentication password"@,
            Operation::LoadChats => "Failed to load chats"@,
            Operation::GetUser => "Failed to get user"@,
            Operation::GetChatMember => "Failed to fetch chat member"@,
            Operation::GetChatMembers => "Failed to get chat members"@,
            Operation::GetChatHistory => "Failed to get chat history"@,
        }
    }

    pub fn to_string(&self) -> (r: String)
        ensures
            r@ == self.label(),
    {
        match self {
            Operation::Initialization => "TdLib client initialization failed".to_owned(),
            Operation::RequestAuthenticationCode =>
                "Failed to request authentication code".to_owned(),
            Operation::ConfirmAuthenticationCode =>
                "Failed to confirm authentication code".to_owned(),
            Operation::ConfirmAuthenticationPassword =>
                "Failed to confirm authentication password".to_owned(),
            Operation::LoadChats => "Failed to load chats".to_owned(),
            Operation::GetUser => "Failed to get user".to_owned(),
            Operation::GetChatMember => "Failed to fetch chat member".to_owned(),
            Operation::GetChatMembers => "Failed to get chat members".to_owned(),
            Operation::GetChatHistory => "Failed to get chat history".to_owned(),
        }
    }
}

/// The text of a failure: what failed, a colon, and why.
pub open spec fn annotated(operation: Operation, reason: Seq<char>) -> Seq<char> {
    operation.label() + ": "@ + reason
}

/// Writes the text of a failure of `operation` for the reason `reason`.
pub fn annotate(operation: Operation, reason: &str) -> (r: String)
    ensures
        r@ == annotated(operation, reason@),
{
    operation.to_string().concat(": ").concat(reason)
}

/// A failure of an operation, with what the engine answered.
#[derive(Clone, Debug, PartialEq, Eq)]
pub struct OperationError {
    pub operation: Operation,
    pub cause: ReplyError,
}

impl OperationError {
    /// The message that states the failure: the operation, then the cause.
    pub open spec fn message(self) -> Seq<char> {
        annotated(self.operation, self.cause.message())
    }

    pub fn to_string(&self) -> (r: String)
        ensures
            r@ == self.message(),
    {
        annotate(self.operation, self.cause.to_string().as_str())
    }
}

/// Reads the reply to the one request of `operation`. A reply that is no
/// confirmation is a failure of that operation.
pub fn confirm(operation: Operation, response: &Value) -> (r: Result<(), OperationError>)
    ensures
        match r {
            Ok(()) => confirms(*response, Ok(())),
            Err(e) => e.operation == operation && confirms(*response, Err(e.cause)),
        },
{
    match assert_ok_response(response) {
        Ok(()) => Ok(()),
        Err(cause) => Err(OperationError { operation, cause }),
    }
}

/// Whether `r` is what the reply `response` amounts to: a confirmation where
/// its kind is `ok`, the engine's message where its kind is `error`.
pub open spec fn confirms(response: Value, r: Result<(), ReplyError>) -> bool {
    if !json_is_object(response) {
        r matches Err(ReplyError::NotAnObject)
    } else if text_member(response, "@type"@) == Some("ok"@) {
        r is Ok
    } else if text_member(response, "@type"@) == Some("error"@) {
        r matches Err(ReplyError::Rejected { code, message }) && code == integer_or_default(
            response,
            "code"@,
        ) && message@ == text_or_empty(response, "message"@)
    } else {
        r matches Err(ReplyError::Unknown)
    }
}

/// Reads a reply as the confirmation of a request.
pub fn assert_ok_response(response: &Value) -> (r: Result<(), ReplyError>)
    ensures
        confirms(*response, r),
{
    proof {
        crate::telegram::messages::lemma_kinds_differ();
    }
    if !is_object(response) {
        return Err(ReplyError::NotAnObject);
    }
    match member_text(response, "@type") {
        Some(kind) => {
            if text_eq(kind, "ok") {
                Ok(())
            } else if text_eq(kind, "error") {
                let code = match member_integer(response, "code") {
                    Some(c) => c,
                    None => 0,
                };
                let message = match member_text(response, "message") {
                    Some(m) => m.to_owned(),
                    None => String::new(),
                };
                Err(ReplyError::Rejected { code, message })
            } else {
                Err(ReplyError::Unknown)
            }
        },
        None => Err(ReplyError::Unknown),
    }
}

/// Whether `r` is what the reply `response` to the one request of `operation`
/// amounts to: a failure of the operation where the engine answered with an
/// error, and the reply itself where it did not.
pub open spec fn answers(operation: Operation, response: Value, r: Result<Value, OperationError>)
    -> bool {
    if text_member(response, "@type"@) == Some("error"@) {
        &&& r matches Err(e)
        &&& e.operation == operation
        &&& e.cause matches ReplyError::Rejected { code, message }
        &&& code == integer_or_default(response, "code"@)
        &&& message@ == text_or_empty(response, "message"@)
    } else {
        r == Ok::<Value, OperationError>(response)
    }
}

/// Reads the reply to a request that asks for a value.
pub fn answer(operation: Operation, response: Value) -> (r: Result<Value, OperationError>)
    ensures
        answers(operation, response, r),
{
    let rejected = match member_text(&response, "@type") {
        Some(kind) => text_eq(kind, "error"),
        None => false,
    };
    if rejected {
        let code = match member_integer(&response, "code") {
            Some(c) => c,
            None => 0,
        };
        let message = match member_text(&response, "message") {
            Some(m) => m.to_owned(),
            None => String::new(),
        };
        Err(OperationError { operation, cause: ReplyError::Rejected { code, message } })
    } else {
        Ok(response)
    }
}

/// The error code with which the engine says that a list has no more chats.
pub const END_OF_LIST: i64 = 404;

/// The number of chats asked for at a time.
pub const LOAD_CHATS_PAGE: i32 = 100;

/// The loading of all chats: the main list, then the archive, each asked for
/// again and again until the engine says that it has no more.
pub struct BulkLoad {
    list: Option<ChatList>,
}

/// Why the loading of the chats was broken off.
#[derive(Clone, Debug, PartialEq, Eq)]
pub enum LoadError {
    /// The engine turned a request down, with this code and message.
    Rejected { code: i64, message: String },
    /// The engine answered with something that is neither a confirmation nor
    /// an error.
    Unexpected,
}

impl LoadError {
    /// The message that states the error.
    pub open spec fn message(self) -> Seq<char> {
        match self {
            LoadError::Rejected { message, .. } => message@,
            LoadError::Unexpected => "Unknown error"@,
        }
    }

    pub fn to_string(&self) -> (r: String)
        ensures
            r@ == self.message(),
    {
        match self {
            LoadError::Rejected { message, .. } => message.clone(),
            LoadError::Unexpected => "Unknown error".to_owned(),
        }
    }
}

impl BulkLoad {
    /// The list that is being loaded; `None` when the loading is over.
    pub closed spec fn list(&self) -> Option<ChatList> {
        self.list
    }

    /// A loading that starts with the main list.
    pub fn new() -> (r: BulkLoad)
        ensures
            r.list() == Some(ChatList::Main),
    {
        BulkLoad { list: Some(ChatList::Main) }
    }

    /// Whether all lists were loaded to their end, or the loading broke off.
    pub fn is_complete(&self) -> (r: bool)
        ensures
            r == self.list() is None,
    {
        self.list.is_none()
    }

    /// The next request; `None` when the loading is over.
    pub fn next_request(&self) -> (r: Option<Request>)
        ensures
            r == (match self.list() {
                Some(chat_list) => Some(Request::LoadChats { chat_list, limit: LOAD_CHATS_PAGE }),
                None => None,
            }),
    {
        match self.list {
            Some(chat_list) => Some(Request::LoadChats { chat_list, limit: LOAD_CHATS_PAGE }),
            None => None,
        }
    }

    /// The list that is loaded after `list`.
    pub open spec fn following(list: ChatList) -> Option<ChatList> {
        match list {
            ChatList::Main => Some(ChatList::Archive),
            ChatList::Archive => None,
        }
    }

    /// Whether `r`, with `next` to load afterwards, is how a loading of `self`
    /// goes on after `reply`.
    ///
    /// A confirmation means that there may be more: the same list is asked for
    /// again. The end-of-list error moves on to the following list. Anything
    /// else breaks the loading off.
    pub open spec fn goes_on(
        &self,
        reply: TdLibResponse,
        r: Result<(), LoadError>,
        next: Option<ChatList>,
    ) -> bool {
        match self.list() {
            None => r is Ok && next is None,
            Some(list) => match reply {
                TdLibResponse::Success => r is Ok && next == Some(list),
                TdLibResponse::Error { code, message } => if code == END_OF_LIST {
                    r is Ok && next == Self::following(list)
                } else {
                    &&& r matches Err(LoadError::Rejected { code: c, message: m })
                    &&& c == code
                    &&& m@ == message@
                    &&& next is None
                },
                _ => r matches Err(LoadError::Unexpected) && next is None,
            },
        }
    }

    /// Takes in the reply to the request that `next_request` gave.
    pub fn accept(&mut self, reply: TdLibResponse) -> (r: Result<(), LoadError>)
        ensures
            old(self).goes_on(reply, r, final(self).list()),
    {
        let list = match self.list {
            Some(l) => l,
            None => { return Ok(()); },
        };
        match reply {
            TdLibResponse::Success => Ok(()),
            TdLibResponse::Error { code, message } => {
                if code == END_OF_LIST {
                    self.list = match list {
                        ChatList::Main => Some(ChatList::Archive),
                        ChatList::Archive => None,
                    };
                    Ok(())
                } else {
                    self.list = None;
                    Err(LoadError::Rejected { code, message })
                }
            },
            _ => {
                self.list = None;
                Err(LoadError::Unexpected)
            },
        }
    }
}

/// The session as a caller sees it, with the configuration.
pub struct Client {
    config: Config,
    state: State,
}

/// Whether `parameters` are those with which the engine is set up for `config`.
pub open spec fn parameters_for(config: Config, parameters: EngineParameters) -> bool {
    &&& !parameters.use_test_dc
    &&& parameters.database_directory@ == path_text(config.database_directory)
    &&& parameters.files_directory@ == ""@
    &&& parameters.database_encryption_key@ == config.encryption_key@
    &&& parameters.use_file_database
    &&& parameters.use_chat_info_database
    &&& parameters.use_message_database
    &&& !parameters.use_secret_chats
    &&& i32_of(config.api_id@) == Some(parameters.api_id)
    &&& parameters.api_hash@ == config.api_hash@
    &&& parameters.system_language_code@ == "en"@
    &&& parameters.device_model@ == "Desktop"@
    &&& parameters.system_version@ == ""@
    &&& parameters.application_version@ == "1.0"@
}

/// Whether a request may be made in a phase. The parameters are handed over
/// at the start, each step of the login in the phase that awaits it, and
/// everything else once the session is authorized.
pub open spec fn admitted(phase: Phase, request: Request) -> bool {
    match request {
        Request::SetTdlibParameters { .. } => phase == Phase::Init || phase
            == Phase::AwaitingEngineParameters,
        Request::SetAuthenticationPhoneNumber { .. } => phase == Phase::AwaitingPhoneNumber,
        Request::CheckAuthenticationCode { .. } => phase == Phase::AwaitingCode,
        Request::CheckAuthenticationPassword { .. } => phase == Phase::AwaitingPassword,
        _ => phase == Phase::Authorized,
    }
}

/// A step of the login may be made in the phase that awaits it, and in no
/// other: the phone number while it is awaited, the code while it is awaited,
/// the password while it is awaited.
pub proof fn lemma_login_steps_have_their_phase(phase: Phase, request: Request)
    ensures
        request is SetAuthenticationPhoneNumber ==> (admitted(phase, request) <==> phase
            == Phase::AwaitingPhoneNumber),
        request is CheckAuthenticationCode ==> (admitted(phase, request) <==> phase
            == Phase::AwaitingCode),
        request is CheckAuthenticationPassword ==> (admitted(phase, request) <==> phase
            == Phase::AwaitingPassword),
{
}

/// Why a request did not go out.
#[derive(Clone, Copy, Debug, PartialEq, Eq, Structural)]
pub enum IssueError {
    /// The request may not be made in the phase in which the session is.
    WrongPhase { phase: Phase },
    /// All correlation ids are used up.
    IdsExhausted,
}

/// A request on its way out: the correlation id under which its response
/// comes back, and the text that is sent.
#[derive(Clone, Debug, PartialEq, Eq)]
pub struct Outgoing {
    pub id: u64,
    pub text: String,
}

/// Whether `r`, with the router `after`, is how `request` goes out in the
/// phase `phase` with the router `before`.
///
/// A request that may not be made in the phase does not go out, and uses up
/// no correlation id. One that may be made gets the next id and is written
/// out with that id as its tag.
pub open spec fn issued<S>(
    phase: Phase,
    before: CorrelationRouter<S>,
    request: Request,
    r: Result<Outgoing, IssueError>,
    after: CorrelationRouter<S>,
) -> bool {
    &&& after.pending() == before.pending()
    &&& if !admitted(phase, request) {
        &&& r == Err::<Outgoing, IssueError>(IssueError::WrongPhase { phase })
        &&& after.next_id() == before.next_id()
    } else if before.next_id() == u64::MAX {
        &&& r == Err::<Outgoing, IssueError>(IssueError::IdsExhausted)
        &&& after.next_id() == before.next_id()
    } else {
        &&& r matches Ok(out)
        &&& out.id == before.next_id()
        &&& after.next_id() == out.id + 1
        &&& exists|value: Value|
            is_object_of(value, wire_fields(request, out.id)) && out.text@ == json_rendering(
                value,
            )
    }
}

impl Client {
    pub closed spec fn config(&self) -> Config {
        self.config
    }

    pub closed spec fn state(&self) -> State {
        self.state
    }

    /// The chats that a read of the catalog shows: those recorded, in an
    /// authorized session; none before.
    pub open spec fn chats(&self) -> Map<i64, Value> {
        match self.state() {
            State::Authorized { catalog } => catalog.chats(),
            _ => Map::<i64, Value>::empty(),
        }
    }

    /// The supergroups that a read of the catalog shows.
    pub open spec fn supergroups(&self) -> Map<i64, Value> {
        match self.state() {
            State::Authorized { catalog } => catalog.supergroups(),
            _ => Map::<i64, Value>::empty(),
        }
    }

    /// The basic groups that a read of the catalog shows.
    pub open spec fn basic_groups(&self) -> Map<i64, Value> {
        match self.state() {
            State::Authorized { catalog } => catalog.basic_groups(),
            _ => Map::<i64, Value>::empty(),
        }
    }

    /// The users that a read of the catalog shows.
    pub open spec fn users(&self) -> Map<i64, Value> {
        match self.state() {
            State::Authorized { catalog } => catalog.users(),
            _ => Map::<i64, Value>::empty(),
        }
    }

    /// A client with a new session.
    pub fn new(config: Config) -> (r: Client)
        ensures
            r.config() == config,
            r.state() == State::Init,
    {
        Client { config, state: State::new() }
    }

    /// The session.
    pub fn session(&self) -> (r: &State)
        ensures
            *r == self.state(),
    {
        &self.state
    }

    /// The phase in which the session is.
    pub fn current_phase(&self) -> (r: Phase)
        ensures
            r == self.state().phase(),
    {
        self.state.phase()
    }

    /// Takes in a message that the engine pushed. Only the worker that
    /// receives from the engine calls this.
    pub fn on_update(&mut self, update: TdLibResponse)
        ensures
            final(self).config() == old(self).config(),
            old(self).state().follows(update, final(self).state()),
    {
        self.state.on_update(update);
    }

    /// Whether `request` may be made in the phase in which the session is. A
    /// request that may not be made is not to be sent.
    pub fn accepts(&self, request: &Request) -> (r: bool)
        ensures
            r == admitted(self.state().phase(), *request),
    {
        let phase = self.state.phase();
        match request {
            Request::SetTdlibParameters { .. } => phase == Phase::Init || phase
                == Phase::AwaitingEngineParameters,
            Request::SetAuthenticationPhoneNumber { .. } => phase == Phase::AwaitingPhoneNumber,
            Request::CheckAuthenticationCode { .. } => phase == Phase::AwaitingCode,
            Request::CheckAuthenticationPassword { .. } => phase == Phase::AwaitingPassword,
            _ => phase == Phase::Authorized,
        }
    }

    /// Checks that `request` may be made now, and if so gives it the next
    /// correlation id of `router` and writes it out. The caller registers its
    /// completion slot under the id, and then sends the text.
    pub fn issue<S>(&self, router: &mut CorrelationRouter<S>, request: &Request) -> (r: Result<
        Outgoing,
        IssueError,
    >)
        ensures
            issued(self.state().phase(), *old(router), *request, r, *final(router)),
            old(router).wf() ==> final(router).wf(),
    {
        if !self.accepts(request) {
            return Err(IssueError::WrongPhase { phase: self.state.phase() });
        }
        match router.allocate() {
            Some(id) => Ok(Outgoing { id, text: request.to_wire(id) }),
            None => Err(IssueError::IdsExhausted),
        }
    }

    /// The request that hands the engine its parameters. The session has to be
    /// at its start. Fails where the configured API id is no number.
    pub fn init(&self) -> (r: Result<Request, ClientError>)
        requires
            self.state().phase() == Phase::Init || self.state().phase()
                == Phase::AwaitingEngineParameters,
        ensures
            match r {
                Ok(request) => {
                    &&& admitted(self.state().phase(), request)
                    &&& request matches Request::SetTdlibParameters { parameters }
                    &&& parameters_for(self.config(), parameters)
                },
                Err(e) => e == ClientError::InvalidApiId && i32_of(self.config().api_id@) is None,
            },
    {
        let api_id = match parse_i32(self.config.api_id.as_str()) {
            Some(n) => n,
            None => { return Err(ClientError::InvalidApiId); },
        };
        let parameters = EngineParameters {
            use_test_dc: false,
            database_directory: directory_text(&self.config.database_directory),
            files_directory: "".to_owned(),
            database_encryption_key: self.config.encryption_key.clone(),
            use_file_database: true,
            use_chat_info_database: true,
            use_message_database: true,
            use_secret_chats: false,
            api_id,
            api_hash: self.config.api_hash.clone(),
            system_language_code: "en".to_owned(),
            device_model: "Desktop".to_owned(),
            system_version: "".to_owned(),
            application_version: "1.0".to_owned(),
        };
        Ok(Request::SetTdlibParameters { parameters })
    }

    /// Reads the reply to the request that `init` gave. On a confirmation the
    /// caller goes on to wait for a phase in which the session can be used or
    /// logged in; on anything else the initialization has failed, and there is
    /// nothing to wait for.
    pub fn init_reply(&self, response: &Value) -> (r: Result<PhaseWait, OperationError>)
        ensures
            match r {
                Ok(wait) => {
                    &&& confirms(*response, Ok(()))
                    &&& wait.wanted() == seq![
                        Phase::AwaitingPhoneNumber,
                        Phase::AwaitingCode,
                        Phase::Authorized,
                    ]
                    &&& wait.sleeps_left() == 10
                },
                Err(e) => e.operation == Operation::Initialization && confirms(
                    *response,
                    Err(e.cause),
                ),
            },
    {
        match confirm(Operation::Initialization, response) {
            Ok(()) => Ok(PhaseWait::after_init()),
            Err(e) => Err(e),
        }
    }

    /// Whether the session is authorized.
    pub fn is_authorised(&self) -> (r: bool)
        ensures
            r == (self.state().phase() == Phase::Authorized),
    {
        self.state.phase() == Phase::Authorized
    }

    /// Whether the engine waits for the login code.
    pub fn is_need_code(&self) -> (r: bool)
        ensures
            r == (self.state().phase() == Phase::AwaitingCode),
    {
        self.state.phase() == Phase::AwaitingCode
    }

    /// Whether the engine waits for the phone number.
    pub fn is_need_phone_number(&self) -> (r: bool)
        ensures
            r == (self.state().phase() == Phase::AwaitingPhoneNumber),
    {
        self.state.phase() == Phase::AwaitingPhoneNumber
    }

    /// Whether the engine waits for the password. Where it does, `hint` is set
    /// to the password hint; else `hint` is left as it is.
    pub fn is_need_password(&self, hint: &mut String) -> (r: bool)
        ensures
            r == (self.state().phase() == Phase::AwaitingPassword),
            final(hint)@ == (if r {
                self.state().hint()
            } else {
                old(hint)@
            }),
    {
        match &self.state {
            State::AwaitingPassword { hint: known } => {
                *hint = known.clone();
                true
            },
            _ => false,
        }
    }

    /// The request that submits the phone number.
    pub fn send_auth_request(&self, phone_number: &str) -> (r: Request)
        requires
            self.state().phase() == Phase::AwaitingPhoneNumber,
        ensures
            admitted(self.state().phase(), r),
            r matches Request::SetAuthenticationPhoneNumber { phone_number: sent } && sent@
                == phone_number@,
    {
        Request::SetAuthenticationPhoneNumber { phone_number: phone_number.to_owned() }
    }

    /// The request that submits the login code.
    pub fn send_auth_code(&self, code: &str) -> (r: Request)
        requires
            self.state().phase() == Phase::AwaitingCode,
        ensures
            admitted(self.state().phase(), r),
            r matches Request::CheckAuthenticationCode { code: sent } && sent@ == code@,
    {
        Request::CheckAuthenticationCode { code: code.to_owned() }
    }

    /// The request that submits the password.
    pub fn send_auth_password(&self, password: &str) -> (r: Request)
        requires
            self.state().phase() == Phase::AwaitingPassword,
        ensures
            admitted(self.state().phase(), r),
            r matches Request::CheckAuthenticationPassword { password: sent } && sent@
                == password@,
    {
        Request::CheckAuthenticationPassword { password: password.to_owned() }
    }

    /// The loading of all chats into the catalog.
    pub fn load_chats(&self) -> (r: BulkLoad)
        requires
            self.state().phase() == Phase::Authorized,
        ensures
            r.list() == Some(ChatList::Main),
    {
        BulkLoad::new()
    }

    /// The ids of the chats known so far.
    pub fn get_chat_ids(&self) -> (r: BTreeSet<i64>)
        ensures
            r@ == self.chats().dom(),
    {
        match self.state.catalog() {
            Some(catalog) => catalog.get_chat_ids(),
            None => {
                let r = BTreeSet::new();
                assert(r@ =~= Map::<i64, Value>::empty().dom());
                r
            },
        }
    }

    /// A copy of the chats known so far.
    pub fn get_chats(&self) -> (r: BTreeMap<i64, Value>)
        ensures
            r@ == self.chats(),
    {
        match self.state.catalog() {
            Some(catalog) => catalog.get_chats(),
            None => BTreeMap::new(),
        }
    }

    /// A copy of the supergroups known so far.
    pub fn get_supergroups(&self) -> (r: BTreeMap<i64, Value>)
        ensures
            r@ == self.supergroups(),
    {
        match self.state.catalog() {
            Some(catalog) => catalog.get_supergroups(),
            None => BTreeMap::new(),
        }
    }

    /// A copy of the basic groups known so far.
    pub fn get_basic_groups(&self) -> (r: BTreeMap<i64, Value>)
        ensures
            r@ == self.basic_groups(),
    {
        match self.state.catalog() {
            Some(catalog) => catalog.get_basic_groups(),
            None => BTreeMap::new(),
        }
    }

    /// A copy of the users known so far.
    pub fn get_users(&self) -> (r: BTreeMap<i64, Value>)
        ensures
            r@ == self.users(),
    {
        match self.state.catalog() {
            Some(catalog) => catalog.get_users(),
            None => BTreeMap::new(),
        }
    }

    /// A copy of the record of a chat.
    pub fn get_chat_info(&self, chat_id: i64) -> (r: Result<Value, ClientError>)
        ensures
            r == (if self.chats().contains_key(chat_id) {
                Ok::<Value, ClientError>(self.chats()[chat_id])
            } else {
                Err::<Value, ClientError>(ClientError::UnknownChat { chat_id })
            }),
    {
        match self.chat(chat_id) {
            Some(record) => Ok(record.clone()),
            None => Err(ClientError::UnknownChat { chat_id }),
        }
    }

    /// The record of a chat.
    fn chat(&self, chat_id: i64) -> (r: Option<&Value>)
        ensures
            match r {
                Some(record) => self.chats().contains_key(chat_id) && self.chats()[chat_id]
                    == *record,
                None => !self.chats().contains_key(chat_id),
            },
    {
        match self.state.catalog() {
            Some(catalog) => catalog.chat(chat_id),
            None => None,
        }
    }

    /// Whether `r` is how the members of the chat `chat_id` are listed.
    pub open spec fn plans_members(
        &self,
        chat_id: i64,
        limit: Option<usize>,
        r: Result<MemberPlan, ClientError>,
    ) -> bool {
        if !self.chats().contains_key(chat_id) {
            r matches Err(e) && e == (ClientError::UnknownChat { chat_id })
        } else {
            match ChatKind::recorded(self.chats()[chat_id]) {
                Some(kind) => r matches Ok(plan) && plans(plan, chat_id, kind, limit),
                None => r matches Err(e) && e == (ClientError::UnreadableChat { chat_id }),
            }
        }
    }

    /// How to list the members of a chat, `limit` of them at most.
    pub fn get_chat_members(&self, chat_id: i64, limit: Option<usize>) -> (r: Result<
        MemberPlan,
        ClientError,
    >)
        ensures
            self.plans_members(chat_id, limit, r),
    {
        let record = match self.chat(chat_id) {
            Some(record) => record,
            None => { return Err(ClientError::UnknownChat { chat_id }); },
        };
        match ChatKind::of_record(record) {
            Some(ChatKind::BasicGroup { basic_group_id }) => Ok(
                MemberPlan::BasicGroup { basic_group_id, limit },
            ),
            Some(ChatKind::Supergroup { supergroup_id }) => Ok(
                MemberPlan::Supergroup { fetcher: self.get_supergroup_members(supergroup_id, limit) },
            ),
            Some(ChatKind::Private { user_id }) => Ok(MemberPlan::Single { chat_id, user_id }),
            Some(ChatKind::Secret { user_id }) => Ok(MemberPlan::Single { chat_id, user_id }),
            None => Err(ClientError::UnreadableChat { chat_id }),
        }
    }

    /// The request for the full info of a basic group, which lists its members.
    pub fn get_basicgroup_members(&self, basicgroup_id: i64) -> (r: Request)
        ensures
            r == (Request::GetBasicGroupFullInfo { basic_group_id: basicgroup_id }),
    {
        Request::GetBasicGroupFullInfo { basic_group_id: basicgroup_id }
    }

    /// The fetch of the members of a supergroup, `limit` of them at most.
    pub fn get_supergroup_members(&self, supergroup_id: i64, limit: Option<usize>) -> (r:
        PaginatedFetcher)
        ensures
            r@ == members_fetch(supergroup_id, limit),
    {
        PaginatedFetcher::new(
            Collection::SupergroupMembers { supergroup_id },
            Position::Offset(0),
            limit,
            MEMBERS_PAGE,
            PAGE_TIMEOUT_SECS,
        )
    }

    /// The request for a user.
    pub fn get_user(&self, user_id: i64) -> (r: Request)
        requires
            self.state().phase() == Phase::Authorized,
        ensures
            r == (Request::GetUser { user_id }),
    {
        Request::GetUser { user_id }
    }

    /// The fetch of the messages of a chat, older than `from_msg_id` where
    /// that is given, `limit` of them at most. Fails for a chat that the
    /// catalog does not hold.
    pub fn get_chat_history(
        &self,
        chat_id: i64,
        from_msg_id: Option<i64>,
        limit: Option<usize>,
    ) -> (r: Result<PaginatedFetcher, ClientError>)
        ensures
            match r {
                Ok(fetcher) => self.chats().contains_key(chat_id) && fetcher@
                    == history_fetch(chat_id, from_msg_id, limit),
                Err(e) => !self.chats().contains_key(chat_id) && e
                    == (ClientError::UnknownChat { chat_id }),
            },
    {
        match self.chat(chat_id) {
            Some(_) => Ok(
                PaginatedFetcher::new(
                    Collection::ChatHistory { chat_id },
                    Position::Before(from_msg_id),
                    limit,
                    HISTORY_PAGE,
                    PAGE_TIMEOUT_SECS,
                ),
            ),
            None => Err(ClientError::UnknownChat { chat_id }),
        }
    }
}

} // verus!
