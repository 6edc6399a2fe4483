//! Messages of the engine, as far as the client reads them.
//!
//! Every message is a flat JSON object whose member `@type` names its kind. A
//! decoded message keeps a few named fields and, beside them, the object it
//! was read from, so that nothing the engine sent is lost.

use crate::json::{
    integer, integer_member, items, json_integer, json_items, member, member_of, member_text,
    text_member,
};
use crate::text::text_eq;
use serde_json::Value;
use vstd::prelude::*;
use vstd::string::*;

verus! {

/// The authorization states that the engine announces.
#[derive(Clone, Copy, Debug, PartialEq, Eq, Structural)]
pub enum AuthState {
    AuthorizationStateWaitTdlibParameters,
    AuthorizationStateWaitPhoneNumber,
    AuthorizationStateWaitCode,
    AuthorizationStateWaitPassword,
    AuthorizationStateReady,
    AuthorizationStateClosed,
}

impl AuthState {
    /// The state that the engine calls `name`.
    pub open spec fn named(name: Seq<char>) -> Option<AuthState> {
        if name == "authorizationStateWaitTdlibParameters"@ {
            Some(AuthState::AuthorizationStateWaitTdlibParameters)
        } else if name == "authorizationStateWaitPhoneNumber"@ {
            Some(AuthState::AuthorizationStateWaitPhoneNumber)
        } else if name == "authorizationStateWaitCode"@ {
            Some(AuthState::AuthorizationStateWaitCode)
        } else if name == "authorizationStateWaitPassword"@ {
            Some(AuthState::AuthorizationStateWaitPassword)
        } else if name == "authorizationStateReady"@ {
            Some(AuthState::AuthorizationStateReady)
        } else if name == "authorizationStateClosed"@ {
            Some(AuthState::AuthorizationStateClosed)
        } else {
            None
        }
    }

    pub fn from_name(name: &str) -> (r: Option<AuthState>)
        ensures
            r == Self::named(name@),
    {
        if text_eq(name, "authorizationStateWaitTdlibParameters") {
            Some(AuthState::AuthorizationStateWaitTdlibParameters)
        } else if text_eq(name, "authorizationStateWaitPhoneNumber") {
            Some(AuthState::AuthorizationStateWaitPhoneNumber)
        } else if text_eq(name, "authorizationStateWaitCode") {
            Some(AuthState::AuthorizationStateWaitCode)
        } else if text_eq(name, "authorizationStateWaitPassword") {
            Some(AuthState::AuthorizationStateWaitPassword)
        } else if text_eq(name, "authorizationStateReady") {
            Some(AuthState::AuthorizationStateReady)
        } else if text_eq(name, "authorizationStateClosed") {
            Some(AuthState::AuthorizationStateClosed)
        } else {
            None
        }
    }
}

/// An announced authorization state, with the object that announced it.
#[derive(Clone, Debug, PartialEq, Eq)]
pub struct UpdateAuthState {
    pub typ: AuthState,
    pub other: Value,
}

impl UpdateAuthState {
    pub open spec fn decoded(value: Value) -> Option<UpdateAuthState> {
        match text_member(value, "@type"@) {
            Some(name) => match AuthState::named(name) {
                Some(typ) => Some(UpdateAuthState { typ, other: value }),
                None => None,
            },
            None => None,
        }
    }

    pub fn decode(value: &Value) -> (r: Option<UpdateAuthState>)
        ensures
            r == Self::decoded(*value),
    {
        match member_text(value, "@type") {
            Some(name) => match AuthState::from_name(name) {
                Some(typ) => Some(UpdateAuthState { typ, other: value.clone() }),
                None => None,
            },
            None => None,
        }
    }
}

/// A chat, by its id, with the object that describes it.
#[derive(Clone, Debug, PartialEq, Eq)]
pub struct UpdateNewChat {
    pub id: i64,
    pub other: Value,
}

impl UpdateNewChat {
    pub open spec fn decoded(value: Value) -> Option<UpdateNewChat> {
        match integer_member(value, "id"@) {
            Some(id) => Some(UpdateNewChat { id, other: value }),
            None => None,
        }
    }

    pub fn decode(value: &Value) -> (r: Option<UpdateNewChat>)
        ensures
            r == Self::decoded(*value),
    {
        match crate::json::member_integer(value, "id") {
            Some(id) => Some(UpdateNewChat { id, other: value.clone() }),
            None => None,
        }
    }
}

/// A basic group, by its id, with the object that describes it.
#[derive(Clone, Debug, PartialEq, Eq)]
pub struct UpdateBasicgroup {
    pub id: i64,
    pub other: Value,
}

impl UpdateBasicgroup {
    pub open spec fn decoded(value: Value) -> Option<UpdateBasicgroup> {
        match integer_member(value, "id"@) {
            Some(id) => Some(UpdateBasicgroup { id, other: value }),
            None => None,
        }
    }

    pub fn decode(value: &Value) -> (r: Option<UpdateBasicgroup>)
        ensures
            r == Self::decoded(*value),
    {
        match crate::json::member_integer(value, "id") {
            Some(id) => Some(UpdateBasicgroup { id, other: value.clone() }),
            None => None,
        }
    }
}

/// A supergroup, by its id, with the object that describes it.
#[derive(Clone, Debug, PartialEq, Eq)]
pub struct UpdateSupergroup {
    pub id: i64,
    pub other: Value,
}

impl UpdateSupergroup {
    pub open spec fn decoded(value: Value) -> Option<UpdateSupergroup> {
        match integer_member(value, "id"@) {
            Some(id) => Some(UpdateSupergroup { id, other: value }),
            None => None,
        }
    }

    pub fn decode(value: &Value) -> (r: Option<UpdateSupergroup>)
        ensures
            r == Self::decoded(*value),
    {
        match crate::json::member_integer(value, "id") {
            Some(id) => Some(UpdateSupergroup { id, other: value.clone() }),
            None => None,
        }
    }
}

/// A user, by its id, with the object that describes it.
#[derive(Clone, Debug, PartialEq, Eq)]
pub struct UpdateUser {
    pub id: i64,
    pub other: Value,
}

impl UpdateUser {
    pub open spec fn decoded(value: Value) -> Option<UpdateUser> {
        match integer_member(value, "id"@) {
            Some(id) => Some(UpdateUser { id, other: value }),
            None => None,
        }
    }

    pub fn decode(value: &Value) -> (r: Option<UpdateUser>)
        ensures
            r == Self::decoded(*value),
    {
        match crate::json::member_integer(value, "id") {
            Some(id) => Some(UpdateUser { id, other: value.clone() }),
            None => None,
        }
    }
}

/// The integer in the member `key`, or 0 where the object has no such member;
/// `None` where the member is there and holds no integer.
pub open spec fn integer_or_zero(value: Value, key: Seq<char>) -> Option<i64> {
    match member_of(value, key) {
        Some(m) => json_integer(m),
        None => Some(0i64),
    }
}

fn read_integer_or_zero(value: &Value, key: &str) -> (r: Option<i64>)
    ensures
        r == integer_or_zero(*value, key@),
{
    match member(value, key) {
        Some(m) => integer(m),
        None => Some(0),
    }
}

/// One message of a chat.
#[derive(Clone, Debug, PartialEq, Eq)]
pub struct Message {
    pub typ: String,
    pub id: i64,
    pub chat_id: i64,
    pub other: Value,
}

pub ghost struct MessageView {
    pub typ: Seq<char>,
    pub id: i64,
    pub chat_id: i64,
    pub other: Value,
}

impl View for Message {
    type V = MessageView;

    open spec fn view(&self) -> MessageView {
        MessageView { typ: self.typ@, id: self.id, chat_id: self.chat_id, other: self.other }
    }
}

impl Message {
    /// A message is an object with a kind; `id` and `chat_id` are integers
    /// where they are present and 0 where they are not.
    pub open spec fn decoded(value: Value) -> Option<MessageView> {
        match (
            text_member(value, "@type"@),
            integer_or_zero(value, "id"@),
            integer_or_zero(value, "chat_id"@),
        ) {
            (Some(typ), Some(id), Some(chat_id)) => Some(
                MessageView { typ, id, chat_id, other: value },
            ),
            _ => None,
        }
    }

    pub fn decode(value: &Value) -> (r: Option<Message>)
        ensures
            match r {
                Some(m) => Self::decoded(*value) == Some(m@),
                None => Self::decoded(*value) is None,
            },
    {
        let typ = match member_text(value, "@type") {
            Some(t) => t,
            None => { return None; },
        };
        let id = match read_integer_or_zero(value, "id") {
            Some(n) => n,
            None => { return None; },
        };
        let chat_id = match read_integer_or_zero(value, "chat_id") {
            Some(n) => n,
            None => { return None; },
        };
        Some(Message { typ: typ.to_owned(), id, chat_id, other: value.clone() })
    }
}

/// The views of messages, one for one.
pub open spec fn message_views(messages: Seq<Message>) -> Seq<MessageView> {
    messages.map_values(|m: Message| m@)
}

/// A page of messages.
#[derive(Clone, Debug, PartialEq, Eq)]
pub struct Messages {
    pub typ: String,
    pub total_count: Option<i32>,
    pub messages: Vec<Message>,
}

pub ghost struct MessagesView {
    pub typ: Seq<char>,
    pub total_count: Option<i32>,
    pub messages: Seq<MessageView>,
}

impl View for Messages {
    type V = MessagesView;

    open spec fn view(&self) -> MessagesView {
        MessagesView {
            typ: self.typ@,
            total_count: self.total_count,
            messages: message_views(self.messages@),
        }
    }
}

/// The member `total_count`, where it holds an integer of 32 bits.
pub open spec fn total_count_of(value: Value) -> Option<i32> {
    match integer_member(value, "total_count"@) {
        Some(n) => if i32::MIN <= n && n <= i32::MAX {
            Some(n as i32)
        } else {
            None
        },
        None => None,
    }
}

/// Every item is a message.
pub open spec fn all_messages(items: Seq<Value>) -> bool {
    forall|i: int| 0 <= i < items.len() ==> (#[trigger] Message::decoded(items[i])) is Some
}

impl Messages {
    /// A page is an object with a kind and a member `messages` that is an
    /// array of messages.
    pub open spec fn decoded(value: Value) -> Option<MessagesView> {
        match (text_member(value, "@type"@), member_of(value, "messages"@)) {
            (Some(typ), Some(list)) => match json_items(list) {
                Some(items) => if all_messages(items) {
                    Some(
                        MessagesView {
                            typ,
                            total_count: total_count_of(value),
                            messages: Seq::new(items.len(), |i: int| Message::decoded(items[i])->0),
                        },
                    )
                } else {
                    None
                },
                None => None,
            },
            _ => None,
        }
    }

    #[verifier::loop_isolation(false)]
    pub fn decode(value: &Value) -> (r: Option<Messages>)
        ensures
            match r {
                Some(m) => Self::decoded(*value) == Some(m@),
                None => Self::decoded(*value) is None,
            },
    {
        let typ = match member_text(value, "@type") {
            Some(t) => t,
            None => { return None; },
        };
        let list = match member(value, "messages") {
            Some(l) => l,
            None => { return None; },
        };
        let entries = match items(list) {
            Some(e) => e,
            None => { return None; },
        };
        let total_count = match crate::json::member_integer(value, "total_count") {
            Some(n) => if -2147483648 <= n && n <= 2147483647 {
                Some(n as i32)
            } else {
                None
            },
            None => None,
        };
        let mut messages: Vec<Message> = Vec::new();
        let mut i: usize = 0;
        while i < entries.len()
            invariant
                i <= entries@.len(),
                messages@.len() == i,
                forall|j: int|
                    0 <= j < i ==> Message::decoded(entries@[j]) == Some(#[trigger] messages@[j]@),
            decreases entries@.len() - i,
        {
            match Message::decode(&entries[i]) {
                Some(m) => {
                    messages.push(m);
                },
                None => {
                    assert(Message::decoded(entries@[i as int]) is None);
                    return None;
                },
            }
            i = i + 1;
        }
        let ghost kept = messages@;
        let page = Messages { typ: typ.to_owned(), total_count, messages };
        proof {
            assert(page.messages@ == kept);
            let decoded = Seq::new(
                entries@.len(),
                |i: int| Message::decoded(entries@[i])->0,
            );
            assert forall|j: int| 0 <= j < entries@.len() implies (#[trigger] Message::decoded(
                entries@[j],
            )) is Some by {
                assert(Message::decoded(entries@[j]) == Some(kept[j]@));
            }
            assert(page@.messages =~= decoded) by {
                assert forall|j: int| 0 <= j < entries@.len() implies page@.messages[j]
                    == decoded[j] by {
                    assert(Message::decoded(entries@[j]) == Some(kept[j]@));
                }
            }
        }
        Some(page)
    }
}

/// The messages among `items`, in the order of the items: every item that
/// reads as a message, and none of the others.
pub open spec fn present_messages(items: Seq<Value>) -> Seq<MessageView>
    decreases items.len(),
{
    if items.len() == 0 {
        Seq::empty()
    } else {
        match Message::decoded(items.last()) {
            Some(m) => present_messages(items.drop_last()).push(m),
            None => present_messages(items.drop_last()),
        }
    }
}

impl Messages {
    /// The messages that a page holds, where entries that are absent or read
    /// as no message are passed over; `None` for a value without an array
    /// `messages`.
    pub open spec fn present(value: Value) -> Option<Seq<MessageView>> {
        match member_of(value, "messages"@) {
            Some(list) => match json_items(list) {
                Some(items) => Some(present_messages(items)),
                None => None,
            },
            None => None,
        }
    }

    /// Reads the messages of a page, passing over the entries that are none.
    #[verifier::loop_isolation(false)]
    pub fn read_present(value: &Value) -> (r: Option<Vec<Message>>)
        ensures
            match r {
                Some(messages) => Self::present(*value) == Some(message_views(messages@)),
                None => Self::present(*value) is None,
            },
    {
        let list = match member(value, "messages") {
            Some(l) => l,
            None => { return None; },
        };
        let entries = match items(list) {
            Some(e) => e,
            None => { return None; },
        };
        let mut messages: Vec<Message> = Vec::new();
        let mut i: usize = 0;
        assert(entries@.take(0) =~= Seq::<Value>::empty());
        while i < entries.len()
            invariant
                i <= entries@.len(),
                message_views(messages@) == present_messages(entries@.take(i as int)),
            decreases entries@.len() - i,
        {
            let ghost before = messages@;
            assert(entries@.take(i + 1).drop_last() =~= entries@.take(i as int));
            assert(entries@.take(i + 1).last() == entries@[i as int]);
            match Message::decode(&entries[i]) {
                Some(m) => {
                    messages.push(m);
                    assert(message_views(messages@) =~= message_views(before).push(m@));
                },
                None => {},
            }
            i = i + 1;
        }
        assert(entries@.take(i as int) =~= entries@);
        Some(messages)
    }
}

/// What the engine sends: the plain replies to requests, and the updates that
/// it pushes on its own.
#[derive(Clone, Debug, PartialEq, Eq)]
pub enum TdLibResponse {
    Success,
    Error { code: i64, message: String },
    UpdateAuthorizationState { authorization_state: UpdateAuthState },
    UpdateNewChat { chat: UpdateNewChat },
    UpdateBasicGroup { basicgroup: UpdateBasicgroup },
    UpdateSupergroup { supergroup: UpdateSupergroup },
    UpdateUser { user: UpdateUser },
    Messages { messages: Messages },
}

/// The text of the member `key`, or the empty text.
pub open spec fn text_or_empty(value: Value, key: Seq<char>) -> Seq<char> {
    match text_member(value, key) {
        Some(t) => t,
        None => Seq::<char>::empty(),
    }
}

/// The integer in the member `key`, or 0.
pub open spec fn integer_or_default(value: Value, key: Seq<char>) -> i64 {
    match integer_member(value, key) {
        Some(n) => n,
        None => 0i64,
    }
}

/// What is read under the member `key` of `value` by `read`.
pub open spec fn nested<T>(value: Value, key: Seq<char>, read: spec_fn(Value) -> Option<T>)
    -> Option<T> {
    match member_of(value, key) {
        Some(inner) => read(inner),
        None => None,
    }
}

impl TdLibResponse {
    /// Whether `value` is one of the messages that the client reads.
    pub open spec fn decodable(value: Value) -> bool {
        match text_member(value, "@type"@) {
            Some(kind) => {
                ||| kind == "ok"@
                ||| kind == "error"@
                ||| kind == "updateAuthorizationState"@ && nested(
                    value,
                    "authorization_state"@,
                    |v: Value| UpdateAuthState::decoded(v),
                ) is Some
                ||| kind == "updateNewChat"@ && nested(
                    value,
                    "chat"@,
                    |v: Value| UpdateNewChat::decoded(v),
                ) is Some
                ||| kind == "updateBasicGroup"@ && nested(
                    value,
                    "basic_group"@,
                    |v: Value| UpdateBasicgroup::decoded(v),
                ) is Some
                ||| kind == "updateSupergroup"@ && nested(
                    value,
                    "supergroup"@,
                    |v: Value| UpdateSupergroup::decoded(v),
                ) is Some
                ||| kind == "updateUser"@ && nested(
                    value,
                    "user"@,
                    |v: Value| UpdateUser::decoded(v),
                ) is Some
                ||| kind == "messages"@ && Messages::decoded(value) is Some
            },
            None => false,
        }
    }

    /// Whether `response` is what `value` says.
    pub open spec fn decodes(value: Value, response: TdLibResponse) -> bool {
        let kind = text_member(value, "@type"@);
        match response {
            TdLibResponse::Success => kind == Some("ok"@),
            TdLibResponse::Error { code, message } => {
                &&& kind == Some("error"@)
                &&& code == integer_or_default(value, "code"@)
                &&& message@ == text_or_empty(value, "message"@)
            },
            TdLibResponse::UpdateAuthorizationState { authorization_state } => {
                &&& kind == Some("updateAuthorizationState"@)
                &&& nested(value, "authorization_state"@, |v: Value| UpdateAuthState::decoded(v))
                    == Some(authorization_state)
            },
            TdLibResponse::UpdateNewChat { chat } => {
                &&& kind == Some("updateNewChat"@)
                &&& nested(value, "chat"@, |v: Value| UpdateNewChat::decoded(v)) == Some(chat)
            },
            TdLibResponse::UpdateBasicGroup { basicgroup } => {
                &&& kind == Some("updateBasicGroup"@)
                &&& nested(value, "basic_group"@, |v: Value| UpdateBasicgroup::decoded(v)) == Some(
                    basicgroup,
                )
            },
            TdLibResponse::UpdateSupergroup { supergroup } => {
                &&& kind == Some("updateSupergroup"@)
                &&& nested(value, "supergroup"@, |v: Value| UpdateSupergroup::decoded(v)) == Some(
                    supergroup,
                )
            },
            TdLibResponse::UpdateUser { user } => {
                &&& kind == Some("updateUser"@)
                &&& nested(value, "user"@, |v: Value| UpdateUser::decoded(v)) == Some(user)
            },
            TdLibResponse::Messages { messages } => {
                &&& kind == Some("messages"@)
                &&& Messages::decoded(value) == Some(messages@)
            },
        }
    }

    /// Reads a message of the engine. `None` for a value that is none of the
    /// kinds above, or that lacks what its kind requires.
    pub fn decode(value: &Value) -> (r: Option<TdLibResponse>)
        ensures
            match r {
                Some(response) => Self::decodes(*value, response),
                None => !Self::decodable(*value),
            },
    {
        proof {
            lemma_kinds_differ();
        }
        let kind = match member_text(value, "@type") {
            Some(k) => k,
            None => { return None; },
        };
        if text_eq(kind, "ok") {
            Some(TdLibResponse::Success)
        } else if text_eq(kind, "error") {
            let code = match crate::json::member_integer(value, "code") {
                Some(c) => c,
                None => 0,
            };
            let message = match member_text(value, "message") {
                Some(m) => m.to_owned(),
                None => String::new(),
            };
            Some(TdLibResponse::Error { code, message })
        } else if text_eq(kind, "updateAuthorizationState") {
            match member(value, "authorization_state") {
                Some(inner) => match UpdateAuthState::decode(inner) {
                    Some(authorization_state) => Some(
                        TdLibResponse::UpdateAuthorizationState { authorization_state },
                    ),
                    None => None,
                },
                None => None,
            }
        } else if text_eq(kind, "updateNewChat") {
            match member(value, "chat") {
                Some(inner) => match UpdateNewChat::decode(inner) {
                    Some(chat) => Some(TdLibResponse::UpdateNewChat { chat }),
                    None => None,
                },
                None => None,
            }
        } else if text_eq(kind, "updateBasicGroup") {
            match member(value, "basic_group") {
                Some(inner) => match UpdateBasicgroup::decode(inner) {
                    Some(basicgroup) => Some(TdLibResponse::UpdateBasicGroup { basicgroup }),
                    None => None,
                },
                None => None,
            }
        } else if text_eq(kind, "updateSupergroup") {
            match member(value, "supergroup") {
                Some(inner) => match UpdateSupergroup::decode(inner) {
                    Some(supergroup) => Some(TdLibResponse::UpdateSupergroup { supergroup }),
                    None => None,
                },
                None => None,
            }
        } else if text_eq(kind, "updateUser") {
            match member(value, "user") {
                Some(inner) => match UpdateUser::decode(inner) {
                    Some(user) => Some(TdLibResponse::UpdateUser { user }),
                    None => None,
                },
                None => None,
            }
        } else if text_eq(kind, "messages") {
            match Messages::decode(value) {
                Some(messages) => Some(TdLibResponse::Messages { messages }),
                None => None,
            }
        } else {
            None
        }
    }
}

/// The names of the kinds are pairwise different.
pub proof fn lemma_kinds_differ()
    ensures
        "ok"@.len() == 2,
        "error"@.len() == 5,
        "messages"@.len() == 8,
        "updateUser"@.len() == 10,
        "updateNewChat"@.len() == 13,
        "updateBasicGroup"@.len() == 16,
        "updateSupergroup"@.len() == 16,
        "updateAuthorizationState"@.len() == 24,
        "updateBasicGroup"@[6] == 'B',
        "updateSupergroup"@[6] == 'S',
{
    reveal_strlit("ok");
    reveal_strlit("error");
    reveal_strlit("messages");
    reveal_strlit("updateUser");
    reveal_strlit("updateNewChat");
    reveal_strlit("updateBasicGroup");
    reveal_strlit("updateSupergroup");
    reveal_strlit("updateAuthorizationState");
}

/// A value decodes only where it is decodable.
pub proof fn lemma_decodes_is_decodable(value: Value)
    ensures
        forall|response: TdLibResponse| #[trigger]
            TdLibResponse::decodes(value, response) ==> TdLibResponse::decodable(value),
{
}

/// The kind of a value fixes the variant that it decodes to: two readings of
/// one value are of the same variant.
pub proof fn lemma_kind_fixes_variant(value: Value, response: TdLibResponse)
    requires
        TdLibResponse::decodes(value, response),
    ensures
        forall|other: TdLibResponse| #[trigger]
            TdLibResponse::decodes(value, other) ==> same_variant(response, other),
{
    lemma_kinds_differ();
}

/// Whether two messages are of the same kind.
pub open spec fn same_variant(a: TdLibResponse, b: TdLibResponse) -> bool {
    match a {
        TdLibResponse::Success => b is Success,
        TdLibResponse::Error { .. } => b is Error,
        TdLibResponse::UpdateAuthorizationState { .. } => b is UpdateAuthorizationState,
        TdLibResponse::UpdateNewChat { .. } => b is UpdateNewChat,
        TdLibResponse::UpdateBasicGroup { .. } => b is UpdateBasicGroup,
        TdLibResponse::UpdateSupergroup { .. } => b is UpdateSupergroup,
        TdLibResponse::UpdateUser { .. } => b is UpdateUser,
        TdLibResponse::Messages { .. } => b is Messages,
    }
}

} // verus!
