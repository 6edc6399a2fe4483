//! Requests as the engine takes them: flat JSON objects.
//!
//! The member `@type` names the kind of a request and `@extra` carries its
//! correlation id in decimal, which the engine hands back with the response.

use crate::decimal::{decimal_text, lemma_decimal_round_trip, render_u64};
use crate::json::{
    empty_object, flag_value, integer_value, json_flag, json_integer, json_is_object,
    json_members, json_rendering, json_text, no_members, set_member, text_value, to_text,
};
use crate::telegram::poller::correlation_id;
use crate::telegram::requests::{ChatList, EngineParameters, Request};
use serde_json::Value;
use vstd::prelude::*;
use vstd::string::*;

verus! {

/// What a member of a request holds.
pub ghost enum FieldShape {
    /// A string.
    Text(Seq<char>),
    /// An integer.
    Integer(i64),
    /// A truth value.
    Flag(bool),
    /// An object that has a kind and nothing else.
    Kind(Seq<char>),
    /// The object that names a user as the sender of messages.
    Sender(i64),
}

/// A member of a request: its name, and what it holds.
pub ghost struct Field {
    pub name: Seq<char>,
    pub shape: FieldShape,
}

/// The members of an object that was filled with `entries`, one after another.
pub open spec fn object_of(entries: Seq<(Seq<char>, Value)>) -> Map<Seq<char>, Value>
    decreases entries.len(),
{
    if entries.len() == 0 {
        Map::empty()
    } else {
        object_of(entries.drop_last()).insert(entries.last().0, entries.last().1)
    }
}

/// Whether a value holds what `shape` says.
pub open spec fn holds(value: Value, shape: FieldShape) -> bool {
    match shape {
        FieldShape::Text(text) => json_text(value) == Some(text),
        FieldShape::Integer(n) => json_integer(value) == Some(n),
        FieldShape::Flag(flag) => json_flag(value) == Some(flag),
        FieldShape::Kind(name) => {
            &&& json_is_object(value)
            &&& exists|kind: Value|
                json_text(kind) == Some(name) && json_members(value) == object_of(
                    seq![("@type"@, kind)],
                )
        },
        FieldShape::Sender(user_id) => {
            &&& json_is_object(value)
            &&& exists|kind: Value, user: Value|
                json_text(kind) == Some("messageSenderUser"@) && json_integer(user) == Some(
                    user_id,
                ) && json_members(value) == object_of(seq![("user_id"@, user), ("@type"@, kind)])
        },
    }
}

/// Whether `entries` are members as `fields` lays them out: as many, with the
/// same names in the same order, each holding what its field says.
pub open spec fn laid_out(entries: Seq<(Seq<char>, Value)>, fields: Seq<Field>) -> bool {
    &&& entries.len() == fields.len()
    &&& forall|i: int|
        0 <= i < entries.len() ==> (#[trigger] entries[i]).0 == fields[i].name && holds(
            entries[i].1,
            fields[i].shape,
        )
}

/// Whether `value` is the object with the members `fields`.
pub open spec fn is_object_of(value: Value, fields: Seq<Field>) -> bool {
    &&& json_is_object(value)
    &&& exists|entries: Seq<(Seq<char>, Value)>|
        laid_out(entries, fields) && json_members(value) == object_of(entries)
}

/// The name under which the engine knows a chat list.
pub open spec fn chat_list_name(list: ChatList) -> Seq<char> {
    match list {
        ChatList::Main => "chatListMain"@,
        ChatList::Archive => "chatListArchive"@,
    }
}

pub open spec fn text_field(name: Seq<char>, text: Seq<char>) -> Field {
    Field { name, shape: FieldShape::Text(text) }
}

pub open spec fn integer_field(name: Seq<char>, n: i64) -> Field {
    Field { name, shape: FieldShape::Integer(n) }
}

pub open spec fn flag_field(name: Seq<char>, flag: bool) -> Field {
    Field { name, shape: FieldShape::Flag(flag) }
}

/// The name under which the engine knows a request.
pub open spec fn kind_name(request: Request) -> Seq<char> {
    match request {
        Request::SetTdlibParameters { .. } => "setTdlibParameters"@,
        Request::SetAuthenticationPhoneNumber { .. } => "setAuthenticationPhoneNumber"@,
        Request::CheckAuthenticationCode { .. } => "checkAuthenticationCode"@,
        Request::CheckAuthenticationPassword { .. } => "checkAuthenticationPassword"@,
        Request::LoadChats { .. } => "loadChats"@,
        Request::GetBasicGroupFullInfo { .. } => "getBasicGroupFullInfo"@,
        Request::GetSupergroupMembers { .. } => "getSupergroupMembers"@,
        Request::GetChatMember { .. } => "getChatMember"@,
        Request::GetUser { .. } => "getUser"@,
        Request::GetChatHistory { .. } => "getChatHistory"@,
    }
}

/// The members in which the parameters of the engine are handed over.
pub open spec fn parameter_fields(p: EngineParameters) -> Seq<Field> {
    seq![
        flag_field("use_test_dc"@, p.use_test_dc),
        text_field("database_directory"@, p.database_directory@),
        text_field("files_directory"@, p.files_directory@),
        text_field("database_encryption_key"@, p.database_encryption_key@),
        flag_field("use_file_database"@, p.use_file_database),
        flag_field("use_chat_info_database"@, p.use_chat_info_database),
        flag_field("use_message_database"@, p.use_message_database),
        flag_field("use_secret_chats"@, p.use_secret_chats),
        integer_field("api_id"@, p.api_id as i64),
        text_field("api_hash"@, p.api_hash@),
        text_field("system_language_code"@, p.system_language_code@),
        text_field("device_model"@, p.device_model@),
        text_field("system_version"@, p.system_version@),
        text_field("application_version"@, p.application_version@),
    ]
}

/// The members that a request has of its own.
pub open spec fn own_fields(request: Request) -> Seq<Field> {
    match request {
        Request::SetTdlibParameters { parameters } => parameter_fields(parameters),
        Request::SetAuthenticationPhoneNumber { phone_number } => seq![
            text_field("phone_number"@, phone_number@),
        ],
        Request::CheckAuthenticationCode { code } => seq![text_field("code"@, code@)],
        Request::CheckAuthenticationPassword { password } => seq![
            text_field("password"@, password@),
        ],
        Request::LoadChats { chat_list, limit } => seq![
            Field { name: "chat_list"@, shape: FieldShape::Kind(chat_list_name(chat_list)) },
            integer_field("limit"@, limit as i64),
        ],
        Request::GetBasicGroupFullInfo { basic_group_id } => seq![
            integer_field("basic_group_id"@, basic_group_id),
        ],
        Request::GetSupergroupMembers { supergroup_id, offset, limit } => seq![
            integer_field("supergroup_id"@, supergroup_id),
            integer_field("offset"@, offset as i64),
            integer_field("limit"@, limit as i64),
        ],
        Request::GetChatMember { chat_id, user_id } => seq![
            integer_field("chat_id"@, chat_id),
            Field { name: "member_id"@, shape: FieldShape::Sender(user_id) },
        ],
        Request::GetUser { user_id } => seq![integer_field("user_id"@, user_id)],
        Request::GetChatHistory { chat_id, from_message_id, offset, limit, only_local } => seq![
            integer_field("chat_id"@, chat_id),
            integer_field("from_message_id"@, from_message_id),
            integer_field("offset"@, offset as i64),
            integer_field("limit"@, limit as i64),
            flag_field("only_local"@, only_local),
        ],
    }
}

/// All members of a request that goes out under the correlation id `id`: its
/// own, then its kind, then the id as its tag.
pub open spec fn wire_fields(request: Request, id: u64) -> Seq<Field> {
    own_fields(request).push(text_field("@type"@, kind_name(request))).push(
        text_field("@extra"@, decimal_text(id as int)),
    )
}

/// An object that is being filled.
struct ObjectWriter {
    value: Value,
    entries: Ghost<Seq<(Seq<char>, Value)>>,
}

impl ObjectWriter {
    spec fn wf(&self) -> bool {
        &&& json_is_object(self.value)
        &&& json_members(self.value) == object_of(self.entries@)
    }

    fn new() -> (r: Self)
        ensures
            r.wf(),
            laid_out(r.entries@, Seq::<Field>::empty()),
    {
        ObjectWriter { value: empty_object(), entries: Ghost(Seq::empty()) }
    }

    fn put(&mut self, key: &str, member: Value, Ghost(fields): Ghost<Seq<Field>>, Ghost(
        shape,
    ): Ghost<FieldShape>)
        requires
            old(self).wf(),
            laid_out(old(self).entries@, fields),
            holds(member, shape),
        ensures
            final(self).wf(),
            laid_out(final(self).entries@, fields.push(Field { name: key@, shape })),
    {
        set_member(&mut self.value, key, member);
        proof {
            let before = self.entries@;
            let after = before.push((key@, member));
            assert(after.drop_last() =~= before);
            self.entries = Ghost(after);
            assert forall|i: int| 0 <= i < after.len() implies (#[trigger] after[i]).0
                == fields.push(Field { name: key@, shape })[i].name && holds(
                after[i].1,
                fields.push(Field { name: key@, shape })[i].shape,
            ) by {
                if i < before.len() {
                    assert(after[i] == before[i]);
                }
            }
        }
    }

    fn put_text(&mut self, key: &str, text: &str, Ghost(fields): Ghost<Seq<Field>>)
        requires
            old(self).wf(),
            laid_out(old(self).entries@, fields),
        ensures
            final(self).wf(),
            laid_out(final(self).entries@, fields.push(text_field(key@, text@))),
    {
        self.put(key, text_value(text), Ghost(fields), Ghost(FieldShape::Text(text@)));
    }

    fn put_integer(&mut self, key: &str, n: i64, Ghost(fields): Ghost<Seq<Field>>)
        requires
            old(self).wf(),
            laid_out(old(self).entries@, fields),
        ensures
            final(self).wf(),
            laid_out(final(self).entries@, fields.push(integer_field(key@, n))),
    {
        self.put(key, integer_value(n), Ghost(fields), Ghost(FieldShape::Integer(n)));
    }

    fn put_flag(&mut self, key: &str, flag: bool, Ghost(fields): Ghost<Seq<Field>>)
        requires
            old(self).wf(),
            laid_out(old(self).entries@, fields),
        ensures
            final(self).wf(),
            laid_out(final(self).entries@, fields.push(flag_field(key@, flag))),
    {
        self.put(key, flag_value(flag), Ghost(fields), Ghost(FieldShape::Flag(flag)));
    }

    fn finish(self, Ghost(fields): Ghost<Seq<Field>>) -> (r: Value)
        requires
            self.wf(),
            laid_out(self.entries@, fields),
        ensures
            is_object_of(r, fields),
    {
        self.value
    }
}

/// The object that has the kind `name` and nothing else.
fn kind_object(name: &str) -> (r: Value)
    ensures
        holds(r, FieldShape::Kind(name@)),
{
    let mut object = empty_object();
    let kind = text_value(name);
    set_member(&mut object, "@type", kind);
    proof {
        let entries = seq![("@type"@, kind)];
        assert(entries.drop_last() =~= Seq::<(Seq<char>, Value)>::empty());
        assert(object_of(entries.drop_last()) == no_members());
        assert(entries.last() == ("@type"@, kind));
        assert(json_members(object) == object_of(entries));
    }
    object
}

/// The object that names the user `user_id` as a sender.
fn sender_object(user_id: i64) -> (r: Value)
    ensures
        holds(r, FieldShape::Sender(user_id)),
{
    let mut object = empty_object();
    let user = integer_value(user_id);
    let kind = text_value("messageSenderUser");
    set_member(&mut object, "user_id", user);
    set_member(&mut object, "@type", kind);
    proof {
        let entries = seq![("user_id"@, user), ("@type"@, kind)];
        let first = entries.drop_last();
        assert(first =~= seq![("user_id"@, user)]);
        assert(first.drop_last() =~= Seq::<(Seq<char>, Value)>::empty());
        assert(object_of(first.drop_last()) == no_members());
        assert(first.last() == ("user_id"@, user));
        assert(object_of(first) == no_members().insert("user_id"@, user));
        assert(entries.last() == ("@type"@, kind));
        assert(json_members(object) == object_of(entries));
    }
    object
}

impl Request {
    /// The request as the engine takes it, with the correlation id `id` as its tag.
    pub fn encode(&self, id: u64) -> (r: Value)
        ensures
            is_object_of(r, wire_fields(*self, id)),
            correlation_id(r) == Some(id),
    {
        let mut w = ObjectWriter::new();
        let ghost mut f: Seq<Field> = Seq::empty();
        match self {
            Request::SetTdlibParameters { parameters } => {
                w.put_flag("use_test_dc", parameters.use_test_dc, Ghost(f));
                proof { f = f.push(flag_field("use_test_dc"@, parameters.use_test_dc)); }
                w.put_text("database_directory", parameters.database_directory.as_str(), Ghost(f));
                proof { f = f.push(text_field("database_directory"@, parameters.database_directory@)); }
                w.put_text("files_directory", parameters.files_directory.as_str(), Ghost(f));
                proof { f = f.push(text_field("files_directory"@, parameters.files_directory@)); }
                w.put_text(
                    "database_encryption_key",
                    parameters.database_encryption_key.as_str(),
                    Ghost(f),
                );
                proof {
                    f = f.push(
                        text_field("database_encryption_key"@, parameters.database_encryption_key@),
                    );
                }
                w.put_flag("use_file_database", parameters.use_file_database, Ghost(f));
                proof { f = f.push(flag_field("use_file_database"@, parameters.use_file_database)); }
                w.put_flag("use_chat_info_database", parameters.use_chat_info_database, Ghost(f));
                proof {
                    f = f.push(
                        flag_field("use_chat_info_database"@, parameters.use_chat_info_database),
                    );
                }
                w.put_flag("use_message_database", parameters.use_message_database, Ghost(f));
                proof {
                    f = f.push(flag_field("use_message_database"@, parameters.use_message_database));
                }
                w.put_flag("use_secret_chats", parameters.use_secret_chats, Ghost(f));
                proof { f = f.push(flag_field("use_secret_chats"@, parameters.use_secret_chats)); }
                w.put_integer("api_id", parameters.api_id as i64, Ghost(f));
                proof { f = f.push(integer_field("api_id"@, parameters.api_id as i64)); }
                w.put_text("api_hash", parameters.api_hash.as_str(), Ghost(f));
                proof { f = f.push(text_field("api_hash"@, parameters.api_hash@)); }
                w.put_text("system_language_code", parameters.system_language_code.as_str(), Ghost(f));
                proof {
                    f = f.push(text_field("system_language_code"@, parameters.system_language_code@));
                }
                w.put_text("device_model", parameters.device_model.as_str(), Ghost(f));
                proof { f = f.push(text_field("device_model"@, parameters.device_model@)); }
                w.put_text("system_version", parameters.system_version.as_str(), Ghost(f));
                proof { f = f.push(text_field("system_version"@, parameters.system_version@)); }
                w.put_text("application_version", parameters.application_version.as_str(), Ghost(f));
                proof {
                    f = f.push(text_field("application_version"@, parameters.application_version@));
                }
            },
            Request::SetAuthenticationPhoneNumber { phone_number } => {
                w.put_text("phone_number", phone_number.as_str(), Ghost(f));
                proof { f = f.push(text_field("phone_number"@, phone_number@)); }
            },
            Request::CheckAuthenticationCode { code } => {
                w.put_text("code", code.as_str(), Ghost(f));
                proof { f = f.push(text_field("code"@, code@)); }
            },
            Request::CheckAuthenticationPassword { password } => {
                w.put_text("password", password.as_str(), Ghost(f));
                proof { f = f.push(text_field("password"@, password@)); }
            },
            Request::LoadChats { chat_list, limit } => {
                let list = match chat_list {
                    ChatList::Main => kind_object("chatListMain"),
                    ChatList::Archive => kind_object("chatListArchive"),
                };
                w.put(
                    "chat_list",
                    list,
                    Ghost(f),
                    Ghost(FieldShape::Kind(chat_list_name(*chat_list))),
                );
                proof {
                    f = f.push(
                        Field {
                            name: "chat_list"@,
                            shape: FieldShape::Kind(chat_list_name(*chat_list)),
                        },
                    );
                }
                w.put_integer("limit", *limit as i64, Ghost(f));
                proof { f = f.push(integer_field("limit"@, *limit as i64)); }
            },
            Request::GetBasicGroupFullInfo { basic_group_id } => {
                w.put_integer("basic_group_id", *basic_group_id, Ghost(f));
                proof { f = f.push(integer_field("basic_group_id"@, *basic_group_id)); }
            },
            Request::GetSupergroupMembers { supergroup_id, offset, limit } => {
                w.put_integer("supergroup_id", *supergroup_id, Ghost(f));
                proof { f = f.push(integer_field("supergroup_id"@, *supergroup_id)); }
                w.put_integer("offset", *offset as i64, Ghost(f));
                proof { f = f.push(integer_field("offset"@, *offset as i64)); }
                w.put_integer("limit", *limit as i64, Ghost(f));
                proof { f = f.push(integer_field("limit"@, *limit as i64)); }
            },
            Request::GetChatMember { chat_id, user_id } => {
                w.put_integer("chat_id", *chat_id, Ghost(f));
                proof { f = f.push(integer_field("chat_id"@, *chat_id)); }
                w.put("member_id", sender_object(*user_id), Ghost(f), Ghost(FieldShape::Sender(*user_id)));
                proof {
                    f = f.push(Field { name: "member_id"@, shape: FieldShape::Sender(*user_id) });
                }
            },
            Request::GetUser { user_id } => {
                w.put_integer("user_id", *user_id, Ghost(f));
                proof { f = f.push(integer_field("user_id"@, *user_id)); }
            },
            Request::GetChatHistory { chat_id, from_message_id, offset, limit, only_local } => {
                w.put_integer("chat_id", *chat_id, Ghost(f));
                proof { f = f.push(integer_field("chat_id"@, *chat_id)); }
                w.put_integer("from_message_id", *from_message_id, Ghost(f));
                proof { f = f.push(integer_field("from_message_id"@, *from_message_id)); }
                w.put_integer("offset", *offset as i64, Ghost(f));
                proof { f = f.push(integer_field("offset"@, *offset as i64)); }
                w.put_integer("limit", *limit as i64, Ghost(f));
                proof { f = f.push(integer_field("limit"@, *limit as i64)); }
                w.put_flag("only_local", *only_local, Ghost(f));
                proof { f = f.push(flag_field("only_local"@, *only_local)); }
            },
        }
        assert(f =~= own_fields(*self));
        let name = self.kind();
        w.put_text("@type", name, Ghost(f));
        proof { f = f.push(text_field("@type"@, name@)); }
        let tag = render_u64(id);
        w.put_text("@extra", tag.as_str(), Ghost(f));
        proof { f = f.push(text_field("@extra"@, tag@)); }
        let r = w.finish(Ghost(f));
        proof {
            lemma_tag_is_read_back(r, *self, id);
        }
        r
    }

    /// The name under which the engine knows the request.
    pub fn kind(&self) -> (r: &'static str)
        ensures
            r@ == kind_name(*self),
    {
        match self {
            Request::SetTdlibParameters { .. } => "setTdlibParameters",
            Request::SetAuthenticationPhoneNumber { .. } => "setAuthenticationPhoneNumber",
            Request::CheckAuthenticationCode { .. } => "checkAuthenticationCode",
            Request::CheckAuthenticationPassword { .. } => "checkAuthenticationPassword",
            Request::LoadChats { .. } => "loadChats",
            Request::GetBasicGroupFullInfo { .. } => "getBasicGroupFullInfo",
            Request::GetSupergroupMembers { .. } => "getSupergroupMembers",
            Request::GetChatMember { .. } => "getChatMember",
            Request::GetUser { .. } => "getUser",
            Request::GetChatHistory { .. } => "getChatHistory",
        }
    }

    /// The request as the text that is sent, with the correlation id `id` as its tag.
    pub fn to_wire(&self, id: u64) -> (r: String)
        ensures
            exists|value: Value|
                is_object_of(value, wire_fields(*self, id)) && r@ == json_rendering(value),
    {
        to_text(&self.encode(id))
    }
}

/// The tag of a request that went out is read back as the id under which it
/// went: the response that echoes it is routed to the caller of that request.
pub proof fn lemma_tag_is_read_back(value: Value, request: Request, id: u64)
    requires
        is_object_of(value, wire_fields(request, id)),
    ensures
        correlation_id(value) == Some(id),
{
    let fields = wire_fields(request, id);
    let entries = choose|entries: Seq<(Seq<char>, Value)>|
        laid_out(entries, fields) && json_members(value) == object_of(entries);
    let last = entries.last();
    assert(entries[entries.len() - 1] == last);
    assert(last.0 == "@extra"@);
    assert(json_text(last.1) == Some(decimal_text(id as int)));
    assert(json_members(value)["@extra"@] == last.1);
    lemma_decimal_round_trip(id as int);
}

} // verus!
