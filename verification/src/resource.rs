//! Resource identifiers: what a `tg:` URL asks for.
//!
//! Two spellings are taken, `tg://chat/12345/members` and
//! `tg:chat/12345/members`. In the first the URL's host is the first segment;
//! in the second the whole identifier is the path.

use crate::decimal::{i64_of, parse_i64};
use crate::text::text_eq;
use vstd::prelude::*;
use vstd::string::*;

verus! {

/// What a resource identifier names.
#[derive(Clone, Copy, Debug, PartialEq, Eq, Structural)]
pub enum FetchTarget {
    Chats,
    Chat { chat_id: i64 },
    ChatMembers { chat_id: i64 },
    ChatMessages { chat_id: i64 },
    UserInfo { user_id: i64 },
}

impl FetchTarget {
    /// What the target is called in messages to the user.
    pub open spec fn label(self) -> Seq<char> {
        match self {
            FetchTarget::Chats => "chat list"@,
            FetchTarget::Chat { .. } => "chat info"@,
            FetchTarget::ChatMembers { .. } => "chat member list"@,
            FetchTarget::ChatMessages { .. } => "chat message list"@,
            FetchTarget::UserInfo { .. } => "user info"@,
        }
    }

    pub fn to_string(&self) -> (r: String)
        ensures
            r@ == self.label(),
    {
        match self {
            FetchTarget::Chats => "chat list".to_owned(),
            FetchTarget::Chat { .. } => "chat info".to_owned(),
            FetchTarget::ChatMembers { .. } => "chat member list".to_owned(),
            FetchTarget::ChatMessages { .. } => "chat message list".to_owned(),
            FetchTarget::UserInfo { .. } => "user info".to_owned(),
        }
    }
}

/// The parts of a URL that the resource identifiers are read from.
#[derive(Clone, Debug)]
pub struct UrlParts {
    pub scheme: String,
    /// Whether the URL has no `/` after its scheme and colon, so that all of
    /// it is path.
    pub cannot_be_a_base: bool,
    pub host: Option<String>,
    pub path: String,
}

pub ghost struct UrlShape {
    pub scheme: Seq<char>,
    pub cannot_be_a_base: bool,
    pub host: Option<Seq<char>>,
    pub path: Seq<char>,
}

impl View for UrlParts {
    type V = UrlShape;

    open spec fn view(&self) -> UrlShape {
        UrlShape {
            scheme: self.scheme@,
            cannot_be_a_base: self.cannot_be_a_base,
            host: match self.host {
                Some(h) => Some(h@),
                None => None,
            },
            path: self.path@,
        }
    }
}

/// Why a text names no resource.
#[derive(Clone, Debug, PartialEq, Eq)]
pub enum ResourceUrlError {
    /// The text is no URL; `reason` says why.
    InvalidUrl { reason: String },
    /// The URL is of another scheme than `tg`.
    UnknownScheme { scheme: String },
    /// The URL has nothing after its scheme.
    NoPath,
    /// What stands where a chat id belongs is no 64-bit integer.
    InvalidChatId { text: String },
    /// What stands where a user id belongs is no 64-bit integer.
    InvalidUserId { text: String },
    /// The URL is of none of the forms that name a resource.
    Unsupported { url: String },
}

pub ghost enum ResourceUrlFault {
    InvalidUrl { reason: Seq<char> },
    UnknownScheme { scheme: Seq<char> },
    NoPath,
    InvalidChatId { text: Seq<char> },
    InvalidUserId { text: Seq<char> },
    Unsupported { url: Seq<char> },
}

impl View for ResourceUrlError {
    type V = ResourceUrlFault;

    open spec fn view(&self) -> ResourceUrlFault {
        match self {
            ResourceUrlError::InvalidUrl { reason } => ResourceUrlFault::InvalidUrl {
                reason: reason@,
            },
            ResourceUrlError::UnknownScheme { scheme } => ResourceUrlFault::UnknownScheme {
                scheme: scheme@,
            },
            ResourceUrlError::NoPath => ResourceUrlFault::NoPath,
            ResourceUrlError::InvalidChatId { text } => ResourceUrlFault::InvalidChatId {
                text: text@,
            },
            ResourceUrlError::InvalidUserId { text } => ResourceUrlFault::InvalidUserId {
                text: text@,
            },
            ResourceUrlError::Unsupported { url } => ResourceUrlFault::Unsupported { url: url@ },
        }
    }
}

impl ResourceUrlFault {
    /// The message that states the fault.
    pub open spec fn message(self) -> Seq<char> {
        match self {
            ResourceUrlFault::InvalidUrl { reason } => "Invalid URL: "@ + reason,
            ResourceUrlFault::UnknownScheme { scheme } => "Unknown scheme `"@ + scheme
                + "`, expected `tg`"@,
            ResourceUrlFault::NoPath => "Invalid URL: no path"@,
            ResourceUrlFault::InvalidChatId { text } => "Invalid chat ID: "@ + text,
            ResourceUrlFault::InvalidUserId { text } => "Invalid user ID: "@ + text,
            ResourceUrlFault::Unsupported { url } => "Unsupported URL format: "@ + url,
        }
    }
}

impl ResourceUrlError {
    /// The message that states the error.
    pub fn to_string(&self) -> (r: String)
        ensures
            r@ == self@.message(),
    {
        match self {
            ResourceUrlError::InvalidUrl { reason } => "Invalid URL: ".to_owned().concat(
                reason.as_str(),
            ),
            ResourceUrlError::UnknownScheme { scheme } => "Unknown scheme `".to_owned().concat(
                scheme.as_str(),
            ).concat("`, expected `tg`"),
            ResourceUrlError::NoPath => "Invalid URL: no path".to_owned(),
            ResourceUrlError::InvalidChatId { text } => "Invalid chat ID: ".to_owned().concat(
                text.as_str(),
            ),
            ResourceUrlError::InvalidUserId { text } => "Invalid user ID: ".to_owned().concat(
                text.as_str(),
            ),
            ResourceUrlError::Unsupported { url } => "Unsupported URL format: ".to_owned().concat(
                url.as_str(),
            ),
        }
    }
}

/// Where the last run of characters other than `/` begins; the length of `s`
/// where `s` is empty or ends in `/`.
pub open spec fn tail_start(s: Seq<char>) -> int
    decreases s.len(),
{
    if s.len() == 0 || s.last() == '/' {
        s.len() as int
    } else {
        tail_start(s.drop_last())
    }
}

/// The segments of a path: the runs of characters between its slashes that
/// are not empty, in order.
pub open spec fn segments(s: Seq<char>) -> Seq<Seq<char>>
    decreases s.len(),
    via segments_decreases
{
    if s.len() == 0 {
        Seq::empty()
    } else if s.last() == '/' {
        segments(s.drop_last())
    } else {
        segments(s.take(tail_start(s))).push(s.skip(tail_start(s)))
    }
}

#[via_fn]
proof fn segments_decreases(s: Seq<char>) {
    if s.len() > 0 && s.last() != '/' {
        lemma_tail_start_bounds(s);
    }
}

pub proof fn lemma_tail_start_bounds(s: Seq<char>)
    ensures
        0 <= tail_start(s) <= s.len(),
        s.len() > 0 && s.last() != '/' ==> tail_start(s) < s.len(),
        forall|i: int| tail_start(s) <= i < s.len() ==> s[i] != '/',
        tail_start(s) > 0 ==> s[tail_start(s) - 1] == '/',
    decreases s.len(),
{
    if s.len() == 0 || s.last() == '/' {
    } else {
        lemma_tail_start_bounds(s.drop_last());
        assert forall|i: int| tail_start(s) <= i < s.len() implies s[i] != '/' by {
            if i < s.len() - 1 {
                assert(s.drop_last()[i] == s[i]);
            }
        }
        if tail_start(s) > 0 {
            assert(s.drop_last()[tail_start(s) - 1] == s[tail_start(s) - 1]);
        }
    }
}

/// A run without a slash that begins at the start of the text or after a
/// slash is where the last run begins.
proof fn lemma_tail_start_of_run(s: Seq<char>, start: int)
    requires
        0 <= start <= s.len(),
        forall|i: int| start <= i < s.len() ==> s[i] != '/',
        start > 0 ==> s[start - 1] == '/',
    ensures
        tail_start(s) == start,
    decreases s.len() - start,
{
    if start == s.len() {
    } else {
        assert(s.last() != '/');
        let front = s.drop_last();
        assert forall|i: int| start <= i < front.len() implies front[i] != '/' by {
            assert(front[i] == s[i]);
        }
        if start > 0 {
            assert(front[start - 1] == s[start - 1]);
        }
        lemma_tail_start_of_run(front, start);
    }
}

/// Whether a word names the chats.
pub open spec fn names_chats(word: Seq<char>, strict: bool) -> bool {
    word == "chat"@ || (!strict && word == "chats"@)
}

/// Whether a word names the users.
pub open spec fn names_users(word: Seq<char>, strict: bool) -> bool {
    word == "user"@ || (!strict && word == "users"@)
}

/// The chat id that `text` states.
pub open spec fn chat_id_of(text: Seq<char>) -> Result<i64, ResourceUrlFault> {
    match i64_of(text) {
        Some(id) => Ok(id),
        None => Err(ResourceUrlFault::InvalidChatId { text }),
    }
}

/// What the segments of a resource identifier name.
///
/// `chat` alone names the list of chats, `chat/ID` a chat, `chat/ID/members`
/// and `chat/ID/messages` its members and messages, and `user/ID` a user. The
/// plural words `chats` and `users` are taken as well, unless `strict`; the
/// list of chats is no target when `strict`.
pub open spec fn target_of(parts: Seq<Seq<char>>, url: Seq<char>, strict: bool) -> Result<
    FetchTarget,
    ResourceUrlFault,
> {
    if parts.len() == 1 && names_chats(parts[0], strict) && !strict {
        Ok(FetchTarget::Chats)
    } else if parts.len() == 2 && names_chats(parts[0], strict) {
        match chat_id_of(parts[1]) {
            Ok(chat_id) => Ok(FetchTarget::Chat { chat_id }),
            Err(e) => Err(e),
        }
    } else if parts.len() == 3 && names_chats(parts[0], strict) && parts[2] == "members"@ {
        match chat_id_of(parts[1]) {
            Ok(chat_id) => Ok(FetchTarget::ChatMembers { chat_id }),
            Err(e) => Err(e),
        }
    } else if parts.len() == 3 && names_chats(parts[0], strict) && parts[2] == "messages"@ {
        match chat_id_of(parts[1]) {
            Ok(chat_id) => Ok(FetchTarget::ChatMessages { chat_id }),
            Err(e) => Err(e),
        }
    } else if parts.len() == 2 && names_users(parts[0], strict) {
        match i64_of(parts[1]) {
            Some(user_id) => Ok(FetchTarget::UserInfo { user_id }),
            None => Err(ResourceUrlFault::InvalidUserId { text: parts[1] }),
        }
    } else {
        Err(ResourceUrlFault::Unsupported { url })
    }
}

/// The segments of a URL: its host, where it has one, and then the segments
/// of its path.
pub open spec fn url_segments(shape: UrlShape) -> Seq<Seq<char>> {
    if shape.cannot_be_a_base {
        segments(shape.path)
    } else {
        match shape.host {
            Some(host) => seq![host] + segments(shape.path),
            None => segments(shape.path),
        }
    }
}

/// What the URL `url`, whose parts are `shape`, names.
pub open spec fn resource_of(shape: UrlShape, url: Seq<char>, strict: bool) -> Result<
    FetchTarget,
    ResourceUrlFault,
> {
    if shape.scheme != "tg"@ {
        Err(ResourceUrlFault::UnknownScheme { scheme: shape.scheme })
    } else if shape.cannot_be_a_base && shape.path.len() == 0 {
        Err(ResourceUrlFault::NoPath)
    } else {
        target_of(url_segments(shape), url, strict)
    }
}

/// The views of texts, one for one.
pub open spec fn texts(parts: Seq<&str>) -> Seq<Seq<char>> {
    parts.map_values(|p: &str| p@)
}

/// Cuts a path into its segments.
pub fn split_segments<'a>(path: &'a str) -> (parts: Vec<&'a str>)
    ensures
        texts(parts@) == segments(path@),
{
    let n = path.unicode_len();
    let mut parts: Vec<&'a str> = Vec::new();
    let mut start: usize = 0;
    let mut i: usize = 0;
    assert(path@.take(0) =~= Seq::<char>::empty());
    while i < n
        invariant
            n == path@.len(),
            start <= i <= n,
            forall|k: int| start <= k < i ==> path@[k] != '/',
            start > 0 ==> path@[start - 1] == '/',
            texts(parts@) == segments(path@.take(start as int)),
        decreases n - i,
    {
        let c = path.get_char(i);
        if c == '/' {
            let ghost through = path@.take(i + 1);
            assert(through.drop_last() =~= path@.take(i as int));
            assert(through.last() == '/');
            assert(segments(through) == segments(path@.take(i as int)));
            if i > start {
                let piece = path.substring_char(start, i);
                let ghost before = path@.take(i as int);
                proof {
                    assert forall|k: int| start <= k < before.len() implies before[k] != '/' by {
                        assert(before[k] == path@[k]);
                    }
                    lemma_tail_start_of_run(before, start as int);
                    assert(before.take(start as int) =~= path@.take(start as int));
                    assert(before.skip(start as int) =~= path@.subrange(start as int, i as int));
                    assert(before.last() == path@[i - 1]);
                    assert(before.last() != '/');
                    assert(segments(before) == segments(before.take(start as int)).push(
                        before.skip(start as int),
                    ));
                    assert(texts(parts@.push(piece)) =~= texts(parts@).push(piece@));
                }
                parts.push(piece);
            } else {
                assert(path@.take(i as int) =~= path@.take(start as int));
            }
            start = i + 1;
        }
        i = i + 1;
    }
    assert(path@.take(n as int) =~= path@);
    if n > start {
        let piece = path.substring_char(start, n);
        proof {
            lemma_tail_start_of_run(path@, start as int);
            assert(path@.skip(start as int) =~= path@.subrange(start as int, n as int));
            assert(path@.last() != '/');
            assert(texts(parts@.push(piece)) =~= texts(parts@).push(piece@));
        }
        parts.push(piece);
    }
    parts
}

fn read_chat_id(text: &str) -> (r: Result<i64, ResourceUrlError>)
    ensures
        match r {
            Ok(id) => chat_id_of(text@) == Ok::<i64, ResourceUrlFault>(id),
            Err(e) => chat_id_of(text@) == Err::<i64, ResourceUrlFault>(e@),
        },
{
    match parse_i64(text) {
        Some(id) => Ok(id),
        None => Err(ResourceUrlError::InvalidChatId { text: text.to_owned() }),
    }
}

/// Says what the segments of a resource identifier name.
pub fn resolve_segments(parts: &Vec<&str>, url: &str, strict: bool) -> (r: Result<
    FetchTarget,
    ResourceUrlError,
>)
    ensures
        match r {
            Ok(target) => target_of(texts(parts@), url@, strict) == Ok::<
                FetchTarget,
                ResourceUrlFault,
            >(target),
            Err(e) => target_of(texts(parts@), url@, strict) == Err::<
                FetchTarget,
                ResourceUrlFault,
            >(e@),
        },
{
    let n = parts.len();
    let chats = n >= 1 && (text_eq(parts[0], "chat") || (!strict && text_eq(parts[0], "chats")));
    let users = n >= 1 && (text_eq(parts[0], "user") || (!strict && text_eq(parts[0], "users")));
    if n == 1 && chats && !strict {
        Ok(FetchTarget::Chats)
    } else if n == 2 && chats {
        match read_chat_id(parts[1]) {
            Ok(chat_id) => Ok(FetchTarget::Chat { chat_id }),
            Err(e) => Err(e),
        }
    } else if n == 3 && chats && text_eq(parts[2], "members") {
        match read_chat_id(parts[1]) {
            Ok(chat_id) => Ok(FetchTarget::ChatMembers { chat_id }),
            Err(e) => Err(e),
        }
    } else if n == 3 && chats && text_eq(parts[2], "messages") {
        match read_chat_id(parts[1]) {
            Ok(chat_id) => Ok(FetchTarget::ChatMessages { chat_id }),
            Err(e) => Err(e),
        }
    } else if n == 2 && users {
        match parse_i64(parts[1]) {
            Some(user_id) => Ok(FetchTarget::UserInfo { user_id }),
            None => Err(ResourceUrlError::InvalidUserId { text: parts[1].to_owned() }),
        }
    } else {
        Err(ResourceUrlError::Unsupported { url: url.to_owned() })
    }
}

/// Says what a URL names, from its parts.
pub fn resolve_resource(shape: &UrlParts, url: &str, strict: bool) -> (r: Result<
    FetchTarget,
    ResourceUrlError,
>)
    ensures
        match r {
            Ok(target) => resource_of(shape@, url@, strict) == Ok::<FetchTarget, ResourceUrlFault>(
                target,
            ),
            Err(e) => resource_of(shape@, url@, strict) == Err::<FetchTarget, ResourceUrlFault>(
                e@,
            ),
        },
{
    if !text_eq(shape.scheme.as_str(), "tg") {
        return Err(ResourceUrlError::UnknownScheme { scheme: shape.scheme.clone() });
    }
    if shape.cannot_be_a_base && shape.path.as_str().unicode_len() == 0 {
        return Err(ResourceUrlError::NoPath);
    }
    let tail = split_segments(shape.path.as_str());
    let mut parts: Vec<&str> = Vec::new();
    if !shape.cannot_be_a_base {
        match &shape.host {
            Some(host) => {
                parts.push(host.as_str());
            },
            None => {},
        }
    }
    let ghost head = parts@;
    let mut i: usize = 0;
    while i < tail.len()
        invariant
            i <= tail@.len(),
            parts@ == head + tail@.take(i as int),
        decreases tail@.len() - i,
    {
        parts.push(tail[i]);
        assert(tail@.take(i + 1) =~= tail@.take(i as int).push(tail@[i as int]));
        i = i + 1;
    }
    proof {
        assert(tail@.take(i as int) =~= tail@);
        assert(texts(parts@) =~= texts(head) + texts(tail@));
        assert(texts(parts@) =~= url_segments(shape@));
    }
    resolve_segments(&parts, url, strict)
}

/// The parts of the URL that a text denotes, or the reason for which the
/// text is no URL.
pub uninterp spec fn url_anatomy(text: Seq<char>) -> Result<UrlShape, Seq<char>>;

/// `url::Url::parse`, with the accessors `scheme`, `cannot_be_a_base`,
/// `host_str` and `path` of the URL that it returns. The parts, or the text of
/// the parser's error, are a function of the text alone.
#[verifier::external_body]
fn dissect(text: &str) -> (r: Result<UrlParts, String>)
    ensures
        match r {
            Ok(parts) => url_anatomy(text@) == Ok::<UrlShape, Seq<char>>(parts@),
            Err(reason) => url_anatomy(text@) == Err::<UrlShape, Seq<char>>(reason@),
        },
{
    match url::Url::parse(text) {
        Ok(url) => Ok(
            UrlParts {
                scheme: url.scheme().to_string(),
                cannot_be_a_base: url.cannot_be_a_base(),
                host: url.host_str().map(String::from),
                path: url.path().to_string(),
            },
        ),
        Err(e) => Err(e.to_string()),
    }
}

/// What `url` names, where the parts of `url` are `anatomy`.
pub open spec fn resource_named(
    anatomy: Result<UrlShape, Seq<char>>,
    url: Seq<char>,
    strict: bool,
) -> Result<FetchTarget, ResourceUrlFault> {
    match anatomy {
        Ok(shape) => resource_of(shape, url, strict),
        Err(reason) => Err(ResourceUrlFault::InvalidUrl { reason }),
    }
}

fn parse_url(url_str: &str, strict: bool) -> (r: Result<FetchTarget, ResourceUrlError>)
    ensures
        match r {
            Ok(target) => resource_named(url_anatomy(url_str@), url_str@, strict) == Ok::<
                FetchTarget,
                ResourceUrlFault,
            >(target),
            Err(e) => resource_named(url_anatomy(url_str@), url_str@, strict) == Err::<
                FetchTarget,
                ResourceUrlFault,
            >(e@),
        },
{
    match dissect(url_str) {
        Ok(shape) => resolve_resource(&shape, url_str, strict),
        Err(reason) => Err(ResourceUrlError::InvalidUrl { reason }),
    }
}

/// Reads a resource identifier. Both `chat` and `chats`, `user` and `users`
/// are taken.
pub fn parse_resource_url(url_str: &str) -> (r: Result<FetchTarget, ResourceUrlError>)
    ensures
        match r {
            Ok(target) => resource_named(url_anatomy(url_str@), url_str@, false) == Ok::<
                FetchTarget,
                ResourceUrlFault,
            >(target),
            Err(e) => resource_named(url_anatomy(url_str@), url_str@, false) == Err::<
                FetchTarget,
                ResourceUrlFault,
            >(e@),
        },
{
    parse_url(url_str, false)
}

/// Reads a resource identifier in its strict form: `chat` and `user` only,
/// and always with an id.
pub fn parse_fetch_url(url_str: &str) -> (r: Result<FetchTarget, ResourceUrlError>)
    ensures
        match r {
            Ok(target) => resource_named(url_anatomy(url_str@), url_str@, true) == Ok::<
                FetchTarget,
                ResourceUrlFault,
            >(target),
            Err(e) => resource_named(url_anatomy(url_str@), url_str@, true) == Err::<
                FetchTarget,
                ResourceUrlFault,
            >(e@),
        },
{
    parse_url(url_str, true)
}

} // verus!
