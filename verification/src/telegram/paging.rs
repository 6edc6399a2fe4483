//! Retrieval of a large remote collection page by page.
//!
//! A fetcher holds a cursor and the number of items still wanted. The caller
//! asks it for the next request, performs it, and hands back what came: a
//! page, an error of the engine, or a timeout. Only one page is held at a time.

use crate::telegram::messages::Message;
use vstd::string::*;
use vstd::prelude::*;

verus! {

/// The collections that are fetched in pages.
#[derive(Clone, Copy, Debug, PartialEq, Eq, Structural)]
pub enum Collection {
    /// The members of a supergroup.
    SupergroupMembers { supergroup_id: i64 },
    /// The messages of a chat, newest first.
    ChatHistory { chat_id: i64 },
}

/// How far a fetch has come.
#[derive(Clone, Copy, Debug, PartialEq, Eq, Structural)]
pub enum Position {
    /// So many items were taken from the front of the collection.
    Offset(usize),
    /// Everything from this message id on was seen; `None` before the first page.
    Before(Option<i64>),
}

/// The error code with which the engine says that a collection cannot be read.
pub const INACCESSIBLE: i64 = 400;

/// The largest offset that the engine can be asked for.
pub const MAX_OFFSET: usize = 2147483647;

/// The page size for the members of a supergroup.
pub const MEMBERS_PAGE: usize = 200;

/// The page size for the messages of a chat.
pub const HISTORY_PAGE: usize = 100;

/// The time that a page may take, in seconds.
pub const PAGE_TIMEOUT_SECS: u64 = 60;

/// The progress of a fetch: where it stands, and how many more items are
/// wanted (`None`: as many as there are).
#[derive(Clone, Copy, Debug, PartialEq, Eq, Structural)]
pub struct PageCursor {
    pub position: Position,
    pub remaining: Option<usize>,
}

/// What to ask the engine for next.
#[derive(Clone, Copy, Debug, PartialEq, Eq, Structural)]
pub struct PageRequest {
    pub collection: Collection,
    pub position: Position,
    pub limit: usize,
    pub timeout_secs: u64,
}

impl Collection {
    /// How a failure to fetch the collection begins.
    pub open spec fn failure_label(self) -> Seq<char> {
        match self {
            Collection::SupergroupMembers { .. } => "Failed to get chat members"@,
            Collection::ChatHistory { .. } => "Failed to get chat history"@,
        }
    }

    fn failure_text(&self) -> (r: String)
        ensures
            r@ == self.failure_label(),
    {
        match self {
            Collection::SupergroupMembers { .. } => "Failed to get chat members".to_owned(),
            Collection::ChatHistory { .. } => "Failed to get chat history".to_owned(),
        }
    }
}

/// Why a fetch was broken off.
#[derive(Clone, Debug, PartialEq, Eq)]
pub enum PageFailure {
    /// A page did not arrive in time.
    TimedOut,
    /// The engine answered a page request of this collection with an error,
    /// of this code and message.
    Rejected { collection: Collection, code: i64, message: String },
    /// The engine answered a page request of this collection with something
    /// that is neither a page nor an error.
    Unreadable { collection: Collection },
}

pub ghost enum PageFault {
    TimedOut,
    Rejected { collection: Collection, code: i64, message: Seq<char> },
    Unreadable { collection: Collection },
}

impl View for PageFailure {
    type V = PageFault;

    open spec fn view(&self) -> PageFault {
        match self {
            PageFailure::TimedOut => PageFault::TimedOut,
            PageFailure::Rejected { collection, code, message } => PageFault::Rejected {
                collection: *collection,
                code: *code,
                message: message@,
            },
            PageFailure::Unreadable { collection } => PageFault::Unreadable {
                collection: *collection,
            },
        }
    }
}

impl PageFault {
    /// The message that states the failure: for an error of the engine, what
    /// was being fetched and the engine's own message.
    pub open spec fn message(self) -> Seq<char> {
        match self {
            PageFault::TimedOut => "Request timed out"@,
            PageFault::Rejected { collection, message, .. } => collection.failure_label() + ": "@
                + message,
            PageFault::Unreadable { collection } => collection.failure_label()
                + ": unreadable reply"@,
        }
    }
}

impl PageFailure {
    pub fn to_string(&self) -> (r: String)
        ensures
            r@ == self@.message(),
    {
        match self {
            PageFailure::TimedOut => "Request timed out".to_owned(),
            PageFailure::Rejected { collection, message, .. } => collection.failure_text().concat(
                ": ",
            ).concat(message.as_str()),
            PageFailure::Unreadable { collection } => collection.failure_text().concat(
                ": unreadable reply",
            ),
        }
    }
}

/// A fetch as contracts see it.
pub ghost struct FetchView {
    pub collection: Collection,
    pub cursor: PageCursor,
    pub page_cap: usize,
    pub timeout_secs: u64,
    pub finished: bool,
}

/// The smaller of two sizes.
pub open spec fn smaller(a: int, b: int) -> int {
    if a <= b {
        a
    } else {
        b
    }
}

/// The smallest of `ids`, which is not empty.
pub open spec fn least(ids: Seq<i64>) -> i64
    decreases ids.len(),
{
    if ids.len() <= 1 {
        ids[0]
    } else if ids.last() < least(ids.drop_last()) {
        ids.last()
    } else {
        least(ids.drop_last())
    }
}

impl FetchView {
    /// The size of the next page: the page cap, or what is still wanted where
    /// that is less; 0 when the fetch is over.
    pub open spec fn request_size(self) -> int {
        if self.finished {
            0
        } else {
            match self.cursor.remaining {
                Some(r) => smaller(r as int, self.page_cap as int),
                None => self.page_cap as int,
            }
        }
    }

    /// The number of items of a page of `len` items that are handed on: all of
    /// them, but no more than were asked for.
    pub open spec fn taken(self, len: int) -> int {
        smaller(len, self.request_size())
    }

    /// The position after the first `n` items of the page `ids`, `n` not 0.
    pub open spec fn position_after(self, ids: Seq<i64>, n: int) -> Position {
        match self.cursor.position {
            Position::Offset(count) => Position::Offset(
                smaller(count + n, MAX_OFFSET as int) as usize,
            ),
            Position::Before(seen) => {
                let oldest = least(ids.take(n));
                match seen {
                    Some(id) => Position::Before(
                        Some(
                            if oldest < id {
                                oldest
                            } else {
                                id
                            },
                        ),
                    ),
                    None => Position::Before(Some(oldest)),
                }
            },
        }
    }

    /// Whether `next` lies strictly beyond `self.cursor.position`.
    pub open spec fn moved_on(self, next: Position) -> bool {
        match (self.cursor.position, next) {
            (Position::Offset(a), Position::Offset(b)) => a < b,
            (Position::Before(None), Position::Before(Some(_))) => true,
            (Position::Before(Some(a)), Position::Before(Some(b))) => b < a,
            _ => false,
        }
    }

    /// The fetch after a page with the ids `ids` came in.
    ///
    /// An empty page ends the fetch. Otherwise the items taken are counted off
    /// what is still wanted, and the cursor moves past them. The fetch ends as
    /// well where the cursor could not move on.
    pub open spec fn after_page(self, ids: Seq<i64>) -> FetchView {
        let n = self.taken(ids.len() as int);
        if n <= 0 {
            FetchView { finished: true, ..self }
        } else {
            let position = self.position_after(ids, n);
            FetchView {
                cursor: PageCursor {
                    position,
                    remaining: match self.cursor.remaining {
                        Some(r) => Some((r - n) as usize),
                        None => None,
                    },
                },
                finished: !self.moved_on(position),
                ..self
            }
        }
    }
}

/// A lazy, forward-only walk over one remote collection.
#[derive(Debug)]
pub struct PaginatedFetcher {
    collection: Collection,
    cursor: PageCursor,
    page_cap: usize,
    timeout_secs: u64,
    finished: bool,
}

impl View for PaginatedFetcher {
    type V = FetchView;

    closed spec fn view(&self) -> FetchView {
        FetchView {
            collection: self.collection,
            cursor: self.cursor,
            page_cap: self.page_cap,
            timeout_secs: self.timeout_secs,
            finished: self.finished,
        }
    }
}

/// The smallest of the first `n` ids.
fn least_of(ids: &Vec<i64>, n: usize) -> (r: i64)
    requires
        0 < n <= ids@.len(),
    ensures
        r == least(ids@.take(n as int)),
{
    let mut r = ids[0];
    let mut i: usize = 1;
    assert(ids@.take(1).len() == 1);
    while i < n
        invariant
            1 <= i <= n <= ids@.len(),
            r == least(ids@.take(i as int)),
        decreases n - i,
    {
        assert(ids@.take(i + 1).drop_last() =~= ids@.take(i as int));
        if ids[i] < r {
            r = ids[i];
        }
        i = i + 1;
    }
    r
}

impl PaginatedFetcher {
    /// A fetch of `collection` from `position` on, for `limit` items at most
    /// (`None`: all), in pages of `page_cap` items at most.
    pub fn new(
        collection: Collection,
        position: Position,
        limit: Option<usize>,
        page_cap: usize,
        timeout_secs: u64,
    ) -> (r: Self)
        ensures
            r@ == (FetchView {
                collection,
                cursor: PageCursor { position, remaining: limit },
                page_cap,
                timeout_secs,
                finished: false,
            }),
    {
        PaginatedFetcher {
            collection,
            cursor: PageCursor { position, remaining: limit },
            page_cap,
            timeout_secs,
            finished: false,
        }
    }

    /// The collection that is fetched.
    pub fn collection(&self) -> (r: Collection)
        ensures
            r == self@.collection,
    {
        self.collection
    }

    /// Where the fetch stands.
    pub fn cursor(&self) -> (r: PageCursor)
        ensures
            r == self@.cursor,
    {
        self.cursor
    }

    /// Whether the fetch is over: no further page will be asked for.
    pub fn is_finished(&self) -> (r: bool)
        ensures
            r == (self@.request_size() == 0),
    {
        self.page_size() == 0
    }

    fn page_size(&self) -> (n: usize)
        ensures
            n == self@.request_size(),
    {
        if self.finished {
            0
        } else {
            match self.cursor.remaining {
                Some(r) => if r <= self.page_cap {
                    r
                } else {
                    self.page_cap
                },
                None => self.page_cap,
            }
        }
    }

    /// The next page to ask for; `None` when the fetch is over.
    pub fn next_request(&self) -> (r: Option<PageRequest>)
        ensures
            r == (if self@.request_size() == 0 {
                None
            } else {
                Some(
                    PageRequest {
                        collection: self@.collection,
                        position: self@.cursor.position,
                        limit: self@.request_size() as usize,
                        timeout_secs: self@.timeout_secs,
                    },
                )
            }),
    {
        let limit = self.page_size();
        if limit == 0 {
            None
        } else {
            Some(
                PageRequest {
                    collection: self.collection,
                    position: self.cursor.position,
                    limit,
                    timeout_secs: self.timeout_secs,
                },
            )
        }
    }

    /// Takes in a page, given by the ids of its items in the order in which
    /// they came. Returns how many of them, from the front, are handed on.
    pub fn accept_page(&mut self, ids: &Vec<i64>) -> (taken: usize)
        ensures
            taken == old(self)@.taken(ids@.len() as int),
            final(self)@ == old(self)@.after_page(ids@),
    {
        let asked = self.page_size();
        let taken = if ids.len() <= asked {
            ids.len()
        } else {
            asked
        };
        if taken == 0 {
            self.finished = true;
            return 0;
        }
        let position = match self.cursor.position {
            Position::Offset(count) => {
                if count >= MAX_OFFSET || taken >= MAX_OFFSET - count {
                    Position::Offset(MAX_OFFSET)
                } else {
                    Position::Offset(count + taken)
                }
            },
            Position::Before(seen) => {
                let oldest = least_of(ids, taken);
                match seen {
                    Some(id) => Position::Before(
                        Some(
                            if oldest < id {
                                oldest
                            } else {
                                id
                            },
                        ),
                    ),
                    None => Position::Before(Some(oldest)),
                }
            },
        };
        let moved = match (self.cursor.position, position) {
            (Position::Offset(a), Position::Offset(b)) => a < b,
            (Position::Before(None), Position::Before(Some(_))) => true,
            (Position::Before(Some(a)), Position::Before(Some(b))) => b < a,
            _ => false,
        };
        let remaining = match self.cursor.remaining {
            Some(r) => Some(r - taken),
            None => None,
        };
        self.cursor = PageCursor { position, remaining };
        self.finished = !moved;
        taken
    }

    /// Takes in a page of messages, and returns those that are handed on: the
    /// front of the page, in the order in which they came.
    pub fn accept_messages(&mut self, page: Vec<Message>) -> (out: Vec<Message>)
        ensures
            out@ == page@.take(old(self)@.taken(page@.len() as int)),
            final(self)@ == old(self)@.after_page(message_ids(page@)),
    {
        let mut ids: Vec<i64> = Vec::new();
        let mut i: usize = 0;
        while i < page.len()
            invariant
                i <= page@.len(),
                ids@ == message_ids(page@.take(i as int)),
            decreases page@.len() - i,
        {
            ids.push(page[i].id);
            assert(message_ids(page@.take(i + 1)) =~= message_ids(page@.take(i as int)).push(
                page@[i as int].id,
            ));
            i = i + 1;
        }
        assert(page@.take(i as int) =~= page@);
        let taken = self.accept_page(&ids);
        let mut out = page;
        out.truncate(taken);
        assert(out@ =~= page@.take(taken as int));
        out
    }

    /// Takes in the error with which the engine answered a page request. The
    /// fetch is over either way. That the collection is inaccessible is the
    /// end of the sequence and no failure; any other error is one.
    pub fn accept_error(&mut self, code: i64, message: &str) -> (r: Result<(), PageFailure>)
        ensures
            final(self)@ == (FetchView { finished: true, ..old(self)@ }),
            match r {
                Ok(()) => code == INACCESSIBLE,
                Err(e) => code != INACCESSIBLE && e@ == (PageFault::Rejected {
                    collection: old(self)@.collection,
                    code,
                    message: message@,
                }),
            },
    {
        self.finished = true;
        if code == INACCESSIBLE {
            Ok(())
        } else {
            Err(
                PageFailure::Rejected {
                    collection: self.collection,
                    code,
                    message: message.to_owned(),
                },
            )
        }
    }

    /// A page did not arrive in time: the fetch is over, with a failure.
    pub fn accept_timeout(&mut self) -> (r: PageFailure)
        ensures
            final(self)@ == (FetchView { finished: true, ..old(self)@ }),
            r == PageFailure::TimedOut,
    {
        self.finished = true;
        PageFailure::TimedOut
    }

    /// What came for a page is neither a page nor an error: the fetch is over,
    /// with a failure.
    pub fn accept_unreadable(&mut self) -> (r: PageFailure)
        ensures
            final(self)@ == (FetchView { finished: true, ..old(self)@ }),
            r == (PageFailure::Unreadable { collection: old(self)@.collection }),
    {
        self.finished = true;
        PageFailure::Unreadable { collection: self.collection }
    }
}

/// The ids of messages, one for one.
pub open spec fn message_ids(messages: Seq<Message>) -> Seq<i64> {
    messages.map_values(|m: Message| m.id)
}

/// No id of a page lies below the least of them.
pub proof fn lemma_least_is_lower_bound(ids: Seq<i64>, i: int)
    requires
        0 <= i < ids.len(),
    ensures
        least(ids) <= ids[i],
        ids.contains(least(ids)),
    decreases ids.len(),
{
    if ids.len() <= 1 {
        assert(ids[0] == least(ids));
    } else {
        let front = ids.drop_last();
        lemma_least_is_lower_bound(front, 0);
        if i < ids.len() - 1 {
            lemma_least_is_lower_bound(front, i);
        }
        let k = choose|k: int| 0 <= k < front.len() && front[k] == least(front);
        assert(ids[k] == front[k]);
        assert(ids[ids.len() - 1] == ids.last());
    }
}

/// A page is never larger than the cap, nor than what is still wanted.
pub proof fn lemma_page_size_is_bounded(fetch: FetchView)
    ensures
        0 <= fetch.request_size() <= fetch.page_cap,
        fetch.cursor.remaining matches Some(r) ==> fetch.request_size() <= r,
{
}

/// A fetch for no items asks for no page.
pub proof fn lemma_nothing_wanted_nothing_asked(fetch: FetchView)
    requires
        fetch.cursor.remaining == Some(0usize),
    ensures
        fetch.request_size() == 0,
{
}

/// No more items are handed on than are still wanted, and what is handed on is
/// counted off.
pub proof fn lemma_never_more_than_wanted(fetch: FetchView, ids: Seq<i64>)
    ensures
        0 <= fetch.taken(ids.len() as int) <= ids.len(),
        fetch.cursor.remaining matches Some(r) ==> {
            &&& fetch.taken(ids.len() as int) <= r
            &&& fetch.after_page(ids).cursor.remaining == Some(
                (r - fetch.taken(ids.len() as int)) as usize,
            )
        },
{
}

/// With every page the cursor moves strictly on, or the fetch ends: no page is
/// asked for twice.
pub proof fn lemma_cursor_moves_or_fetch_ends(fetch: FetchView, ids: Seq<i64>)
    ensures
        fetch.after_page(ids).request_size() == 0 || fetch.moved_on(
            fetch.after_page(ids).cursor.position,
        ),
{
}

/// The history of a chat is walked towards older messages: after a page, no
/// message that was handed on is older than the one the cursor stands at.
pub proof fn lemma_history_moves_to_older(fetch: FetchView, ids: Seq<i64>, i: int)
    requires
        fetch.cursor.position is Before,
        0 <= i < fetch.taken(ids.len() as int),
    ensures
        fetch.after_page(ids).cursor.position matches Position::Before(Some(seen)) && seen
            <= ids[i],
{
    let n = fetch.taken(ids.len() as int);
    lemma_least_is_lower_bound(ids.take(n), i);
}

/// A fetch that is over stays over, whatever comes in.
pub proof fn lemma_finished_stays_finished(fetch: FetchView, ids: Seq<i64>)
    requires
        fetch.request_size() == 0,
    ensures
        fetch.after_page(ids).request_size() == 0,
{
}

} // verus!
