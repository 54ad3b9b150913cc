//! The ordered list of past exchanges, newest first, and how it follows the
//! remote store.

use crate::record::{draft_item, draft_of, Exchange, ExchangeView, HistoryItem, HistoryItemView};
use crate::request::{
    append_request, delete_request, load_request, Remote, Request, RequestView,
};
use crate::session::{Session, SessionView};
use crate::status::{is_success, succeeds};
use crate::text::str_eq;
use vstd::prelude::*;

verus! {

/// The most records that the list holds.
pub const HISTORY_LIMIT: usize = 100;

/// The first [`HISTORY_LIMIT`] of `items`.
pub open spec fn capped(items: Seq<HistoryItemView>) -> Seq<HistoryItemView> {
    if items.len() <= HISTORY_LIMIT {
        items
    } else {
        items.take(HISTORY_LIMIT as int)
    }
}

/// `items` with `item` put in front, cut back to the limit at the far end.
pub open spec fn with_newest(
    items: Seq<HistoryItemView>,
    item: HistoryItemView,
) -> Seq<HistoryItemView> {
    capped(seq![item] + items)
}

/// Whether some record of `items` has the identifier `id`.
pub open spec fn mentions(items: Seq<HistoryItemView>, id: Seq<char>) -> bool {
    exists|at: int| 0 <= at < items.len() && items[at].id == Some(id)
}

/// Whether the record at `at` is the first of `items` with the identifier
/// `id`.
pub open spec fn is_first_match(items: Seq<HistoryItemView>, id: Seq<char>, at: int) -> bool {
    &&& 0 <= at < items.len()
    &&& items[at].id == Some(id)
    &&& forall|before: int| 0 <= before < at ==> items[before].id != Some(id)
}

/// Where the first record with the identifier `id` stands in `items`.
pub open spec fn first_match(items: Seq<HistoryItemView>, id: Seq<char>) -> int {
    choose|at: int| is_first_match(items, id, at)
}

/// `items` without the first record that has the identifier `id`; all of
/// `items` where there is none.
pub open spec fn without_first(items: Seq<HistoryItemView>, id: Seq<char>) -> Seq<
    HistoryItemView,
> {
    if mentions(items, id) {
        items.remove(first_match(items, id))
    } else {
        items
    }
}

/// What the remote store said to a request.
#[derive(Debug, PartialEq, Eq)]
pub enum StoreReply {
    /// The exchange with the store did not complete.
    Unreachable,
    /// The store answered with a status code. `items` holds the records of
    /// its body, where the body could be read as a list of records.
    Answered { status: u16, items: Option<Vec<HistoryItem>> },
}

impl StoreReply {
    /// Whether the store carried the request out.
    pub open spec fn succeeded(self) -> bool {
        self matches StoreReply::Answered { status, .. } && succeeds(status)
    }

    /// The records that the store sent back on success.
    pub open spec fn returned(self) -> Option<Seq<HistoryItemView>> {
        match self {
            StoreReply::Answered { status, items: Some(items) } => if succeeds(status) {
                Some(items.deep_view())
            } else {
                None
            },
            _ => None,
        }
    }

    /// The record that the store sent back for an upload: the last of those
    /// it returned.
    pub open spec fn saved(self) -> Option<HistoryItemView> {
        match self.returned() {
            Some(items) => if items.len() > 0 {
                Some(items.last())
            } else {
                None
            },
            None => None,
        }
    }
}

/// The list after the answer to a request for the stored records: what the
/// store sent, up to the limit, or the list as it was.
pub open spec fn loaded(items: Seq<HistoryItemView>, reply: StoreReply) -> Seq<HistoryItemView> {
    match reply.returned() {
        Some(sent) => capped(sent),
        None => items,
    }
}

/// The list after the answer to an upload: with the record that the store
/// sent back in front, or the list as it was.
pub open spec fn appended(items: Seq<HistoryItemView>, reply: StoreReply) -> Seq<
    HistoryItemView,
> {
    match reply.saved() {
        Some(item) => with_newest(items, item),
        None => items,
    }
}

/// Whether the answer to a request to delete the record `id` lets the
/// record leave the list: the store carried the request out, and the
/// identifier is not empty.
pub open spec fn delete_applies(id: Seq<char>, reply: StoreReply) -> bool {
    reply.succeeded() && id.len() > 0
}

/// The list after the answer to a request to delete the record `id`.
pub open spec fn deleted(
    items: Seq<HistoryItemView>,
    id: Seq<char>,
    reply: StoreReply,
) -> Seq<HistoryItemView> {
    if delete_applies(id, reply) {
        without_first(items, id)
    } else {
        items
    }
}

/// The past exchanges of the signed-in user, newest first, never more than
/// [`HISTORY_LIMIT`] of them.
#[derive(Debug)]
pub struct History {
    items: Vec<HistoryItem>,
}

impl View for History {
    type V = Seq<HistoryItemView>;

    closed spec fn view(&self) -> Seq<HistoryItemView> {
        self.items.deep_view()
    }
}

impl History {
    #[verifier::type_invariant]
    spec fn within_limit(self) -> bool {
        self.items.len() <= HISTORY_LIMIT
    }

    /// The empty history.
    pub fn new() -> (history: History)
        ensures
            history@ == Seq::<HistoryItemView>::empty(),
    {
        let history = History { items: Vec::new() };
        assert(history@ =~= Seq::<HistoryItemView>::empty());
        history
    }

    /// How many records the history holds.
    pub fn len(&self) -> (len: usize)
        ensures
            len == self@.len(),
            len <= HISTORY_LIMIT,
    {
        proof {
            use_type_invariant(self);
        }
        self.items.len()
    }

    /// Whether the history holds no record.
    pub fn is_empty(&self) -> (empty: bool)
        ensures
            empty == (self@.len() == 0),
    {
        self.items.len() == 0
    }

    /// The record at `index`, counted from the newest.
    pub fn get(&self, index: usize) -> (item: Option<&HistoryItem>)
        ensures
            item.deep_view() == if index < self@.len() {
                Some(self@[index as int])
            } else {
                None
            },
    {
        if index < self.items.len() {
            Some(&self.items[index])
        } else {
            None
        }
    }

    /// All records, newest first.
    pub fn items(&self) -> (items: &Vec<HistoryItem>)
        ensures
            items.deep_view() == self@,
            items.len() <= HISTORY_LIMIT,
    {
        proof {
            use_type_invariant(self);
        }
        &self.items
    }

    /// Hands out the records and leaves the list empty.
    fn take_items(&mut self) -> (items: Vec<HistoryItem>)
        ensures
            items.deep_view() == old(self)@,
            items.len() <= HISTORY_LIMIT,
            final(self)@ == Seq::<HistoryItemView>::empty(),
    {
        proof {
            use_type_invariant(&*self);
        }
        let mut taken = History::new();
        core::mem::swap(self, &mut taken);
        taken.items
    }

    /// Forgets every record.
    pub fn clear(&mut self)
        ensures
            final(self)@ == Seq::<HistoryItemView>::empty(),
    {
        let _ = self.take_items();
    }

    /// Takes over the records of the remote store, in its order, up to the
    /// limit.
    pub fn replace_all(&mut self, items: Vec<HistoryItem>)
        ensures
            final(self)@ == capped(items.deep_view()),
            final(self)@.len() <= HISTORY_LIMIT,
    {
        let mut items = items;
        let ghost given = items.deep_view();
        if items.len() > HISTORY_LIMIT {
            items.truncate(HISTORY_LIMIT);
        }
        assert(items.deep_view() =~= capped(given));
        self.items = items;
    }

    /// Puts a record in front of all others. At the limit the oldest record
    /// leaves.
    pub fn insert_newest(&mut self, item: HistoryItem)
        ensures
            final(self)@ == with_newest(old(self)@, item@),
            final(self)@.len() <= HISTORY_LIMIT,
    {
        let ghost before = self@;
        let mut items = self.take_items();
        if items.len() >= HISTORY_LIMIT {
            items.truncate(HISTORY_LIMIT - 1);
        }
        items.insert(0, item);
        assert(items.deep_view() =~= with_newest(before, item@));
        self.items = items;
    }

    /// Where the first record with the identifier `id` stands.
    pub fn position_of(&self, id: &str) -> (found: Option<usize>)
        ensures
            found is Some == mentions(self@, id@),
            found matches Some(at) ==> is_first_match(self@, id@, at as int),
    {
        let mut at: usize = 0;
        while at < self.items.len()
            invariant
                at <= self.items.len(),
                forall|before: int| 0 <= before < at ==> self@[before].id != Some(id@),
            decreases self.items.len() - at,
        {
            let same = match &self.items[at].id {
                Some(own) => str_eq(own.as_str(), id),
                None => false,
            };
            if same {
                assert(self@[at as int].id == Some(id@));
                return Some(at);
            }
            at += 1;
        }
        None
    }

    /// Removes the first record with the identifier `id`, and says whether
    /// there was one. The others keep their order.
    pub fn remove_by_id(&mut self, id: &str) -> (removed: bool)
        ensures
            removed == mentions(old(self)@, id@),
            final(self)@ == without_first(old(self)@, id@),
            final(self)@.len() <= HISTORY_LIMIT,
    {
        proof {
            use_type_invariant(&*self);
        }
        match self.position_of(id) {
            Some(at) => {
                let ghost before = self@;
                let mut items = self.take_items();
                items.remove(at);
                assert(items.deep_view() =~= before.remove(at as int));
                proof {
                    lemma_first_match_unique(before, id@, at as int);
                }
                self.items = items;
                true
            },
            None => false,
        }
    }

    /// Takes in the answer to a request for the stored records. Any answer
    /// but a successful one with readable records leaves the list as it was.
    /// Says whether the list now holds what the store sent.
    pub fn finish_load(&mut self, reply: StoreReply) -> (done: bool)
        ensures
            done == reply.returned() is Some,
            final(self)@ == loaded(old(self)@, reply),
            final(self)@.len() <= HISTORY_LIMIT,
    {
        proof {
            use_type_invariant(&*self);
        }
        match reply {
            StoreReply::Answered { status, items: Some(items) } => {
                if is_success(status) {
                    self.replace_all(items);
                    true
                } else {
                    false
                }
            },
            _ => false,
        }
    }

    /// Takes in the answer to an upload. On success the record that the
    /// store sent back goes in front of the list and a copy of it is
    /// returned; any other answer leaves the list as it was.
    pub fn finish_append(&mut self, reply: StoreReply) -> (stored: Option<HistoryItem>)
        ensures
            stored.deep_view() == reply.saved(),
            final(self)@ == appended(old(self)@, reply),
            final(self)@.len() <= HISTORY_LIMIT,
    {
        proof {
            use_type_invariant(&*self);
        }
        match reply {
            StoreReply::Answered { status, items: Some(items) } => {
                if is_success(status) {
                    let mut items = items;
                    match items.pop() {
                        Some(item) => {
                            let copy = item.clone();
                            self.insert_newest(item);
                            Some(copy)
                        },
                        None => None,
                    }
                } else {
                    None
                }
            },
            _ => None,
        }
    }

    /// Takes in the answer to a request to delete the record `id`. Only
    /// after the store carried the request out does the record leave the
    /// list, and never for an empty identifier. Says whether a record left.
    pub fn finish_delete(&mut self, id: &str, reply: &StoreReply) -> (removed: bool)
        ensures
            removed == (delete_applies(id@, *reply) && mentions(old(self)@, id@)),
            final(self)@ == deleted(old(self)@, id@, *reply),
            final(self)@.len() <= HISTORY_LIMIT,
    {
        proof {
            use_type_invariant(&*self);
        }
        let carried_out = match reply {
            StoreReply::Answered { status, .. } => is_success(*status),
            StoreReply::Unreachable => false,
        };
        if carried_out && !id.is_empty() {
            self.remove_by_id(id)
        } else {
            false
        }
    }
}

/// The request that loading the history starts with: none while nobody is
/// signed in.
pub open spec fn load_step(remote: Remote, session: Option<SessionView>) -> Option<RequestView> {
    match session {
        Some(session) => Some(
            load_request(remote.base_url@, remote.api_key@, session.token, session.user_id),
        ),
        None => None,
    }
}

/// The request that storing an exchange starts with: none while nobody is
/// signed in, else the upload of the record drafted for the exchange.
pub open spec fn append_step(
    remote: Remote,
    session: Option<SessionView>,
    exchange: ExchangeView,
) -> Option<RequestView> {
    match session {
        Some(session) => Some(
            append_request(
                remote.base_url@,
                remote.api_key@,
                session.token,
                draft_of(session.user_id, exchange),
            ),
        ),
        None => None,
    }
}

/// The request that deleting the record `id` starts with: none while
/// nobody is signed in, and none for an empty identifier.
pub open spec fn delete_step(
    remote: Remote,
    session: Option<SessionView>,
    id: Seq<char>,
) -> Option<RequestView> {
    match session {
        Some(session) => if id.len() == 0 {
            None
        } else {
            Some(delete_request(remote.base_url@, remote.api_key@, session.token, id))
        },
        None => None,
    }
}

/// Starts loading the history. The answer goes to [`History::finish_load`].
pub fn begin_load(remote: &Remote, session: &Option<Session>) -> (request: Option<Request>)
    ensures
        request.deep_view() == load_step(*remote, session.deep_view()),
{
    match session {
        Some(session) => Some(Request::load_history(remote, session)),
        None => None,
    }
}

/// Starts storing an exchange. The answer goes to
/// [`History::finish_append`].
pub fn begin_append(remote: &Remote, session: &Option<Session>, exchange: &Exchange) -> (request:
    Option<Request>)
    ensures
        request.deep_view() == append_step(*remote, session.deep_view(), exchange@),
{
    match session {
        Some(session) => {
            let item = draft_item(session.user_id.as_str(), exchange);
            Some(Request::append_history(remote, session, item))
        },
        None => None,
    }
}

/// Starts deleting a record. The answer goes to [`History::finish_delete`].
pub fn begin_delete(remote: &Remote, session: &Option<Session>, id: &str) -> (request: Option<
    Request,
>)
    ensures
        request.deep_view() == delete_step(*remote, session.deep_view(), id@),
{
    match session {
        Some(session) => {
            if id.is_empty() {
                None
            } else {
                Some(Request::delete_history(remote, session, id))
            }
        },
        None => None,
    }
}

/// While nobody is signed in, no operation on the history sends anything.
pub proof fn lemma_no_session_no_request(remote: Remote, exchange: ExchangeView, id: Seq<char>)
    ensures
        load_step(remote, None) is None,
        append_step(remote, None, exchange) is None,
        delete_step(remote, None, id) is None,
{
}

/// No answer of the store lets the list grow beyond the limit.
pub proof fn lemma_limit_is_kept(items: Seq<HistoryItemView>, id: Seq<char>, reply: StoreReply)
    requires
        items.len() <= HISTORY_LIMIT,
    ensures
        loaded(items, reply).len() <= HISTORY_LIMIT,
        appended(items, reply).len() <= HISTORY_LIMIT,
        deleted(items, id, reply).len() <= items.len(),
{
    if mentions(items, id) {
        lemma_without_first_present(items, id);
    }
}

/// An answer that does not report success leaves the list as it was,
/// whichever request it answers.
pub proof fn lemma_failure_changes_nothing(
    items: Seq<HistoryItemView>,
    id: Seq<char>,
    reply: StoreReply,
)
    requires
        !reply.succeeded(),
    ensures
        loaded(items, reply) == items,
        appended(items, reply) == items,
        deleted(items, id, reply) == items,
{
}

/// A record that the store sent back for an upload stands first
/// afterwards, the list has grown by one up to the limit, and the records
/// that stay keep their order.
pub proof fn lemma_appended(items: Seq<HistoryItemView>, reply: StoreReply)
    requires
        items.len() <= HISTORY_LIMIT,
        reply.saved() is Some,
    ensures
        appended(items, reply)[0] == reply.saved()->0,
        appended(items, reply).len() == if items.len() + 1 <= HISTORY_LIMIT {
            items.len() + 1
        } else {
            HISTORY_LIMIT as nat
        },
        forall|at: int|
            1 <= at < appended(items, reply).len() ==> appended(items, reply)[at] == items[at
                - 1],
{
    lemma_with_newest(items, reply.saved()->0);
}

/// Deleting an identifier that no record has changes nothing, whatever the
/// store answered.
pub proof fn lemma_deleted_absent(items: Seq<HistoryItemView>, id: Seq<char>, reply: StoreReply)
    requires
        !mentions(items, id),
    ensures
        deleted(items, id, reply) == items,
{
}

/// Deleting an identifier that some record has, once the store carried the
/// request out, takes out exactly one record, the first with that
/// identifier, and leaves the others in their order.
pub proof fn lemma_deleted_present(items: Seq<HistoryItemView>, id: Seq<char>, reply: StoreReply)
    requires
        mentions(items, id),
        delete_applies(id, reply),
    ensures
        is_first_match(items, id, first_match(items, id)),
        deleted(items, id, reply).len() == items.len() - 1,
        forall|at: int|
            0 <= at < first_match(items, id) ==> deleted(items, id, reply)[at] == items[at],
        forall|at: int|
            first_match(items, id) <= at < items.len() - 1 ==> deleted(items, id, reply)[at]
                == items[at + 1],
{
    lemma_without_first_present(items, id);
}

/// At most one position holds the first record with a given identifier.
pub proof fn lemma_first_match_unique(items: Seq<HistoryItemView>, id: Seq<char>, at: int)
    requires
        is_first_match(items, id, at),
    ensures
        mentions(items, id),
        first_match(items, id) == at,
{
    let chosen = first_match(items, id);
    assert(is_first_match(items, id, chosen));
    if chosen < at {
        assert(items[chosen].id != Some(id));
    } else if at < chosen {
        assert(items[at].id != Some(id));
    }
}

/// A new record stands first, the list grows by one up to the limit, and
/// the records that stay keep their order behind the new one.
pub proof fn lemma_with_newest(items: Seq<HistoryItemView>, item: HistoryItemView)
    requires
        items.len() <= HISTORY_LIMIT,
    ensures
        with_newest(items, item)[0] == item,
        with_newest(items, item).len() == if items.len() + 1 <= HISTORY_LIMIT {
            items.len() + 1
        } else {
            HISTORY_LIMIT as nat
        },
        forall|at: int|
            1 <= at < with_newest(items, item).len() ==> with_newest(items, item)[at] == items[at
                - 1],
{
}

/// Removing an identifier that no record has changes nothing.
pub proof fn lemma_without_first_absent(items: Seq<HistoryItemView>, id: Seq<char>)
    requires
        !mentions(items, id),
    ensures
        without_first(items, id) == items,
{
}

/// Removing an identifier that some record has takes out exactly one
/// record, the first with that identifier, and leaves the others in their
/// order.
pub proof fn lemma_without_first_present(items: Seq<HistoryItemView>, id: Seq<char>)
    requires
        mentions(items, id),
    ensures
        is_first_match(items, id, first_match(items, id)),
        without_first(items, id).len() == items.len() - 1,
        forall|at: int|
            0 <= at < first_match(items, id) ==> without_first(items, id)[at] == items[at],
        forall|at: int|
            first_match(items, id) <= at < items.len() - 1 ==> without_first(items, id)[at]
                == items[at + 1],
{
    lemma_mentions_has_first(items, id, items.len() as int);
}

/// Among the first `upto` records, if one has the identifier, one is the
/// first to have it.
proof fn lemma_mentions_has_first(items: Seq<HistoryItemView>, id: Seq<char>, upto: int)
    requires
        0 <= upto <= items.len(),
    ensures
        (exists|at: int| 0 <= at < upto && items[at].id == Some(id)) ==> exists|at: int|
            is_first_match(items, id, at),
    decreases upto,
{
    if upto > 0 {
        lemma_mentions_has_first(items, id, upto - 1);
        if !(exists|at: int| 0 <= at < upto - 1 && items[at].id == Some(id)) {
            if items[upto - 1].id == Some(id) {
                assert(is_first_match(items, id, upto - 1));
            }
        }
    }
}

} // verus!
