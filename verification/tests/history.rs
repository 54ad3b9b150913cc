use restty::history::{begin_append, begin_delete, begin_load, History, StoreReply, HISTORY_LIMIT};
use restty::method::Method;
use restty::record::{draft_item, Exchange, HistoryItem, Timestamp, MAX_BODY_SIZE, MAX_RESPONSE_SIZE};
use restty::request::{Payload, Remote};
use restty::session::Session;

fn stored(id: &str, url: &str) -> HistoryItem {
    HistoryItem {
        id: Some(id.to_string()),
        user_id: "user-1".to_string(),
        method: "GET".to_string(),
        url: url.to_string(),
        body: None,
        status: "200 OK".to_string(),
        response: "{}".to_string(),
        time: "12ms".to_string(),
        created_at: Some(Timestamp { seconds: 1_700_000_000, nanos: 5 }),
    }
}

fn ids(history: &History) -> Vec<String> {
    history.items().iter().map(|item| item.id.clone().unwrap_or_default()).collect()
}

fn filled(count: usize) -> History {
    let mut history = History::new();
    let mut n = 0;
    while n < count {
        history.insert_newest(stored(&format!("id-{}", n), "https://example.com"));
        n += 1;
    }
    history
}

fn answered(status: u16, items: Option<Vec<HistoryItem>>) -> StoreReply {
    StoreReply::Answered { status, items }
}

fn remote() -> Remote {
    Remote { base_url: "https://store.example".to_string(), api_key: "key-1".to_string() }
}

fn session() -> Option<Session> {
    Some(Session {
        token: "token-1".to_string(),
        user_id: "user-1".to_string(),
        email: "dev@test.com".to_string(),
    })
}

fn exchange() -> Exchange {
    Exchange {
        method: Method::POST,
        url: "https://example.com/echo".to_string(),
        body: "{\"a\":1}".to_string(),
        status: "200 OK".to_string(),
        response: "{\n  \"a\": 1\n}".to_string(),
        time: "8ms".to_string(),
    }
}

#[test]
fn new_history_is_empty() {
    let history = History::new();
    assert_eq!(history.len(), 0);
    assert!(history.is_empty());
    assert!(history.get(0).is_none());
    assert!(history.items().is_empty());
}

#[test]
fn newest_record_stands_first() {
    let mut history = History::new();
    history.insert_newest(stored("a", "https://a"));
    history.insert_newest(stored("b", "https://b"));
    history.insert_newest(stored("c", "https://c"));
    assert_eq!(ids(&history), ["c", "b", "a"]);
    assert_eq!(history.len(), 3);
    assert_eq!(history.get(0), Some(&stored("c", "https://c")));
    assert_eq!(history.get(2), Some(&stored("a", "https://a")));
    assert!(history.get(3).is_none());
}

#[test]
fn history_never_grows_beyond_the_limit() {
    assert_eq!(HISTORY_LIMIT, 100);
    let mut history = filled(99);
    assert_eq!(history.len(), 99);
    history.insert_newest(stored("x", "https://x"));
    assert_eq!(history.len(), 100);
    assert_eq!(history.get(99).unwrap().id.as_deref(), Some("id-0"));
    history.insert_newest(stored("y", "https://y"));
    assert_eq!(history.len(), 100);
    assert_eq!(history.get(0).unwrap().id.as_deref(), Some("y"));
    assert_eq!(history.get(1).unwrap().id.as_deref(), Some("x"));
    // The oldest record left; the one before it is now last.
    assert_eq!(history.get(99).unwrap().id.as_deref(), Some("id-1"));
}

#[test]
fn removing_an_unknown_id_changes_nothing() {
    let mut history = filled(3);
    assert!(!history.remove_by_id("nobody"));
    assert_eq!(ids(&history), ["id-2", "id-1", "id-0"]);
    assert!(!history.remove_by_id(""));
    assert_eq!(history.len(), 3);
    let mut empty = History::new();
    assert!(!empty.remove_by_id("id-0"));
    assert!(empty.is_empty());
}

#[test]
fn removing_a_known_id_keeps_the_order_of_the_rest() {
    let mut history = filled(5);
    assert!(history.remove_by_id("id-2"));
    assert_eq!(ids(&history), ["id-4", "id-3", "id-1", "id-0"]);
    assert!(history.remove_by_id("id-4"));
    assert_eq!(ids(&history), ["id-3", "id-1", "id-0"]);
    assert!(history.remove_by_id("id-0"));
    assert_eq!(ids(&history), ["id-3", "id-1"]);
    assert!(!history.remove_by_id("id-0"));
}

#[test]
fn removing_takes_only_the_first_of_equal_ids() {
    let mut history = History::new();
    history.insert_newest(stored("same", "https://old"));
    history.insert_newest(stored("other", "https://other"));
    history.insert_newest(stored("same", "https://new"));
    assert!(history.remove_by_id("same"));
    assert_eq!(history.len(), 2);
    assert_eq!(history.get(0).unwrap().url, "https://other");
    assert_eq!(history.get(1).unwrap().url, "https://old");
}

#[test]
fn records_without_id_are_never_removed() {
    let mut history = History::new();
    let mut draft = stored("x", "https://draft");
    draft.id = None;
    history.insert_newest(draft);
    assert!(!history.remove_by_id(""));
    assert_eq!(history.len(), 1);
}

#[test]
fn position_of_finds_the_first() {
    let history = filled(4);
    assert_eq!(history.position_of("id-3"), Some(0));
    assert_eq!(history.position_of("id-0"), Some(3));
    assert_eq!(history.position_of("id-9"), None);
}

#[test]
fn clear_forgets_everything() {
    let mut history = filled(10);
    history.clear();
    assert!(history.is_empty());
}

#[test]
fn replace_all_keeps_the_order_and_the_limit() {
    let mut history = filled(2);
    history.replace_all(vec![stored("n1", "u"), stored("n2", "u"), stored("n3", "u")]);
    assert_eq!(ids(&history), ["n1", "n2", "n3"]);
    let many: Vec<HistoryItem> = (0..150).map(|n| stored(&format!("m-{}", n), "u")).collect();
    history.replace_all(many);
    assert_eq!(history.len(), 100);
    assert_eq!(history.get(0).unwrap().id.as_deref(), Some("m-0"));
    assert_eq!(history.get(99).unwrap().id.as_deref(), Some("m-99"));
}

#[test]
fn load_takes_over_what_the_store_sent() {
    let mut history = filled(2);
    assert!(history.finish_load(answered(200, Some(vec![stored("s1", "u"), stored("s2", "u")]))));
    assert_eq!(ids(&history), ["s1", "s2"]);
    assert!(history.finish_load(answered(206, Some(vec![]))));
    assert!(history.is_empty());
}

#[test]
fn failed_load_leaves_the_history_as_it_was() {
    let mut history = filled(2);
    assert!(!history.finish_load(StoreReply::Unreachable));
    assert_eq!(ids(&history), ["id-1", "id-0"]);
    assert!(!history.finish_load(answered(500, Some(vec![stored("s1", "u")]))));
    assert_eq!(ids(&history), ["id-1", "id-0"]);
    assert!(!history.finish_load(answered(401, None)));
    assert_eq!(ids(&history), ["id-1", "id-0"]);
    // A success whose body could not be read as records.
    assert!(!history.finish_load(answered(200, None)));
    assert_eq!(ids(&history), ["id-1", "id-0"]);
}

#[test]
fn append_puts_the_stored_record_first() {
    let mut history = filled(2);
    let got = history.finish_append(answered(201, Some(vec![stored("new", "https://new")])));
    assert_eq!(got, Some(stored("new", "https://new")));
    assert_eq!(ids(&history), ["new", "id-1", "id-0"]);
}

#[test]
fn append_takes_the_last_record_of_the_answer() {
    let mut history = History::new();
    let got = history.finish_append(answered(201, Some(vec![stored("first", "u"), stored("last", "u")])));
    assert_eq!(got.unwrap().id.as_deref(), Some("last"));
    assert_eq!(ids(&history), ["last"]);
}

#[test]
fn append_at_the_limit_evicts_the_oldest() {
    let mut history = filled(100);
    let got = history.finish_append(answered(201, Some(vec![stored("new", "u")])));
    assert!(got.is_some());
    assert_eq!(history.len(), 100);
    assert_eq!(history.get(0).unwrap().id.as_deref(), Some("new"));
    assert_eq!(history.get(99).unwrap().id.as_deref(), Some("id-1"));
}

#[test]
fn failed_append_leaves_the_history_as_it_was() {
    let mut history = filled(3);
    let before: Vec<HistoryItem> = history.items().clone();
    assert_eq!(history.finish_append(StoreReply::Unreachable), None);
    assert_eq!(history.items(), &before);
    assert_eq!(history.finish_append(answered(403, Some(vec![stored("new", "u")]))), None);
    assert_eq!(history.items(), &before);
    assert_eq!(history.finish_append(answered(201, None)), None);
    assert_eq!(history.items(), &before);
    assert_eq!(history.finish_append(answered(201, Some(vec![]))), None);
    assert_eq!(history.items(), &before);
}

#[test]
fn delete_after_the_store_agreed_removes_the_record() {
    let mut history = filled(3);
    assert!(history.finish_delete("id-1", &answered(204, None)));
    assert_eq!(ids(&history), ["id-2", "id-0"]);
}

#[test]
fn delete_of_an_unknown_id_is_a_no_op() {
    let mut history = filled(3);
    assert!(!history.finish_delete("nobody", &answered(204, None)));
    assert_eq!(ids(&history), ["id-2", "id-1", "id-0"]);
}

#[test]
fn failed_delete_leaves_the_history_as_it_was() {
    let mut history = filled(3);
    let before: Vec<HistoryItem> = history.items().clone();
    assert!(!history.finish_delete("id-1", &StoreReply::Unreachable));
    assert_eq!(history.items(), &before);
    assert!(!history.finish_delete("id-1", &answered(500, None)));
    assert_eq!(history.items(), &before);
    assert!(!history.finish_delete("id-1", &answered(199, None)));
    assert_eq!(history.items(), &before);
    assert!(!history.finish_delete("id-1", &answered(300, None)));
    assert_eq!(history.items(), &before);
}

#[test]
fn nothing_is_sent_without_a_session() {
    assert_eq!(begin_load(&remote(), &None), None);
    assert_eq!(begin_append(&remote(), &None, &exchange()), None);
    assert_eq!(begin_delete(&remote(), &None, "id-1"), None);
}

#[test]
fn nothing_is_sent_to_delete_an_empty_id() {
    assert_eq!(begin_delete(&remote(), &session(), ""), None);
    assert!(begin_delete(&remote(), &session(), "id-1").is_some());
}

#[test]
fn append_uploads_the_draft_of_the_exchange() {
    let request = begin_append(&remote(), &session(), &exchange()).unwrap();
    assert_eq!(request.method, Method::POST);
    assert_eq!(request.url, "https://store.example/rest/v1/history");
    assert_eq!(
        request.payload,
        Payload::Record(HistoryItem {
            id: None,
            user_id: "user-1".to_string(),
            method: "POST".to_string(),
            url: "https://example.com/echo".to_string(),
            body: Some("{\"a\":1}".to_string()),
            status: "200 OK".to_string(),
            response: "{\n  \"a\": 1\n}".to_string(),
            time: "8ms".to_string(),
            created_at: None,
        })
    );
}

#[test]
fn draft_leaves_out_an_empty_body() {
    let mut given = exchange();
    given.body = String::new();
    given.method = Method::GET;
    let item = draft_item("user-9", &given);
    assert_eq!(item.body, None);
    assert_eq!(item.method, "GET");
    assert_eq!(item.user_id, "user-9");
    assert_eq!(item.id, None);
    assert_eq!(item.created_at, None);
}

#[test]
fn draft_keeps_a_body_even_for_a_method_without_one() {
    let mut given = exchange();
    given.method = Method::DELETE;
    let item = draft_item("user-9", &given);
    assert_eq!(item.body.as_deref(), Some("{\"a\":1}"));
}

#[test]
fn draft_cuts_both_bodies_to_their_budgets() {
    let mut given = exchange();
    given.body = "q".repeat(MAX_BODY_SIZE + 5);
    given.response = "r".repeat(MAX_RESPONSE_SIZE + 7);
    let item = draft_item("user-1", &given);
    assert_eq!(
        item.body.unwrap(),
        format!("{}... [truncated 5 bytes]", "q".repeat(MAX_BODY_SIZE))
    );
    assert_eq!(
        item.response,
        format!("{}... [truncated 7 bytes]", "r".repeat(MAX_RESPONSE_SIZE))
    );
    assert_eq!(given.body.len(), MAX_BODY_SIZE + 5);
}

#[test]
fn draft_keeps_bodies_within_their_budgets() {
    let mut given = exchange();
    given.body = "q".repeat(MAX_BODY_SIZE);
    given.response = "r".repeat(MAX_RESPONSE_SIZE);
    let item = draft_item("user-1", &given);
    assert_eq!(item.body.unwrap(), given.body);
    assert_eq!(item.response, given.response);
}

#[test]
fn delete_of_an_empty_id_is_a_no_op() {
    let mut history = History::new();
    history.insert_newest(stored("", "https://odd"));
    assert!(!history.finish_delete("", &answered(204, None)));
    assert_eq!(history.len(), 1);
}
