use restty::method::Method;
use restty::record::HistoryItem;
use restty::request::{Header, Payload, Remote, Request};
use restty::session::Session;

fn header(name: &str, value: &str) -> Header {
    Header { name: name.to_string(), value: value.to_string() }
}

fn remote() -> Remote {
    Remote { base_url: "https://store.example".to_string(), api_key: "key-1".to_string() }
}

fn session() -> Session {
    Session {
        token: "token-1".to_string(),
        user_id: "user-1".to_string(),
        email: "dev@test.com".to_string(),
    }
}

#[test]
fn post_with_body_announces_json() {
    let request = Request::from_user(Method::POST, "https://example.com/echo", "{\"a\":1}");
    assert_eq!(
        request,
        Request {
            method: Method::POST,
            url: "https://example.com/echo".to_string(),
            headers: vec![header("Content-Type", "application/json")],
            payload: Payload::Text("{\"a\":1}".to_string()),
        }
    );
}

#[test]
fn put_and_patch_carry_their_body_too() {
    for method in [Method::PUT, Method::PATCH] {
        let request = Request::from_user(method, "https://example.com", "text");
        assert_eq!(request.method, method);
        assert_eq!(request.headers, vec![header("Content-Type", "application/json")]);
        assert_eq!(request.payload, Payload::Text("text".to_string()));
    }
}

#[test]
fn empty_body_is_not_sent() {
    for method in [Method::POST, Method::PUT, Method::PATCH] {
        let request = Request::from_user(method, "https://example.com", "");
        assert_eq!(request.headers, vec![]);
        assert_eq!(request.payload, Payload::Empty);
    }
}

#[test]
fn get_and_delete_ignore_the_body() {
    for method in [Method::GET, Method::DELETE] {
        let request = Request::from_user(method, "https://example.com/ok", "{\"a\":1}");
        assert_eq!(
            request,
            Request {
                method,
                url: "https://example.com/ok".to_string(),
                headers: vec![],
                payload: Payload::Empty,
            }
        );
    }
}

#[test]
fn signup_request_is_exact() {
    assert_eq!(
        Request::signup(&remote(), "dev@test.com", "password123"),
        Request {
            method: Method::POST,
            url: "https://store.example/auth/v1/signup".to_string(),
            headers: vec![header("apikey", "key-1"), header("Content-Type", "application/json")],
            payload: Payload::Credentials {
                email: "dev@test.com".to_string(),
                password: "password123".to_string(),
            },
        }
    );
}

#[test]
fn login_request_is_exact() {
    assert_eq!(
        Request::login(&remote(), "dev@test.com", "password123"),
        Request {
            method: Method::POST,
            url: "https://store.example/auth/v1/token?grant_type=password".to_string(),
            headers: vec![header("apikey", "key-1"), header("Content-Type", "application/json")],
            payload: Payload::Credentials {
                email: "dev@test.com".to_string(),
                password: "password123".to_string(),
            },
        }
    );
}

#[test]
fn load_request_is_exact() {
    assert_eq!(
        Request::load_history(&remote(), &session()),
        Request {
            method: Method::GET,
            url: "https://store.example/rest/v1/history?user_id=eq.user-1&order=created_at.desc&limit=100"
                .to_string(),
            headers: vec![header("apikey", "key-1"), header("Authorization", "Bearer token-1")],
            payload: Payload::Empty,
        }
    );
}

#[test]
fn append_request_is_exact() {
    let item = HistoryItem {
        id: None,
        user_id: "user-1".to_string(),
        method: "GET".to_string(),
        url: "https://example.com".to_string(),
        body: None,
        status: "Error".to_string(),
        response: "unreachable".to_string(),
        time: "3s".to_string(),
        created_at: None,
    };
    assert_eq!(
        Request::append_history(&remote(), &session(), item.clone()),
        Request {
            method: Method::POST,
            url: "https://store.example/rest/v1/history".to_string(),
            headers: vec![
                header("apikey", "key-1"),
                header("Authorization", "Bearer token-1"),
                header("Content-Type", "application/json"),
                header("Prefer", "return=representation"),
            ],
            payload: Payload::Record(item),
        }
    );
}

#[test]
fn delete_request_is_exact() {
    assert_eq!(
        Request::delete_history(&remote(), &session(), "abc-123"),
        Request {
            method: Method::DELETE,
            url: "https://store.example/rest/v1/history?id=eq.abc-123".to_string(),
            headers: vec![header("apikey", "key-1"), header("Authorization", "Bearer token-1")],
            payload: Payload::Empty,
        }
    );
}
