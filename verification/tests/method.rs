use restty::method::Method;

#[test]
fn labels_of_all_methods() {
    assert_eq!(Method::GET.as_str(), "GET");
    assert_eq!(Method::POST.as_str(), "POST");
    assert_eq!(Method::PUT.as_str(), "PUT");
    assert_eq!(Method::DELETE.as_str(), "DELETE");
    assert_eq!(Method::PATCH.as_str(), "PATCH");
}

#[test]
fn labels_read_back() {
    for method in [Method::GET, Method::POST, Method::PUT, Method::DELETE, Method::PATCH] {
        assert_eq!(Method::from_label(method.as_str()), method);
    }
}

#[test]
fn unknown_labels_read_as_get() {
    assert_eq!(Method::from_label(""), Method::GET);
    assert_eq!(Method::from_label("post"), Method::GET);
    assert_eq!(Method::from_label("HEAD"), Method::GET);
    assert_eq!(Method::from_label("POST "), Method::GET);
}

#[test]
fn only_three_methods_carry_a_body() {
    assert!(Method::POST.has_body());
    assert!(Method::PUT.has_body());
    assert!(Method::PATCH.has_body());
    assert!(!Method::GET.has_body());
    assert!(!Method::DELETE.has_body());
}
