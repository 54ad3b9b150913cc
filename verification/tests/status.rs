use restty::status::{is_success, label_with_reason, status_label};

#[test]
fn success_is_the_two_hundreds() {
    assert!(!is_success(0));
    assert!(!is_success(199));
    assert!(is_success(200));
    assert!(is_success(204));
    assert!(is_success(299));
    assert!(!is_success(300));
    assert!(!is_success(404));
    assert!(!is_success(u16::MAX));
}

#[test]
fn labels_of_common_codes() {
    assert_eq!(status_label(200), "200 OK");
    assert_eq!(status_label(201), "201 Created");
    assert_eq!(status_label(404), "404 Not Found");
    assert_eq!(status_label(500), "500 Internal Server Error");
}

#[test]
fn label_of_a_code_without_a_phrase() {
    assert_eq!(status_label(299), "299 <unknown status code>");
    assert_eq!(status_label(999), "999 <unknown status code>");
}

#[test]
fn label_of_a_number_that_is_no_status_code() {
    assert_eq!(status_label(0), "0 <unknown status code>");
    assert_eq!(status_label(99), "99 <unknown status code>");
    assert_eq!(status_label(1000), "1000 <unknown status code>");
}

#[test]
fn labels_agree_with_the_status_codes_own_text() {
    let mut code: u16 = 100;
    while code <= 999 {
        let status = reqwest::StatusCode::from_u16(code).unwrap();
        assert_eq!(status_label(code), status.to_string());
        code += 1;
    }
}

#[test]
fn label_with_a_given_reason() {
    assert_eq!(label_with_reason(200, &Some("Fine".to_string())), "200 Fine");
    assert_eq!(label_with_reason(200, &None), "200 <unknown status code>");
    assert_eq!(label_with_reason(7, &Some(String::new())), "7 ");
}
