use http::headers::Headers;
use http::httpresponse::{EncodingError, HttpResponse};

const BODY: &str = "Item was shipped on 21st Dec 2020";

#[test]
fn test_response_struct_creation_200() {
    let response_actual = HttpResponse::new(
        "200",
        None,
        Some("Item was shipped on 21st Dec 2020".into()),
    );

    let mut h = Headers::new();
    h.insert("Content-Type", "text/html");

    assert_eq!(
        (
            response_actual.version(),
            response_actual.status_code(),
            response_actual.status_text(),
            response_actual.headers(),
            response_actual.body(),
        ),
        (
            "HTTP/1.1",
            "200",
            "OK",
            Some(&h),
            Some("Item was shipped on 21st Dec 2020"),
        )
    );
}

#[test]
fn test_response_struct_creation_404() {
    let response_actual = HttpResponse::new(
        "404",
        None,
        Some("Item was shipped on 21st Dec 2020".into()),
    );

    let mut h = Headers::new();
    h.insert("Content-Type", "text/html");

    assert_eq!(
        (
            response_actual.version(),
            response_actual.status_code(),
            response_actual.status_text(),
            response_actual.headers(),
            response_actual.body(),
        ),
        (
            "HTTP/1.1",
            "404",
            "Not Found",
            Some(&h),
            Some("Item was shipped on 21st Dec 2020"),
        )
    );
}

#[test]
fn test_http_response_creation() {
    let mut h = Headers::new();
    h.insert("Content-Type", "text/html");
    let response_expected = HttpResponse::new(
        "404",
        Some(h),
        Some("Item was shipped on 21st Dec 2020".into()),
    );

    let http_string: String = response_expected.encode().unwrap();
    let response_actual = "HTTP/1.1 404 Not Found\r\nContent-Type: text/html\r\nContent-Length: 33\r\n\r\nItem was shipped on 21st Dec 2020";
    assert_eq!(http_string, response_actual);
}

#[test]
fn new_equals_new_with_the_default_header_given() {
    let mut h = Headers::new();
    h.insert("Content-Type", "text/html");
    let implicit = HttpResponse::new("200", None, Some(BODY.to_string()));
    let explicit = HttpResponse::new("200", Some(h), Some(BODY.to_string()));
    assert_eq!(implicit, explicit);
}

#[test]
fn listed_codes_get_their_phrases() {
    for (code, phrase) in [
        ("200", "OK"),
        ("400", "Bad Request"),
        ("404", "Not Found"),
        ("500", "Internal Server Error"),
    ] {
        let r = HttpResponse::new(code, None, Some(String::new()));
        assert_eq!(r.status_code(), code);
        assert_eq!(r.status_text(), phrase);
        assert_eq!(r.version(), "HTTP/1.1");
    }
}

#[test]
fn unlisted_code_is_kept_and_gets_the_fallback_phrase() {
    for code in ["301", "", "2000", "20", "abc", " 200", "200 "] {
        let r = HttpResponse::new(code, None, Some("x".to_string()));
        assert_eq!(r.status_code(), code);
        assert_eq!(r.status_text(), "Not Found");
        let text = r.encode().unwrap();
        assert!(text.starts_with(&format!("HTTP/1.1 {} Not Found\r\n", code)));
    }
}

#[test]
fn no_headers_gives_the_single_default_header() {
    let r = HttpResponse::new("500", None, None);
    let h = r.headers().unwrap();
    assert_eq!(h.len(), 1);
    assert_eq!(h.entry(0), Some(("Content-Type", "text/html")));
    assert_eq!(h.entry(1), None);
}

#[test]
fn given_headers_are_taken_as_they_are() {
    let mut h = Headers::new();
    h.insert("X-One", "1");
    h.insert("X-Two", "2");
    let r = HttpResponse::new("200", Some(h.clone()), Some("ok".to_string()));
    assert_eq!(r.headers(), Some(&h));
    assert_eq!(
        r.encode().unwrap(),
        "HTTP/1.1 200 OK\r\nX-One: 1\r\nX-Two: 2\r\nContent-Length: 2\r\n\r\nok"
    );
}

#[test]
fn empty_header_mapping_gives_no_header_line() {
    let r = HttpResponse::new("200", Some(Headers::new()), Some("ok".to_string()));
    assert_eq!(r.encode().unwrap(), "HTTP/1.1 200 OK\r\nContent-Length: 2\r\n\r\nok");
}

#[test]
fn scenario_404_with_default_header() {
    let r = HttpResponse::new("404", None, Some(BODY.to_string()));
    let text = r.encode().unwrap();
    let mut lines = text.split("\r\n");
    assert_eq!(lines.next(), Some("HTTP/1.1 404 Not Found"));
    assert_eq!(lines.next(), Some("Content-Type: text/html"));
    assert_eq!(BODY.len(), 33);
    assert_eq!(lines.next(), Some("Content-Length: 33"));
    assert_eq!(lines.next(), Some(""));
    assert_eq!(lines.next(), Some(BODY));
    assert_eq!(lines.next(), None);
}

#[test]
fn content_length_counts_bytes_not_characters() {
    let body = "h\u{e9}llo \u{20ac} \u{1f600}";
    assert_eq!(body.chars().count(), 9);
    assert_eq!(body.len(), 15);
    let r = HttpResponse::new("200", None, Some(body.to_string()));
    assert_eq!(
        r.encode().unwrap(),
        format!("HTTP/1.1 200 OK\r\nContent-Type: text/html\r\nContent-Length: 15\r\n\r\n{}", body)
    );
}

#[test]
fn content_length_of_empty_and_long_bodies() {
    let r = HttpResponse::new("200", None, Some(String::new()));
    assert_eq!(
        r.encode().unwrap(),
        "HTTP/1.1 200 OK\r\nContent-Type: text/html\r\nContent-Length: 0\r\n\r\n"
    );
    for n in [1usize, 9, 10, 99, 100, 1024, 12345] {
        let body = "a".repeat(n);
        let r = HttpResponse::new("200", None, Some(body.clone()));
        assert_eq!(
            r.encode().unwrap(),
            format!(
                "HTTP/1.1 200 OK\r\nContent-Type: text/html\r\nContent-Length: {}\r\n\r\n{}",
                n, body
            )
        );
    }
}

#[test]
fn missing_body_is_an_error() {
    let r = HttpResponse::new("200", None, None);
    assert_eq!(r.body(), None);
    assert_eq!(r.encode(), Err(EncodingError::MissingBody));
    let mut h = Headers::new();
    h.insert("A", "b");
    let r = HttpResponse::new("404", Some(h), None);
    assert_eq!(r.encode(), Err(EncodingError::MissingBody));
}

#[test]
fn default_response_has_neither_headers_nor_body() {
    let r = HttpResponse::default();
    assert_eq!(r.version(), "HTTP/1.1");
    assert_eq!(r.status_code(), "200");
    assert_eq!(r.status_text(), "OK");
    assert_eq!(r.headers(), None);
    assert_eq!(r.body(), None);
    assert_eq!(r.encode(), Err(EncodingError::MissingHeaders));
    assert_ne!(EncodingError::MissingHeaders, EncodingError::MissingBody);
}

#[test]
fn send_response_appends_the_bytes_of_the_text() {
    let r = HttpResponse::new("404", None, Some(BODY.to_string()));
    let mut sink: Vec<u8> = b"before".to_vec();
    assert_eq!(r.send_response(&mut sink), Ok(()));
    let mut expected = b"before".to_vec();
    expected.extend_from_slice(r.encode().unwrap().as_bytes());
    assert_eq!(sink, expected);
    assert_eq!(
        String::from_utf8(sink[6..].to_vec()).unwrap(),
        "HTTP/1.1 404 Not Found\r\nContent-Type: text/html\r\nContent-Length: 33\r\n\r\nItem was shipped on 21st Dec 2020"
    );
}

#[test]
fn send_response_writes_multi_byte_bodies_as_utf8() {
    let r = HttpResponse::new("200", Some(Headers::new()), Some("\u{20ac}".to_string()));
    let mut sink: Vec<u8> = Vec::new();
    assert_eq!(r.send_response(&mut sink), Ok(()));
    let mut expected = b"HTTP/1.1 200 OK\r\nContent-Length: 3\r\n\r\n".to_vec();
    expected.extend_from_slice(&[0xe2, 0x82, 0xac]);
    assert_eq!(sink, expected);
}

#[test]
fn send_response_leaves_the_sink_alone_on_error() {
    let mut sink: Vec<u8> = vec![1, 2, 3];
    let r = HttpResponse::new("200", None, None);
    assert_eq!(r.send_response(&mut sink), Err(EncodingError::MissingBody));
    assert_eq!(sink, vec![1, 2, 3]);
    let d = HttpResponse::default();
    assert_eq!(d.send_response(&mut sink), Err(EncodingError::MissingHeaders));
    assert_eq!(sink, vec![1, 2, 3]);
}

#[test]
fn clone_is_equal_and_encodes_alike() {
    let mut h = Headers::new();
    h.insert("Server", "toy");
    let r = HttpResponse::new("400", Some(h), Some("bad".to_string()));
    let c = r.clone();
    assert_eq!(r, c);
    assert_eq!(r.encode(), c.encode());
    assert_eq!(
        c.encode().unwrap(),
        "HTTP/1.1 400 Bad Request\r\nServer: toy\r\nContent-Length: 3\r\n\r\nbad"
    );
}
