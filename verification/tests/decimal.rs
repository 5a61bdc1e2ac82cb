use http::decimal::append_decimal;

#[test]
fn numerals_of_small_and_large_numbers() {
    for n in [0usize, 1, 7, 9, 10, 11, 33, 34, 99, 100, 101, 1024, 65535, 1000000, usize::MAX] {
        let mut out = String::new();
        append_decimal(&mut out, n);
        assert_eq!(out, format!("{}", n));
    }
}

#[test]
fn numeral_goes_behind_what_is_there() {
    let mut out = String::from("Content-Length: ");
    append_decimal(&mut out, 33);
    assert_eq!(out, "Content-Length: 33");
    append_decimal(&mut out, 0);
    assert_eq!(out, "Content-Length: 330");
}
