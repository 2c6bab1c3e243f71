use rmt::example::{reverse, service_context};

#[test]
fn reverse_reads_backwards() {
    assert_eq!(reverse("hello"), "olleh");
    assert_eq!(reverse(""), "");
    assert_eq!(reverse("a"), "a");
    assert_eq!(reverse("ab"), "ba");
    assert_eq!(reverse("h\u{e9}llo w\u{f6}rld"), "dlr\u{f6}w oll\u{e9}h");
}

#[test]
fn sample_contract() {
    let context = service_context();
    assert_eq!(context.origin().ip(), "127.0.0.1");
    assert_eq!(context.origin().port(), 2020);
    assert!(!context.internal());
    assert_eq!(context.url(), "http://127.0.0.1:2020/request");
}
