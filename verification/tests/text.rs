use chat::text::joined;

#[test]
fn concat_puts_the_tail_behind() {
    assert_eq!(joined("error: ", "bad"), "error: bad");
    assert_eq!(joined("", ""), "");
    assert_eq!(joined("a", ""), "a");
    assert_eq!(joined("", "b"), "b");
}
