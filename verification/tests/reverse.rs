use myextension::reverse::{chars_of, reverse_chars, reverse_results, reverse_string};

#[test]
fn reverse_hello() {
    assert_eq!(reverse_string("hello"), "olleh");
}

#[test]
fn reverse_with_space() {
    assert_eq!(reverse_string("a b"), "b a");
}

#[test]
fn reverse_empty() {
    assert_eq!(reverse_string(""), "");
}

#[test]
fn reverse_single_char() {
    assert_eq!(reverse_string("x"), "x");
}

#[test]
fn reverse_twice_round_trip() {
    let s = "reversing twice gives the input back";
    assert_eq!(reverse_string(&reverse_string(s)), s);
}

#[test]
fn reverse_by_scalar_value() {
    assert_eq!(reverse_string("héllo"), "olléh");
    assert_eq!(reverse_string("día"), "aíd");
}

#[test]
fn reverse_chars_exact() {
    let v = vec!['a', 'b', 'c'];
    assert_eq!(reverse_chars(&v), vec!['c', 'b', 'a']);
}

#[test]
fn chars_of_collects_in_order() {
    assert_eq!(chars_of("ab c"), vec!['a', 'b', ' ', 'c']);
    assert_eq!(chars_of(""), Vec::<char>::new());
}

#[test]
fn reverse_results_pushes_one_value() {
    let (text, count) = reverse_results("hello");
    assert_eq!(text, "olleh");
    assert_eq!(count, 1);
}
