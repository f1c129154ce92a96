use automation::helpers::text::{append_decimal, join_commas, same_text, split_commas};

fn strings(items: &[&str]) -> Vec<String> {
    items.iter().map(|s| s.to_string()).collect()
}

#[test]
fn join_puts_commas_between_items() {
    assert_eq!(join_commas(&strings(&["something", "else"])), "something,else");
    assert_eq!(join_commas(&strings(&["one"])), "one");
    assert_eq!(join_commas(&strings(&[])), "");
    assert_eq!(join_commas(&strings(&["", ""])), ",");
}

#[test]
fn split_cuts_at_every_comma() {
    assert_eq!(split_commas("something,else"), strings(&["something", "else"]));
    assert_eq!(split_commas(""), strings(&[""]));
    assert_eq!(split_commas("a,"), strings(&["a", ""]));
    assert_eq!(split_commas(",a,,b"), strings(&["", "a", "", "b"]));
    assert_eq!(split_commas("héllo,wörld"), strings(&["héllo", "wörld"]));
}

#[test]
fn split_gives_back_joined_params() {
    let params = strings(&["x", "y z", "ünï"]);
    assert_eq!(split_commas(&join_commas(&params)), params);
}

#[test]
fn join_and_split_differ_where_the_law_excludes() {
    // an empty list is read back as one empty parameter
    assert_eq!(split_commas(&join_commas(&strings(&[]))), strings(&[""]));
    // a parameter holding a comma is read back as two
    assert_eq!(split_commas(&join_commas(&strings(&["a,b"]))), strings(&["a", "b"]));
}

#[test]
fn decimal_numerals() {
    for n in [0u32, 7, 10, 42, 1000, 65535, u32::MAX] {
        let mut out = String::from("id=");
        append_decimal(&mut out, n);
        assert_eq!(out, format!("id={}", n));
    }
}

#[test]
fn same_text_compares_characters() {
    assert!(same_text("abc", "abc"));
    assert!(same_text("", ""));
    assert!(!same_text("abc", "abd"));
    assert!(!same_text("abc", "ab"));
}
