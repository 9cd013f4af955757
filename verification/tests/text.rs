use brew::text::{contains, push_all};

fn texts(items: &[&str]) -> Vec<String> {
    items.iter().map(|item| item.to_string()).collect()
}

#[test]
fn nothing_is_contained_in_anything() {
    assert!(contains(&texts(&[]), &texts(&[])));
    assert!(contains(&texts(&["a"]), &texts(&[])));
}

#[test]
fn something_is_not_contained_in_nothing() {
    assert!(!contains(&texts(&[]), &texts(&["a"])));
}

#[test]
fn contained_whatever_the_order_and_number() {
    assert!(contains(&texts(&["a", "b", "c"]), &texts(&["c", "a"])));
    assert!(contains(&texts(&["a", "b"]), &texts(&["b", "b", "a"])));
    assert!(contains(&texts(&["a", "a"]), &texts(&["a"])));
}

#[test]
fn one_missing_text_is_enough() {
    assert!(!contains(&texts(&["a", "b", "c"]), &texts(&["a", "d"])));
    assert!(!contains(&texts(&["--with-x"]), &texts(&["--with-"])));
    assert!(!contains(&texts(&["a"]), &texts(&["A"])));
}

#[test]
fn push_all_appends_in_order() {
    let mut args = texts(&["install"]);
    push_all(&mut args, &["--force", "--git"]);
    assert_eq!(args, texts(&["install", "--force", "--git"]));
    push_all(&mut args, &[]);
    assert_eq!(args, texts(&["install", "--force", "--git"]));
}
