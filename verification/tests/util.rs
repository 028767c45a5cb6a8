use bookmark_ui::util::{AnyWithExt, Somewhere};
use std::sync::Arc;

static ANSWER: u32 = 42;

#[test]
fn with_applies_where_there_is_a_value() {
    assert_eq!(10u32.with(Some(5u32), |a, b| a + b), 15);
    assert_eq!("ab".to_string().with(Some('c'), |mut s, c| {
        s.push(c);
        s
    }), "abc");
}

#[test]
fn with_keeps_self_where_there_is_none() {
    assert_eq!(10u32.with(None::<u32>, |a, b| a + b), 10);
    assert_eq!(vec![1, 2].with(None::<u8>, |_, _| Vec::new()), vec![1, 2]);
}

#[test]
fn with_else_picks_a_branch() {
    assert_eq!(3u8.with_else(Some("x"), |n, s| format!("{n}{s}"), |n| format!("{n}!")), "3x");
    assert_eq!(3u8.with_else(None::<&str>, |n, s| format!("{n}{s}"), |n| format!("{n}!")), "3!");
}

#[test]
fn somewhere_borrowed() {
    let s: Somewhere<u32> = Somewhere::from(&ANSWER);
    assert_eq!(*s, 42);
    assert!(std::ptr::eq(&*s, &ANSWER));
    let c = s.clone();
    assert!(std::ptr::eq(&*c, &ANSWER));
}

#[test]
fn somewhere_owned() {
    let s: Somewhere<String> = Somewhere::from(String::from("kept"));
    assert_eq!(*s, "kept");
    assert_eq!(s.len(), 4);
}

#[test]
fn somewhere_shared() {
    let a = Arc::new(vec![1, 2, 3]);
    let s: Somewhere<Vec<i32>> = Somewhere::from(a.clone());
    assert_eq!(*s, vec![1, 2, 3]);
    assert_eq!(Arc::strong_count(&a), 2);
    let c = s.clone();
    assert_eq!(Arc::strong_count(&a), 3);
    assert!(std::ptr::eq(&*c, &*a));
    assert!(std::ptr::eq(&*s, &*c));
}

#[test]
fn somewhere_holds_unsized_values() {
    let s: Somewhere<str> = Somewhere::from("text");
    assert_eq!(&*s, "text");
    let a: Arc<[u8]> = Arc::from(vec![9u8, 8]);
    let t: Somewhere<[u8]> = Somewhere::from(a);
    assert_eq!(t.clone().len(), 2);
    assert_eq!(t[1], 8);
}
