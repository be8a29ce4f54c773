use slicey::{Sliced, Spanned};

#[test]
fn spanned_new_keeps_span_and_inner() {
    let w = Spanned::new(41u32, 0..3);
    assert!(w.span() == (0..3));
    assert!(w.inner == 41);
    assert!(w.unwrap() == 41);
}

#[test]
fn spanned_round_trip() {
    let v = String::from("payload");
    let w = Spanned::new(v.clone(), 2..9);
    assert!(w.unwrap() == v);
}

#[test]
fn sliced_new_keeps_all_fields() {
    let source = "abcdef";
    let w = Sliced::new(10i64, 1..3, source);
    assert!(w.span() == (1..3));
    assert!(w.source() == source);
    assert!(w.inner == 10);
    assert!(w.slice() == &source[1..3]);
}

#[test]
fn sliced_slice_recovers_substring() {
    let w = Sliced::new("ignored", 1..4, "hello world");
    assert!(w.slice() == "ell");
}

#[test]
fn spanned_unzip_ok() {
    let w = Spanned::new(Ok::<i32, &str>(5), 0..3);
    assert!(w.unzip() == Ok(Spanned::new(5, 0..3)));
}

#[test]
fn spanned_unzip_err() {
    let w = Spanned::new(Err::<i32, &str>("bad"), 2..5);
    assert!(w.unzip() == Err(Spanned::new("bad", 2..5)));
}

#[test]
fn spanned_unzip_none() {
    let w = Spanned::new(None::<i32>, 1..2);
    assert!(w.unzip() == None);
}

#[test]
fn sliced_unzip_some() {
    let w = Sliced::new(Some(7), 1..2, "abcdef");
    assert!(w.unzip() == Some(Sliced::new(7, 1..2, "abcdef")));
}

#[test]
fn sliced_unzip_result() {
    let ok = Sliced::new(Ok::<u8, u8>(1), 0..1, "xy");
    assert!(ok.unzip() == Ok(Sliced::new(1u8, 0..1, "xy")));
    let err = Sliced::new(Err::<u8, u8>(9), 0..1, "xy");
    assert!(err.unzip() == Err(Sliced::new(9u8, 0..1, "xy")));
}

#[test]
fn equality_respects_span() {
    let a = Spanned::new(1, 0..1);
    let b = Spanned::new(1, 0..2);
    assert!(a != b);
    assert!(a == Spanned::new(1, 0..1));
}

#[test]
fn equality_respects_source() {
    let a = Sliced::new(1, 0..1, "aaa");
    let b = Sliced::new(1, 0..1, "bbb");
    assert!(a != b);
    assert!(a == Sliced::new(1, 0..1, "aaa"));
}

#[test]
fn equality_respects_inner() {
    assert!(Spanned::new(1, 0..1) != Spanned::new(2, 0..1));
    assert!(Sliced::new(1, 0..1, "aaa") != Sliced::new(2, 0..1, "aaa"));
}

#[test]
fn clone_is_independent() {
    let a = Spanned::new(vec![1, 2, 3], 0..3);
    let mut b = a.clone();
    b.inner.push(4);
    assert!(a.inner == vec![1, 2, 3]);
    assert!(b.inner == vec![1, 2, 3, 4]);
    assert!(a == Spanned::new(vec![1, 2, 3], 0..3));
    assert!(b.span() == a.span());
}

#[test]
fn sliced_clone_keeps_fields() {
    let a = Sliced::new(String::from("v"), 2..4, "source text");
    let b = a.clone();
    assert!(b == a);
}

#[test]
fn copied_and_cloned() {
    let x = 12u8;
    let w = Spanned::new(&x, 3..4);
    assert!(w.copied() == Spanned::new(12u8, 3..4));
    let s = String::from("deep");
    let w2 = Spanned::new(&s, 0..4);
    assert!(w2.cloned() == Spanned::new(String::from("deep"), 0..4));
    let w3 = Sliced::new(&x, 3..4, "text");
    assert!(w3.copied() == Sliced::new(12u8, 3..4, "text"));
    let w4 = Sliced::new(&s, 0..4, "text");
    assert!(w4.cloned() == Sliced::new(String::from("deep"), 0..4, "text"));
}

#[test]
fn borrowing_conversions() {
    let a = Spanned::new(10, 0..2);
    let b: Spanned<&i32> = Spanned::from(&a);
    assert!(*b.inner == 10);
    assert!(b.span() == (0..2));
    let c = Sliced::new(20, 1..2, "src");
    let d: Sliced<&i32> = Sliced::from(&c);
    assert!(*d.inner == 20);
    assert!(d.span() == (1..2));
    assert!(d.source() == "src");
}

#[test]
fn deref_exposes_inner() {
    let a = Spanned::new(String::from("word"), 0..4);
    assert!(a.len() == 4);
    let b = Sliced::new(String::from("word"), 0..4, "word!");
    assert!(b.len() == 4);
}
