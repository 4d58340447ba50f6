use quick_builder::{bar, check, validation};

#[test]
fn validation_accepts_small_types_only() {
    assert!(validation(&0u8));
    assert!(validation(&0u32));
    assert!(validation(&0i32));
    assert!(!validation(&0u64));
    assert!(!validation(&0i128));
    // a reference is a machine word, wider than four bytes here
    let mut x = 0.0f64;
    let r: &mut f64 = &mut x;
    assert_eq!(validation(&r), core::mem::size_of::<&mut f64>() <= 4);
}

#[test]
fn check_applies_the_predicate() {
    assert!(check(&3u32, |v: &u32| *v % 2 == 1));
    assert!(!check(&4u32, |v: &u32| *v % 2 == 1));
    let s = String::from("hello");
    assert!(check(&s, |v: &String| v.len() == 5));
}

#[test]
fn bar_checks_a_zero_value() {
    assert!(bar());
}
