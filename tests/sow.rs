use std::rc::Rc;
use std::sync::Arc;

use type_matrux::sow::{ASow, Sow};

#[test]
fn borrowed_value_is_cloned() {
    let v = vec![1, 2, 3];
    let s: Sow<Vec<i32>> = Sow::from(&v);
    assert!(s.is_reference());
    assert_eq!(s.into_owned(), vec![1, 2, 3]);
}

#[test]
fn sole_shared_value_is_taken_out() {
    let s: Sow<Vec<i32>> = Sow::Shared(Rc::new(vec![4, 5]));
    assert!(s.is_shared());
    assert_eq!(s.into_owned(), vec![4, 5]);
}

#[test]
fn shared_value_with_other_owners_is_cloned() {
    let rc = Rc::new(String::from("x"));
    let s: Sow<String> = Sow::Shared(rc.clone());
    assert_eq!(s.into_owned(), "x");
    assert_eq!(*rc, "x");
}

#[test]
fn arc_sow_into_owned() {
    let arc = Arc::new(7u8);
    let shared: ASow<u8> = ASow::Shared(arc.clone());
    let other = shared.clone();
    assert_eq!(shared.into_owned(), 7);
    assert_eq!(other.into_owned(), 7);
    let n = 3u8;
    assert_eq!(ASow::from(&n).into_owned(), 3);
}

#[test]
fn text_sow_derefs_to_its_text() {
    let s: ASow<'static, str> = ASow::from_string("Poroshenko".to_string());
    assert_eq!(&*s, "Poroshenko");
    assert_eq!(s.get(), "Poroshenko");
    let r: Sow<'static, str> = Sow::Reference("Ivan");
    assert_eq!(r.as_ref(), "Ivan");
    let d: Sow<'static, u32> = Sow::default();
    assert_eq!(*d, 0);
}

#[test]
fn sows_compare_by_value() {
    let v = 5u32;
    assert!(Sow::from(&v) == Sow::Shared(Rc::new(5u32)));
    assert!(ASow::from_string("a".to_string()) == ASow::Reference("a"));
    assert!(ASow::from_string("a".to_string()) != ASow::Reference("b"));
}
