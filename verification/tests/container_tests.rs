use trait_union::container::LenUnion;
use trait_union::variants::{MarkerVal, TextVal, UnionVariant};

#[test]
fn len_scenario() {
    let mut fx: usize = 0;
    let c = LenUnion::new(5u8);
    assert_eq!(c.len(), 5);
    let t = LenUnion::new(TextVal::new("hello".as_bytes().to_vec()).unwrap());
    assert_eq!(t.len(), 5);
    let m = LenUnion::new(MarkerVal {});
    assert_eq!(m.len(), usize::MAX);
    m.destroy(&mut fx);
    assert_eq!(fx, 1);
    c.destroy(&mut fx);
    t.destroy(&mut fx);
    // only the marker's destructor touches the counter
    assert_eq!(fx, 1);
}

#[test]
fn destructor_exactly_once() {
    let mut fx: usize = 0;
    let c = LenUnion::new(MarkerVal {});
    assert_eq!(fx, 0);
    c.destroy(&mut fx);
    assert_eq!(fx, 1);
}

#[test]
fn replacement_destroys_previous_first() {
    let mut fx: usize = 0;
    let mut c = LenUnion::new(MarkerVal {});
    c.replace(7u8, &mut fx);
    // the previous marker was fully destroyed before the byte became active
    assert_eq!(fx, 1);
    assert_eq!(c.len(), 7);
    c.replace(9u8, &mut fx);
    // the byte variant's destructor has no observable effect
    assert_eq!(fx, 1);
    assert_eq!(c.len(), 9);
    c.destroy(&mut fx);
    assert_eq!(fx, 1);
}

#[test]
fn renders_each_variant() {
    let c = LenUnion::new(33u8);
    assert_eq!(c.render(), b"33".to_vec());
    let z = LenUnion::new(0u8);
    assert_eq!(z.render(), b"0".to_vec());
    let h = LenUnion::new(250u8);
    assert_eq!(h.render(), b"250".to_vec());
    let t = LenUnion::new(TextVal::new(b"Hello World".to_vec()).unwrap());
    assert_eq!(t.render(), b"Hello World".to_vec());
    let m = LenUnion::new(MarkerVal {});
    assert_eq!(m.render(), b"X".to_vec());
}

#[test]
fn set_len_truncates_to_a_byte() {
    let mut fx: usize = 0;
    let mut c = LenUnion::new(1u8);
    c.set_len(300, &mut fx);
    assert_eq!(c.len(), 300 % 256);
    assert_eq!(fx, 0);
}

#[test]
fn set_len_never_grows_text() {
    let mut fx: usize = 0;
    let mut c = LenUnion::new(TextVal::new(b"abc".to_vec()).unwrap());
    c.set_len(10, &mut fx);
    assert_eq!(c.len(), 3);
    assert_eq!(c.render(), b"abc".to_vec());
    c.set_len(2, &mut fx);
    assert_eq!(c.render(), b"ab".to_vec());
}

#[test]
fn text_over_capacity_is_refused() {
    assert!(TextVal::new(vec![65u8; 25]).is_none());
    assert!(TextVal::new(vec![65u8; 24]).is_some());
}

#[test]
fn marker_set_len_stores_to_counter() {
    let mut fx: usize = 0;
    let mut m = LenUnion::new(MarkerVal {});
    m.set_len(9, &mut fx);
    assert_eq!(fx, 9);
    assert_eq!(m.len(), usize::MAX);
    m.destroy(&mut fx);
    assert_eq!(fx, 10);
}

#[test]
fn access_equals_direct_behaviour() {
    assert_eq!(LenUnion::new(5u8).len(), 5u8.direct_len());
    let t = TextVal::new(b"hello".to_vec()).unwrap();
    let direct = t.direct_len();
    assert_eq!(direct, 5);
    assert_eq!(LenUnion::new(t).len(), direct);
    assert_eq!(LenUnion::new(MarkerVal {}).len(), (MarkerVal {}).direct_len());
}
