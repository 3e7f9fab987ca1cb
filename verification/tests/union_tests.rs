use trait_union::container::LenUnion;
use trait_union::variants::{MarkerVal, TextVal};

#[test]
fn test1() {
    let mut fx: usize = 0;
    let mut c = LenUnion::new(33u8);
    assert_eq!(c.active_align(), 1);
    assert_eq!(c.active_size(), 1);
    assert!(std::mem::align_of::<LenUnion>() >= 4);
    assert!(std::mem::size_of::<LenUnion>() >= 4);
    assert_eq!(c.len(), 33);
    c.set_len(22, &mut fx);
    assert_eq!(c.len(), 22);
    c.replace(
        TextVal::new("Hello World".as_bytes().to_vec()).unwrap(),
        &mut fx,
    );
    assert_eq!(c.len(), 11);
    c.set_len(5, &mut fx);
    assert_eq!(c.len(), 5);
    assert_eq!(c.render(), "Hello".as_bytes().to_vec());
    c.replace(MarkerVal {}, &mut fx);
    assert_eq!(c.active_align(), 4);
    assert_eq!(c.active_size(), 0);
    assert_eq!(c.len(), !0);
    assert_eq!(fx, 0);
    c.set_len(2, &mut fx);
    assert_eq!(fx, 2);
    c.destroy(&mut fx);
    assert_eq!(fx, 3);
}

#[test]
fn size() {
    assert_eq!(
        std::mem::size_of::<LenUnion>(),
        std::mem::size_of::<Option<LenUnion>>()
    );
}

#[test]
fn assert_sync() {
    let _: &dyn Sync = &LenUnion::new(1u8);
}
