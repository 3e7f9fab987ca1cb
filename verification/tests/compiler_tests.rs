use trait_union::checker::ConformanceError;
use trait_union::compiler::{compile, compile_batch, CompileError, Emitted};
use trait_union::decl::{BoundItem, UnionDecl, VariantDecl, Visibility, STATIC_LIFETIME};

const LEN_CAP: u64 = 7;
const SEND_CAP: u64 = 8;

fn variant(id: u64, size: usize, align: usize, caps: Vec<u64>, lifetimes: Vec<u64>) -> VariantDecl {
    VariantDecl {
        id,
        size,
        align,
        caps,
        lifetimes,
        shareable: true,
    }
}

fn scenario_decl() -> UnionDecl {
    UnionDecl {
        name: "LenUnion".to_string(),
        vis: Visibility::Public,
        bound: vec![BoundItem::Primary(LEN_CAP)],
        variants: vec![
            variant(1, 1, 1, vec![LEN_CAP], vec![STATIC_LIFETIME]),
            variant(2, 24, 8, vec![LEN_CAP], vec![STATIC_LIFETIME]),
            variant(3, 0, 4, vec![LEN_CAP], vec![STATIC_LIFETIME]),
        ],
    }
}

fn expect_err(r: Result<Emitted, CompileError>) -> CompileError {
    match r {
        Ok(_) => panic!("expected a build-time error"),
        Err(e) => e,
    }
}

#[test]
fn emits_layout_for_scenario() {
    let e = compile(scenario_decl()).unwrap();
    assert_eq!(e.name, "LenUnion");
    assert_eq!(e.vis, Visibility::Public);
    assert_eq!(e.primary, LEN_CAP);
    // the largest variant needs 24 bytes at alignment 8; rounded up, plus the
    // 8-byte handle
    assert_eq!(e.align, 8);
    assert_eq!(e.size, 32);
    assert!(e.shareable);
    assert_eq!(e.witnesses.len(), 3);
    assert_eq!(e.witnesses[0].variant_id(), 1);
    assert_eq!(e.witnesses[1].variant_id(), 2);
    assert_eq!(e.witnesses[2].variant_id(), 3);
}

#[test]
fn size_rounds_up_to_alignment() {
    let d = UnionDecl {
        name: "Padded".to_string(),
        vis: Visibility::Private,
        bound: vec![BoundItem::Primary(LEN_CAP)],
        variants: vec![
            variant(1, 5, 4, vec![LEN_CAP], vec![STATIC_LIFETIME]),
            variant(2, 3, 8, vec![LEN_CAP], vec![STATIC_LIFETIME]),
        ],
    };
    let e = compile(d).unwrap();
    // max size 5 rounded up to alignment 8 is 8; plus the handle
    assert_eq!(e.align, 8);
    assert_eq!(e.size, 16);
}

#[test]
fn empty_variant_list_is_malformed() {
    let d = UnionDecl {
        name: "Empty".to_string(),
        vis: Visibility::Public,
        bound: vec![BoundItem::Primary(LEN_CAP)],
        variants: vec![],
    };
    assert_eq!(expect_err(compile(d)), CompileError::EmptyVariantList);
}

#[test]
fn empty_bound_is_malformed() {
    let d = UnionDecl {
        name: "NoBound".to_string(),
        vis: Visibility::Public,
        bound: vec![],
        variants: vec![variant(1, 1, 1, vec![LEN_CAP], vec![STATIC_LIFETIME])],
    };
    assert_eq!(expect_err(compile(d)), CompileError::NoPrimaryCapability);
}

#[test]
fn marker_only_bound_is_malformed() {
    let d = UnionDecl {
        name: "MarkerOnly".to_string(),
        vis: Visibility::Public,
        bound: vec![BoundItem::Marker(SEND_CAP)],
        variants: vec![variant(1, 1, 1, vec![SEND_CAP], vec![STATIC_LIFETIME])],
    };
    assert_eq!(expect_err(compile(d)), CompileError::NoPrimaryCapability);
}

#[test]
fn two_primaries_are_ambiguous() {
    let d = UnionDecl {
        name: "Twice".to_string(),
        vis: Visibility::Public,
        bound: vec![BoundItem::Primary(LEN_CAP), BoundItem::Primary(SEND_CAP)],
        variants: vec![variant(
            1,
            1,
            1,
            vec![LEN_CAP, SEND_CAP],
            vec![STATIC_LIFETIME],
        )],
    };
    assert_eq!(expect_err(compile(d)), CompileError::AmbiguousBound);
}

#[test]
fn missing_capability_names_variant_and_requirement() {
    let d = UnionDecl {
        name: "Missing".to_string(),
        vis: Visibility::Public,
        bound: vec![BoundItem::Primary(LEN_CAP), BoundItem::Marker(SEND_CAP)],
        variants: vec![
            variant(1, 1, 1, vec![LEN_CAP, SEND_CAP], vec![STATIC_LIFETIME]),
            variant(2, 1, 1, vec![LEN_CAP], vec![STATIC_LIFETIME]),
            variant(3, 1, 1, vec![], vec![]),
        ],
    };
    // the first nonconforming variant is reported, with the first requirement
    // it misses
    assert_eq!(
        expect_err(compile(d)),
        CompileError::Conformance(ConformanceError {
            variant: 2,
            missing: BoundItem::Marker(SEND_CAP),
        })
    );
}

#[test]
fn implicit_static_lifetime_is_required() {
    let d = UnionDecl {
        name: "Implicit".to_string(),
        vis: Visibility::Public,
        bound: vec![BoundItem::Primary(LEN_CAP)],
        variants: vec![variant(1, 1, 1, vec![LEN_CAP], vec![])],
    };
    assert_eq!(
        expect_err(compile(d)),
        CompileError::Conformance(ConformanceError {
            variant: 1,
            missing: BoundItem::Lifetime(STATIC_LIFETIME),
        })
    );
}

#[test]
fn explicit_lifetime_replaces_the_implicit_one() {
    let d = UnionDecl {
        name: "Explicit".to_string(),
        vis: Visibility::Public,
        bound: vec![BoundItem::Primary(LEN_CAP), BoundItem::Lifetime(5)],
        variants: vec![variant(1, 1, 1, vec![LEN_CAP], vec![5])],
    };
    // the variant never satisfies the whole-program lifetime, yet conforms:
    // a bound with a lifetime of its own gains no implicit one
    let e = compile(d).unwrap();
    assert_eq!(e.witnesses.len(), 1);
}

#[test]
fn sharing_needs_every_variant() {
    let mut d = scenario_decl();
    d.variants[1].shareable = false;
    let e = compile(d).unwrap();
    assert!(!e.shareable);
}

#[test]
fn batch_failures_are_independent() {
    let bad = UnionDecl {
        name: "Bad".to_string(),
        vis: Visibility::Public,
        bound: vec![BoundItem::Primary(LEN_CAP)],
        variants: vec![],
    };
    let rs = compile_batch(vec![bad, scenario_decl()]);
    assert_eq!(rs.len(), 2);
    assert!(matches!(rs[0], Err(CompileError::EmptyVariantList)));
    assert!(rs[1].is_ok());
}
