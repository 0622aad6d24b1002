use std::collections::hash_map::DefaultHasher;
use std::hash::{Hash, Hasher};

use nameless::alpha::AlphaEq;
use nameless::debruijn::Debruijn;
use nameless::name::{FreeName, GenName};
use nameless::named::Named;
use nameless::pattern::Pattern;
use nameless::term::Term;
use nameless::var::Var;

fn hash_of<T: Hash>(value: &T) -> u64 {
    let mut state = DefaultHasher::new();
    value.hash(&mut state);
    state.finish()
}

fn binder(id: u64) -> Named<GenName, Var<GenName>> {
    Named::new(GenName(id), Var::Bound(Debruijn(0)))
}

#[test]
fn name_irrelevance() {
    let a = Named::new(GenName(1), Var::Free(GenName(5)));
    let b = Named::new(GenName(2), Var::Free(GenName(5)));
    assert!(a.alpha_eq(&b));
    assert!(b.alpha_eq(&a));
}

#[test]
fn alpha_eq_consults_the_inner_value() {
    let a = Named::new(GenName(1), Var::Free(GenName(5)));
    let b = Named::new(GenName(1), Var::Free(GenName(6)));
    assert!(!a.alpha_eq(&b));
    let c = Named::new(GenName(1), Var::<GenName>::Bound(Debruijn(0)));
    let d = Named::new(GenName(1), Var::<GenName>::Bound(Debruijn(1)));
    assert!(!c.alpha_eq(&d));
    assert!(c.alpha_eq(&c));
}

#[test]
fn var_alpha_eq() {
    assert!(Var::Free(GenName(5)).alpha_eq(&Var::Free(GenName(5))));
    assert!(!Var::Free(GenName(5)).alpha_eq(&Var::Free(GenName(6))));
    assert!(Var::<GenName>::Bound(Debruijn(2)).alpha_eq(&Var::Bound(Debruijn(2))));
    assert!(!Var::<GenName>::Bound(Debruijn(2)).alpha_eq(&Var::Bound(Debruijn(3))));
    assert!(!Var::Free(GenName(5)).alpha_eq(&Var::Bound(Debruijn(0))));
}

#[test]
fn hash_agrees_with_alpha_equality() {
    let a = Named::new(GenName(1), Var::Free(GenName(5)));
    let b = Named::new(GenName(2), Var::Free(GenName(5)));
    assert!(a.alpha_eq(&b));
    assert_eq!(hash_of(&a), hash_of(&b));
    let c = Named::new(GenName(3), Var::<GenName>::Bound(Debruijn(4)));
    let d = Named::new(GenName(4), Var::<GenName>::Bound(Debruijn(4)));
    assert!(c.alpha_eq(&d));
    assert_eq!(hash_of(&c), hash_of(&d));
}

#[test]
fn hash_ignores_only_the_name() {
    let a = Named::new(GenName(1), Var::Free(GenName(5)));
    assert_eq!(hash_of(&a), hash_of(&a.inner));
}

#[test]
fn freshen_distinctness() {
    let mut p = binder(0);
    let original = GenName(0);
    let r1 = p.freshen();
    let r2 = p.freshen();
    assert_ne!(r1, r2);
    assert_ne!(r1, original);
    assert_ne!(r2, original);
    assert_eq!(p.name, r2);
    assert_eq!(p.inner, Var::Bound(Debruijn(0)));
}

#[test]
fn on_free_on_bound_duality() {
    let p = binder(7);
    let i = Debruijn(3);
    let j = Debruijn(2);
    assert_eq!(p.on_free(i, &GenName(7)), Some(i));
    assert_eq!(p.on_free(i, &GenName(8)), None);
    assert_eq!(p.on_bound(i, &i), Some(GenName(7)));
    assert_eq!(p.on_bound(j, &i), None);
}

#[test]
fn close_then_open_restores_free_occurrence() {
    let p = binder(7);
    let original = Var::Free(GenName(7));
    let mut t = original.clone();
    t.close_at(Debruijn(1), &p);
    assert_eq!(t, Var::Bound(Debruijn(1)));
    t.open_at(Debruijn(1), &p);
    assert!(t.alpha_eq(&original));
}

#[test]
fn close_then_open_leaves_foreign_occurrences() {
    let p = binder(7);
    let mut t = Var::Free(GenName(9));
    t.close_at(Debruijn(0), &p);
    assert_eq!(t, Var::Free(GenName(9)));
    t.open_at(Debruijn(0), &p);
    assert_eq!(t, Var::Free(GenName(9)));
    let mut u = Var::<GenName>::Bound(Debruijn(2));
    u.close_at(Debruijn(0), &p);
    u.open_at(Debruijn(0), &p);
    assert_eq!(u, Var::Bound(Debruijn(2)));
}

#[test]
fn open_claims_an_occurrence_already_bound_at_the_index() {
    // The one input left out of the round-trip law: an occurrence that
    // was already bound at the index opens to the pattern's name.
    let p = binder(7);
    let mut t = Var::<GenName>::Bound(Debruijn(1));
    t.close_at(Debruijn(1), &p);
    assert_eq!(t, Var::Bound(Debruijn(1)));
    t.open_at(Debruijn(1), &p);
    assert_eq!(t, Var::Free(GenName(7)));
}

#[test]
fn close_at_passes_through_the_wrapper() {
    let p = binder(7);
    let mut w = Named::new(GenName(9), Var::Free(GenName(7)));
    let mut direct = Var::Free(GenName(7));
    w.close_at(Debruijn(0), &p);
    direct.close_at(Debruijn(0), &p);
    assert_eq!(w.inner, direct);
    assert_eq!(w.name, GenName(9));
}

#[test]
fn open_at_passes_through_the_wrapper() {
    let p = binder(7);
    let mut w = Named::new(GenName(9), Var::<GenName>::Bound(Debruijn(0)));
    let mut direct = Var::<GenName>::Bound(Debruijn(0));
    w.open_at(Debruijn(0), &p);
    direct.open_at(Debruijn(0), &p);
    assert_eq!(w.inner, direct);
    assert_eq!(w.name, GenName(9));
}

#[test]
fn binder_round_trip_scenario() {
    // A binder conceptually named "x" wrapping a body with one free
    // occurrence of "x" at depth zero.
    let x = GenName(0);
    let binder = Named::new(x, Var::Free(x));
    let mut body = Var::Free(x);
    body.close_at(Debruijn(0), &binder);
    assert_eq!(body, Var::Bound(Debruijn(0)));
    body.open_at(Debruijn(0), &binder);
    assert_eq!(body, Var::Free(x));
}

#[test]
fn rename_overwrites_the_name_only() {
    let mut p = binder(7);
    let before = p.clone();
    p.rename(&GenName(42));
    assert_eq!(p.name, GenName(42));
    assert_eq!(p.inner, before.inner);
    assert!(p.alpha_eq(&before));
}

#[test]
fn named_new_pairs_name_and_inner() {
    let w = Named::new(GenName(3), Var::Free(GenName(4)));
    assert_eq!(w.name, GenName(3));
    assert_eq!(w.inner, Var::Free(GenName(4)));
}

#[test]
fn gen_name_identity() {
    let a = GenName(5);
    assert!(a.eq_name(&GenName(5)));
    assert!(!a.eq_name(&GenName(6)));
    assert_eq!(a.clone_name(), a);
    let mut b = GenName(5);
    b.freshen();
    assert!(!b.eq_name(&a));
}

#[test]
fn debruijn_zero_and_succ() {
    assert_eq!(Debruijn::zero(), Debruijn(0));
    assert_eq!(Debruijn(0).succ(), Debruijn(1));
    assert_eq!(Debruijn(u32::MAX - 1).succ(), Debruijn(u32::MAX));
}

#[test]
fn deep_binder_round_trip() {
    // An occurrence two binders out: closing and opening at depth two
    // touch it, depths zero and one leave it alone.
    let p = binder(7);
    let mut t = Var::Free(GenName(7));
    t.close_at(Debruijn(2), &p);
    assert_eq!(t, Var::Bound(Debruijn(2)));
    t.open_at(Debruijn(0), &p);
    t.open_at(Debruijn(1), &p);
    assert_eq!(t, Var::Bound(Debruijn(2)));
    t.open_at(Debruijn(2), &p);
    assert_eq!(t, Var::Free(GenName(7)));
}
