use std::collections::hash_map::DefaultHasher;
use std::collections::HashSet;
use std::hash::{Hash, Hasher};

use hier_id::Id;

fn hash_of(id: &Id) -> u64 {
    let mut h = DefaultHasher::new();
    id.hash(&mut h);
    h.finish()
}

#[test]
fn root_constancy() {
    let r = Id::root();
    assert_eq!(r.id(), 0);
    assert_eq!(r.depth(), 0);
    assert_eq!(r.num_children(), 0);
    assert_eq!(r.parent(), 0);
    let s = Id::root();
    assert_eq!(r.id, s.id);
    assert_eq!(r.gen, s.gen);
}

#[test]
fn end_to_end_scenario() {
    let mut r = Id::root();
    let c1 = r.next_id();
    let c2 = r.next_id();
    assert_eq!(r.num_children(), 2);
    assert_eq!(c1.depth(), 1);
    assert_eq!(c2.depth(), 1);
    assert_eq!(c1.parent(), 0);
    assert_eq!(c2.parent(), 0);
    assert_ne!(c1.id(), c2.id());
    assert!(c1 != c2);
}

#[test]
fn grandchild_scenario() {
    let mut r = Id::root();
    let mut c1 = r.next_id();
    let gc = c1.next_id();
    assert_eq!(gc.depth(), 2);
    assert_eq!(gc.parent(), c1.id());
    assert_eq!(c1.num_children(), 1);
    assert_eq!(gc.num_children(), 0);
}

#[test]
fn exact_first_identifiers() {
    let mut r = Id::root();
    let mut c1 = r.next_id();
    let c2 = r.next_id();
    let gc = c1.next_id();
    assert_eq!(c1.id, 0x6c87646ff7553914);
    assert_eq!(c1.id(), 0xd90ec8dfeeaa7228);
    assert_eq!(c2.id, 0x4c776888f9f66ec7);
    assert_eq!(c2.id(), 0x98eed111f3ecdd8e);
    assert_eq!(gc.id, 0x710c809e58cc7e82);
    assert_eq!(gc.parent(), 0xd90ec8dfeeaa7228);
    assert_eq!(gc.id(), 0x1f806d8c5233225fe);
}

#[test]
fn local_id_is_fnv1a_of_the_field_stream() {
    let mut p = Id { id: 0x0123_4567_89ab_cdef, parent: 0xfeed_face_dead_beef_0000_1111_2222_3333, depth: 7, gen: 41 };
    let c = p.next_id();
    let mut h = fnv::FnvHasher::default();
    h.write(&0x0123_4567_89ab_cdefu64.to_le_bytes());
    h.write(&0xfeed_face_dead_beef_0000_1111_2222_3333u128.to_le_bytes());
    h.write(&7u32.to_le_bytes());
    h.write(&42u32.to_le_bytes());
    assert_eq!(c.id, h.finish());
    assert_ne!(c.id, 0x0123_4567_89ab_cdef);
}

#[test]
fn derived_value_formula() {
    let a = Id { id: 0b1010, parent: 0b0110, depth: 2, gen: 9 };
    assert_eq!(a.id(), 3 * 0b1100);
    let b = Id { id: u64::MAX, parent: u128::MAX, depth: 1, gen: 0 };
    let x = u128::MAX ^ (u64::MAX as u128);
    assert_eq!(b.id(), x.wrapping_mul(2));
    let c = Id { id: 5, parent: 0, depth: u32::MAX, gen: 0 };
    assert_eq!(c.id(), 5 * (1u128 << 32));
}

#[test]
fn determinism_two_runs() {
    fn run() -> Vec<(u64, u128, u32, u32, u128)> {
        let mut out = Vec::new();
        let mut r = Id::root();
        let mut a = r.next_id();
        let b = r.next_id();
        let aa = a.next_id();
        let ab = a.next_id();
        for x in [r, a, b, aa, ab] {
            out.push((x.id, x.parent, x.depth, x.gen, x.id()));
        }
        out
    }
    assert_eq!(run(), run());
}

#[test]
fn depth_monotonicity() {
    let mut p = Id::root();
    for d in 0..20u32 {
        assert_eq!(p.depth(), d);
        let c = p.next_id();
        assert_eq!(c.depth(), p.depth() + 1);
        p = c;
    }
}

#[test]
fn depth_wraps_at_max() {
    let mut p = Id { id: 3, parent: 4, depth: u32::MAX, gen: 0 };
    let c = p.next_id();
    assert_eq!(c.depth(), 0);
}

#[test]
fn generation_counting() {
    let mut p = Id::root();
    for n in 1..=10u32 {
        let _ = p.next_id();
        assert_eq!(p.num_children(), n);
    }
    assert_eq!(p.depth(), 0);
    assert_eq!(p.parent(), 0);
    assert_eq!(p.id(), 0);
}

#[test]
fn generation_counter_wraps() {
    let mut p = Id { id: 1, parent: 2, depth: 3, gen: u32::MAX };
    let _ = p.next_id();
    assert_eq!(p.num_children(), 0);
}

#[test]
fn parent_linkage() {
    let mut p = Id::root();
    let mut q = p.next_id();
    let before = q.id();
    let first = q.next_id();
    let mut later = Vec::new();
    for _ in 0..5 {
        later.push(q.next_id());
    }
    assert_eq!(q.id(), before);
    assert_eq!(first.parent(), before);
    for c in later {
        assert_eq!(c.parent(), before);
    }
}

#[test]
fn sibling_distinctness() {
    let mut p = Id::root();
    let mut seen = HashSet::new();
    for _ in 0..1000 {
        let c = p.next_id();
        assert!(seen.insert(c.id));
    }
}

#[test]
fn ordering_by_depth() {
    let shallow = Id { id: 999, parent: 12345, depth: 1, gen: 0 };
    let deep = Id { id: 0, parent: 0, depth: 2, gen: 0 };
    assert!(shallow < deep);
    assert!(deep > shallow);
    assert_eq!(shallow.partial_cmp(&deep), Some(std::cmp::Ordering::Less));
    let other = Id { id: 1, parent: 0, depth: 1, gen: 0 };
    assert_eq!(shallow.partial_cmp(&other), Some(std::cmp::Ordering::Equal));
    assert!(shallow != other);
}

#[test]
fn equality_and_hash_follow_value() {
    let a = Id { id: 1, parent: 0, depth: 0, gen: 0 };
    let b = Id { id: 0, parent: 1, depth: 0, gen: 5 };
    assert_eq!(a.id(), b.id());
    assert!(a == b);
    assert_eq!(hash_of(&a), hash_of(&b));
    let c = Id { id: 2, parent: 0, depth: 0, gen: 0 };
    assert!(a != c);
}

#[test]
fn text_form() {
    assert_eq!(Id::root().to_string(), "0x0");
    let mut r = Id::root();
    let c1 = r.next_id();
    assert_eq!(c1.to_string(), "0xd90ec8dfeeaa7228");
    let big = Id { id: 0, parent: u128::MAX, depth: 0, gen: 0 };
    assert_eq!(big.to_string(), "0xffffffffffffffffffffffffffffffff");
}
