//! Properties that hold across calls: determinism, counting, linkage and
//! ordering of identifiers.
use vstd::prelude::*;
use vstd::std_specs::cmp::{PartialEqSpec, PartialOrdSpec};

use crate::id::{succ32, Id};
use crate::mix::{le_bytes, mix_input};

verus! {

/// Derivation is deterministic: equal identifiers give equal children and
/// are left in equal states, so replaying the same calls from the root gives
/// the same identifiers, field for field and value for value.
pub proof fn law_deterministic(a: Id, b: Id, n: nat)
    requires
        a == b,
    ensures
        a.after(n) == b.after(n),
        a.after(n).child() == b.after(n).child(),
        a.after(n).value() == b.after(n).value(),
{
}

/// A child is one level deeper than its parent, while that depth fits in
/// a `u32`.
pub proof fn law_child_depth(p: Id)
    requires
        p.depth < u32::MAX,
    ensures
        p.child().depth == p.depth + 1,
{
}

/// After `n` derivations the child counter has grown by `n`, modulo 2^32,
/// and nothing else about the identifier has changed.
pub proof fn law_generation_count(p: Id, n: nat)
    ensures
        p.after(n).gen == (p.gen + n) % 0x1_0000_0000,
        p.after(n).id == p.id,
        p.after(n).parent == p.parent,
        p.after(n).depth == p.depth,
    decreases n,
{
    if n > 0 {
        law_generation_count(p, (n - 1) as nat);
    }
}

/// Every child links to its parent's value at derivation time, and deriving
/// more children never changes that value.
pub proof fn law_parent_linkage(p: Id, n: nat)
    ensures
        p.after(n).value() == p.value(),
        p.after(n).child().parent == p.value(),
{
    law_generation_count(p, n);
}

/// Two children derived in immediate succession hash different inputs,
/// since the counter that ends the input differs. Their local ids can
/// still collide, as the hash may map both inputs to one value.
pub proof fn law_sibling_inputs_differ(p: Id)
    ensures
        mix_input(p.id, p.parent, p.depth, p.bumped().gen) != mix_input(
            p.id,
            p.parent,
            p.depth,
            p.bumped().bumped().gen,
        ),
{
    let g1 = succ32(p.gen);
    let g2 = succ32(g1);
    assert(g1 != g2);
    let a = mix_input(p.id, p.parent, p.depth, g1);
    let b = mix_input(p.id, p.parent, p.depth, g2);
    if a == b {
        let x = g1 as u128;
        let y = g2 as u128;
        assert(a.subrange(28, 32) =~= le_bytes(x, 4));
        assert(b.subrange(28, 32) =~= le_bytes(y, 4));
        let bx = le_bytes(x, 4);
        let by = le_bytes(y, 4);
        assert(bx[0] == by[0] && bx[1] == by[1] && bx[2] == by[2] && bx[3] == by[3]);
        assert(x == y) by (bit_vector)
            requires
                x < 0x1_0000_0000,
                y < 0x1_0000_0000,
                ((x >> 0) & 0xff) as u8 == ((y >> 0) & 0xff) as u8,
                ((x >> 8) & 0xff) as u8 == ((y >> 8) & 0xff) as u8,
                ((x >> 16) & 0xff) as u8 == ((y >> 16) & 0xff) as u8,
                ((x >> 24) & 0xff) as u8 == ((y >> 24) & 0xff) as u8,
        ;
    }
}

/// A shallower identifier is less than a deeper one, whatever their values.
pub proof fn law_depth_order(a: Id, b: Id)
    requires
        a.depth < b.depth,
    ensures
        a.partial_cmp_spec(&b) == Some(core::cmp::Ordering::Less),
        b.partial_cmp_spec(&a) == Some(core::cmp::Ordering::Greater),
{
}

/// Identifiers are equal exactly when their derived values are.
pub proof fn law_eq_is_value_eq(a: Id, b: Id)
    ensures
        (a == b) ==> a.eq_spec(&b),
        a.eq_spec(&b) <==> a.value() == b.value(),
{
}

} // verus!
