//! The identifier type and its derivation step.
use vstd::prelude::*;
use vstd::string::StringExecFns;

use crate::hex::{hex_digits, lower_hex};
use crate::mix::{mix, mix_fields};

verus! {

/// A 128-bit identifier that can cheaply produce new, child identifiers.
///
/// It keeps its parent's value and its depth. All of it is deterministic and
/// platform-independent: the same calls always give the same identifiers.
/// The four fields are the whole persisted state; the value is recomputed.
#[derive(Clone, Copy)]
pub struct Id {
    /// Mixing output of the derivation that made this identifier; 0 for the root.
    pub id: u64,
    /// Value of the parent when this identifier was derived; 0 for the root.
    pub parent: u128,
    /// Number of ancestors; 0 for the root.
    pub depth: u32,
    /// Number of children derived from this identifier so far.
    pub gen: u32,
}

/// `x` reduced modulo 2^128.
pub open spec fn wrap128(x: int) -> u128 {
    (x % (u128::MAX as int + 1)) as u128
}

/// `x + 1` reduced modulo 2^32.
pub open spec fn succ32(x: u32) -> u32 {
    ((x + 1) % 0x1_0000_0000) as u32
}

/// The root identifier: every field zero.
pub open spec fn root_spec() -> Id {
    Id { id: 0, parent: 0, depth: 0, gen: 0 }
}

impl Id {
    /// The derived value: `(depth + 1) * (parent ^ id)`, modulo 2^128.
    pub open spec fn value(&self) -> u128 {
        wrap128((self.depth + 1) * (self.parent ^ (self.id as u128)))
    }

    /// This identifier after one more child has been derived from it.
    pub open spec fn bumped(&self) -> Id {
        Id { gen: succ32(self.gen), ..*self }
    }

    /// The child that the next derivation from this identifier returns.
    pub open spec fn child(&self) -> Id {
        Id {
            id: mix(self.id, self.parent, self.depth, succ32(self.gen)),
            parent: self.value(),
            depth: succ32(self.depth),
            gen: 0,
        }
    }

    /// This identifier after `n` successive derivations.
    pub open spec fn after(&self, n: nat) -> Id
        decreases n,
    {
        if n == 0 {
            *self
        } else {
            self.after((n - 1) as nat).bumped()
        }
    }

    /// Creates the root identifier.
    ///
    /// Every call returns the same identifier, which produces the same
    /// children.
    pub fn root() -> (r: Id)
        ensures
            r == root_spec(),
            r.value() == 0,
            r.parent == 0,
            r.depth == 0,
            r.gen == 0,
    {
        let r = Id { id: 0, parent: 0, depth: 0, gen: 0 };
        proof {
            let p = r.parent;
            let l = r.id as u128;
            assert(p ^ l == 0) by (bit_vector)
                requires
                    p == 0,
                    l == 0,
            ;
            assert(wrap128(0) == 0);
        }
        r
    }

    /// Returns the derived numerical value; 0 for the root.
    pub fn id(&self) -> (r: u128)
        ensures
            r == self.value(),
    {
        (self.depth as u128 + 1).wrapping_mul(self.parent ^ (self.id as u128))
    }

    /// Returns the value of the parent; 0 for the root.
    pub fn parent(&self) -> (r: u128)
        ensures
            r == self.parent,
    {
        self.parent
    }

    /// Returns how many ancestors this identifier has.
    pub fn depth(&self) -> (r: u32)
        ensures
            r == self.depth,
    {
        self.depth
    }

    /// Returns how many children this identifier has produced.
    pub fn num_children(&self) -> (r: u32)
        ensures
            r == self.gen,
    {
        self.gen
    }

    /// Derives a new child identifier, counting it on this one.
    ///
    /// The counter wraps after 2^32 children, and so does the child's depth
    /// past `u32::MAX`.
    pub fn next_id(&mut self) -> (r: Id)
        ensures
            *final(self) == old(self).bumped(),
            r == old(self).child(),
            r.id == mix(old(self).id, old(self).parent, old(self).depth, final(self).gen),
            r.parent == old(self).value(),
            r.depth == succ32(old(self).depth),
            r.gen == 0,
    {
        self.gen = self.gen.wrapping_add(1);
        let local = mix_fields(self.id, self.parent, self.depth, self.gen);
        Id { id: local, parent: self.id(), depth: self.depth.wrapping_add(1), gen: 0 }
    }

    /// The text form: the derived value in lower-case hexadecimal after `0x`.
    pub fn to_string(&self) -> (r: String)
        ensures
            r@ == seq!['0', 'x'] + hex_digits(self.value() as nat),
    {
        let digits = lower_hex(self.id());
        let mut text = <String as StringExecFns>::from_str("0x");
        proof {
            reveal_strlit("0x");
        }
        text.append(digits.as_str());
        assert(text@ =~= seq!['0', 'x'] + hex_digits(self.value() as nat));
        text
    }
}

impl PartialEq for Id {
    /// Two identifiers are equal when their derived values are.
    fn eq(&self, other: &Id) -> (r: bool) {
        self.id() == other.id()
    }
}

impl vstd::std_specs::cmp::PartialEqSpecImpl for Id {
    open spec fn obeys_eq_spec() -> bool {
        true
    }

    open spec fn eq_spec(&self, other: &Id) -> bool {
        self.value() == other.value()
    }
}

impl Eq for Id {}

/// Orders by depth alone. Identifiers of equal depth compare as `Equal`
/// whatever their values, so this is a weak order, not a total one over
/// distinct identifiers.
pub open spec fn depth_order(a: &Id, b: &Id) -> core::cmp::Ordering {
    if a.depth < b.depth {
        core::cmp::Ordering::Less
    } else if a.depth > b.depth {
        core::cmp::Ordering::Greater
    } else {
        core::cmp::Ordering::Equal
    }
}

impl PartialOrd for Id {
    fn partial_cmp(&self, other: &Id) -> (r: Option<core::cmp::Ordering>) {
        if self.depth < other.depth {
            Some(core::cmp::Ordering::Less)
        } else if self.depth > other.depth {
            Some(core::cmp::Ordering::Greater)
        } else {
            Some(core::cmp::Ordering::Equal)
        }
    }
}

impl vstd::std_specs::cmp::PartialOrdSpecImpl for Id {
    open spec fn obeys_partial_cmp_spec() -> bool {
        true
    }

    open spec fn partial_cmp_spec(&self, other: &Id) -> Option<core::cmp::Ordering> {
        Some(depth_order(self, other))
    }
}

/// Relies on `u128`'s `Hash` impl, which feeds the integer to the hasher.
/// Nothing is claimed of the hasher's state afterwards.
pub assume_specification<H: core::hash::Hasher>[ <u128 as core::hash::Hash>::hash::<H> ](
    data: &u128,
    state: &mut H,
);

impl core::hash::Hash for Id {
    /// Hashes the derived value, so equal identifiers hash alike.
    fn hash<H: core::hash::Hasher>(&self, state: &mut H) {
        self.id().hash(state)
    }
}

} // verus!
