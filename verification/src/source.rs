//! Capability flags for event sources.
//!
//! These flags enable capability negotiation between collector components and the
//! agent, allowing dynamic feature discovery and task routing.

use vstd::prelude::*;

verus! {

/// A set of capability flags, one bit per capability.
#[derive(Debug, Clone, Copy, PartialEq, Eq, Hash, Structural)]
pub struct SourceCaps {
    pub bits: u32,
}

/// The bits that name a capability.
pub open spec fn all_bits() -> u32 {
    0x7f
}

impl SourceCaps {
    /// Process monitoring capabilities
    pub fn process() -> (c: SourceCaps)
        ensures
            c.bits == 1,
    {
        SourceCaps { bits: 1 }
    }

    /// Network monitoring capabilities
    pub fn network() -> (c: SourceCaps)
        ensures
            c.bits == 2,
    {
        SourceCaps { bits: 2 }
    }

    /// Filesystem monitoring capabilities
    pub fn filesystem() -> (c: SourceCaps)
        ensures
            c.bits == 4,
    {
        SourceCaps { bits: 4 }
    }

    /// Performance monitoring capabilities
    pub fn performance() -> (c: SourceCaps)
        ensures
            c.bits == 8,
    {
        SourceCaps { bits: 8 }
    }

    /// Real-time event streaming
    pub fn realtime() -> (c: SourceCaps)
        ensures
            c.bits == 16,
    {
        SourceCaps { bits: 16 }
    }

    /// Kernel-level access and monitoring
    pub fn kernel_level() -> (c: SourceCaps)
        ensures
            c.bits == 32,
    {
        SourceCaps { bits: 32 }
    }

    /// System-wide monitoring (vs per-process/user)
    pub fn system_wide() -> (c: SourceCaps)
        ensures
            c.bits == 64,
    {
        SourceCaps { bits: 64 }
    }

    /// The raw bits.
    pub open spec fn spec_bits(&self) -> u32 {
        self.bits
    }

    /// Whether every flag of `other` is set in `self`.
    pub open spec fn has(&self, other: SourceCaps) -> bool {
        self.bits & other.bits == other.bits
    }

    /// The raw bits.
    pub fn bits(&self) -> (b: u32)
        ensures
            b == self.bits,
    {
        self.bits
    }

    /// No capability.
    pub fn empty() -> (c: SourceCaps)
        ensures
            c.bits == 0,
    {
        SourceCaps { bits: 0 }
    }

    /// Every capability.
    pub fn all() -> (c: SourceCaps)
        ensures
            c.bits == all_bits(),
    {
        SourceCaps { bits: 0x7f }
    }

    /// The capabilities named by `bits`, ignoring bits that name none.
    pub fn from_bits_truncate(bits: u32) -> (c: SourceCaps)
        ensures
            c.bits == bits & all_bits(),
    {
        SourceCaps { bits: bits & 0x7f }
    }

    /// Whether no flag is set.
    pub fn is_empty(&self) -> (b: bool)
        ensures
            b == (self.bits == 0),
    {
        self.bits == 0
    }

    /// Whether every flag of `other` is set in `self`.
    pub fn contains(&self, other: SourceCaps) -> (b: bool)
        ensures
            b == self.has(other),
    {
        self.bits & other.bits == other.bits
    }

    /// Whether some flag is set in both.
    pub fn intersects(&self, other: SourceCaps) -> (b: bool)
        ensures
            b == (self.bits & other.bits != 0),
    {
        self.bits & other.bits != 0
    }

    /// The flags set in either.
    pub fn union(self, other: SourceCaps) -> (c: SourceCaps)
        ensures
            c.bits == self.bits | other.bits,
    {
        SourceCaps { bits: self.bits | other.bits }
    }

    /// The flags set in both.
    pub fn intersection(self, other: SourceCaps) -> (c: SourceCaps)
        ensures
            c.bits == self.bits & other.bits,
    {
        SourceCaps { bits: self.bits & other.bits }
    }

    /// Sets the flags of `other`.
    pub fn insert(&mut self, other: SourceCaps)
        ensures
            final(self).bits == old(self).bits | other.bits,
    {
        self.bits = self.bits | other.bits;
    }
}

impl core::ops::BitOr for SourceCaps {
    type Output = SourceCaps;

    fn bitor(self, rhs: SourceCaps) -> (c: SourceCaps) {
        SourceCaps { bits: self.bits | rhs.bits }
    }
}

impl vstd::std_specs::ops::BitOrSpecImpl for SourceCaps {
    open spec fn obeys_bitor_spec() -> bool {
        true
    }

    open spec fn bitor_req(self, rhs: SourceCaps) -> bool {
        true
    }

    open spec fn bitor_spec(self, rhs: SourceCaps) -> SourceCaps {
        SourceCaps { bits: self.bits | rhs.bits }
    }
}

impl core::ops::BitAnd for SourceCaps {
    type Output = SourceCaps;

    fn bitand(self, rhs: SourceCaps) -> (c: SourceCaps) {
        SourceCaps { bits: self.bits & rhs.bits }
    }
}

impl vstd::std_specs::ops::BitAndSpecImpl for SourceCaps {
    open spec fn obeys_bitand_spec() -> bool {
        true
    }

    open spec fn bitand_req(self, rhs: SourceCaps) -> bool {
        true
    }

    open spec fn bitand_spec(self, rhs: SourceCaps) -> SourceCaps {
        SourceCaps { bits: self.bits & rhs.bits }
    }
}

/// The union of two flag sets contains each of them.
pub proof fn law_union_contains_both(a: SourceCaps, b: SourceCaps)
    ensures
        (SourceCaps { bits: a.bits | b.bits }).has(a),
        (SourceCaps { bits: a.bits | b.bits }).has(b),
{
    let x = a.bits;
    let y = b.bits;
    assert((x | y) & x == x) by (bit_vector);
    assert((x | y) & y == y) by (bit_vector);
}

/// A flag set contains a capability exactly when the intersection with it is the capability.
pub proof fn law_contains_is_intersection(a: SourceCaps, b: SourceCaps)
    ensures
        a.has(b) <==> (SourceCaps { bits: a.bits & b.bits }) == b,
{
}

} // verus!
