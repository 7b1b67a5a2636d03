//! Process identities and foreign capability values.
//!
//! A capability is an opaque, pointer-sized word that is meaningful only
//! inside the owning process's address space (a handler entry address, or an
//! argument value delivered to the handler). The kernel never dereferences
//! one; it only stores it and hands it back verbatim to the owning process.
//! A zero word is not a valid capability: zero is reserved as the "no
//! argument" sentinel, so valid capabilities are exactly the non-zero words.

use vstd::prelude::*;

verus! {

/// Identity of the process that owns a registration. Process identities are
/// small non-zero integers; zero never names a process.
#[derive(Clone, Copy, Debug, PartialEq, Eq, Hash)]
pub struct Pid {
    value: u8,
}

impl Pid {
    /// A process identity is always non-zero.
    #[verifier::type_invariant]
    pub closed spec fn inv(self) -> bool {
        self.value != 0
    }

    pub closed spec fn spec_value(self) -> u8 {
        self.value
    }

    /// Wraps a raw identifier, rejecting the invalid zero value.
    pub fn new(value: u8) -> (r: Option<Pid>)
        ensures
            value == 0 ==> r is None,
            value != 0 ==> (r matches Some(p) && p.spec_value() == value),
    {
        if value == 0 {
            None
        } else {
            Some(Pid { value })
        }
    }

    pub fn get(&self) -> (r: u8)
        ensures
            r == self.spec_value(),
            r != 0,
    {
        proof {
            use_type_invariant(self);
        }
        self.value
    }
}

/// An opaque machine word scoped to its owning process's address space.
/// The kernel transports it but never reads through it.
#[derive(Clone, Copy, Debug, PartialEq, Eq, Hash)]
pub struct Capability {
    value: usize,
}

impl Capability {
    /// A capability word is always non-zero; zero means "absent".
    #[verifier::type_invariant]
    pub closed spec fn inv(self) -> bool {
        self.value != 0
    }

    pub closed spec fn spec_value(self) -> usize {
        self.value
    }

    /// Wraps a raw word, rejecting the invalid zero value.
    pub fn new(value: usize) -> (r: Option<Capability>)
        ensures
            value == 0 ==> r is None,
            value != 0 ==> (r matches Some(c) && c.spec_value() == value),
    {
        if value == 0 {
            None
        } else {
            Some(Capability { value })
        }
    }

    pub fn get(&self) -> (r: usize)
        ensures
            r == self.spec_value(),
            r != 0,
    {
        proof {
            use_type_invariant(self);
        }
        self.value
    }

    /// A capability that satisfies its invariant is a non-zero word.
    pub proof fn lemma_valid_nonzero(self)
        requires
            self.inv(),
        ensures
            self.spec_value() != 0,
    {
    }
}

} // verus!
