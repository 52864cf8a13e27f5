use vstd::prelude::*;

verus! {

/// Parameters of the application-layer sequence number: it has 4 bits.
#[derive(Copy, Clone, Debug)]
pub struct AppParams;

impl AppParams {
    /// number of bits in an application sequence number
    pub fn num_bits() -> (n: u8)
        ensures
            n == 4,
    {
        4
    }
}

/// Application-layer sequence number in [0, 15].
#[derive(Copy, Clone, Debug, PartialEq, Eq, Structural)]
pub struct Sequence {
    value: u8,
}

impl Sequence {
    #[verifier::type_invariant]
    closed spec fn inv(self) -> bool {
        self.value < 16
    }

    /// the number, always in [0, 15]
    pub closed spec fn spec_value(self) -> u8 {
        self.value % 16
    }

    /// the sequence number held in the low 4 bits of `x`
    pub closed spec fn spec_new(x: u8) -> Sequence {
        Sequence { value: x % 16 }
    }

    /// the number is held in [0, 15], as it is in every sequence number
    /// that a program makes
    pub closed spec fn wf(self) -> bool {
        self.value < 16
    }

    pub broadcast proof fn lemma_spec_new_value(x: u8)
        ensures
            #[trigger] Sequence::spec_new(x).spec_value() == x % 16,
            Sequence::spec_new(x).wf(),
    {
    }

    /// Two well-formed sequence numbers with the same value are the same.
    pub proof fn lemma_eq_by_value(a: Sequence, b: Sequence)
        requires
            a.wf(),
            b.wf(),
            a.spec_value() == b.spec_value(),
        ensures
            a == b,
    {
    }

    pub broadcast proof fn lemma_value_bound(s: Sequence)
        ensures
            #[trigger] s.spec_value() < 16,
    {
    }

    pub fn new(x: u8) -> (s: Self)
        ensures
            s == Sequence::spec_new(x),
            s.spec_value() == x % 16,
    {
        Sequence { value: x % 16 }
    }

    pub fn value(self) -> (v: u8)
        ensures
            v == self.spec_value(),
            v < 16,
            self.wf(),
    {
        proof {
            use_type_invariant(self);
        }
        self.value
    }

    /// returns the current number and advances to the next one, wrapping
    /// from 15 to 0
    pub fn increment(&mut self) -> (current: Sequence)
        ensures
            current == *old(self),
            current.wf(),
            final(self).wf(),
            final(self).spec_value() == (old(self).spec_value() + 1) % 16,
    {
        proof {
            use_type_invariant(&*self);
        }
        let current = *self;
        self.value = (self.value + 1) % 16;
        current
    }
}

impl Default for Sequence {
    fn default() -> (s: Self)
        ensures
            s.spec_value() == 0,
            s.wf(),
    {
        Sequence { value: 0 }
    }
}

} // verus!
