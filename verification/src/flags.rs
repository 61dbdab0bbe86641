//! Sets of protocol flags, kept as the integer that travels on the wire.
use std::marker::PhantomData;
use std::ops::BitOr;
use vstd::prelude::*;
use vstd::std_specs::ops::BitOrSpecImpl;

verus! {

/// A protocol option that occupies one bit of a 32-bit word.
pub trait Flag: Copy {
    /// The bit of this flag.
    spec fn spec_bit(self) -> u32;

    /// The bits of all flags of this kind.
    spec fn spec_mask() -> u32;

    /// The wire value of this flag.
    fn bit(self) -> (bit: u32)
        ensures
            bit == self.spec_bit(),
    ;

    /// The wire value of all flags together.
    fn mask() -> (mask: u32)
        ensures
            mask == Self::spec_mask(),
    ;

    /// Every flag has a bit of its own, inside the mask.
    proof fn lemma_bits_are_separate(a: Self, b: Self)
        ensures
            a.spec_bit() & Self::spec_mask() == a.spec_bit(),
            (a.spec_bit() & b.spec_bit() != 0) <==> a == b,
    ;

    /// A word without bits outside the mask is fixed by the flags in it.
    proof fn lemma_word_is_its_flags(x: u32, y: u32)
        requires
            x & Self::spec_mask() == x,
            y & Self::spec_mask() == y,
            forall|f: Self| (x & #[trigger] f.spec_bit() != 0) == (y & f.spec_bit() != 0),
        ensures
            x == y,
    ;
}

/// A set of flags. Only bits that belong to some flag are ever set in it.
#[derive(Debug, PartialEq, Eq)]
pub struct FlagSet<F: Flag> {
    bits: u32,
    kind: PhantomData<F>,
}

impl<F: Flag> Clone for FlagSet<F> {
    fn clone(&self) -> (copy: Self)
        ensures
            copy == *self,
    {
        *self
    }
}

impl<F: Flag> Copy for FlagSet<F> {

}

impl<F: Flag> View for FlagSet<F> {
    type V = Set<F>;

    open spec fn view(&self) -> Set<F> {
        flags_in::<F>(self.spec_bits())
    }
}

/// The flags whose bits are set in `word`.
pub open spec fn flags_in<F: Flag>(word: u32) -> Set<F> {
    Set::new(|f: F| word & f.spec_bit() != 0)
}

impl<F: Flag> FlagSet<F> {
    /// No bit is set that belongs to no flag.
    #[verifier::type_invariant]
    pub closed spec fn wf(self) -> bool {
        self.bits & F::spec_mask() == self.bits
    }

    /// The set as a wire word.
    pub closed spec fn spec_bits(self) -> u32 {
        self.bits
    }

    /// The set of the flags in `word`; its other bits are left out.
    pub closed spec fn spec_from_bits_truncate(word: u32) -> Self {
        FlagSet { bits: word & F::spec_mask(), kind: PhantomData }
    }

    /// The set without flags.
    pub fn empty() -> (set: Self)
        ensures
            set.wf(),
            set@ == Set::<F>::empty(),
            set == Self::spec_from_bits_truncate(0),
    {
        proof {
            Self::lemma_truncated(0);
            assert forall|f: F| !flags_in::<F>(0).contains(f) by {
                let b = f.spec_bit();
                assert(0u32 & b == 0) by (bit_vector);
            }
            assert(flags_in::<F>(0) =~= Set::<F>::empty());
            let m = F::spec_mask();
            assert(0u32 & m == 0) by (bit_vector);
        }
        FlagSet { bits: 0, kind: PhantomData }
    }

    /// Keep the bits of `word` that belong to a flag and drop all others.
    pub fn from_bits_truncate(word: u32) -> (set: Self)
        ensures
            set.wf(),
            set@ == flags_in::<F>(word),
            set == Self::spec_from_bits_truncate(word),
    {
        proof {
            Self::lemma_truncated(word);
        }
        FlagSet { bits: word & F::mask(), kind: PhantomData }
    }

    /// The set as a wire word.
    pub fn bits(&self) -> (word: u32)
        ensures
            word == self.spec_bits(),
            self.wf(),
            word & F::spec_mask() == word,
            flags_in::<F>(word) == self@,
    {
        proof {
            use_type_invariant(self);
        }
        self.bits
    }

    /// Whether `flag` is in the set.
    pub fn contains(&self, flag: F) -> (found: bool)
        ensures
            found == self@.contains(flag),
    {
        self.bits & flag.bit() != 0
    }

    /// Whether the set has no flag.
    pub fn is_empty(&self) -> (none: bool)
        ensures
            none <==> self@ == Set::<F>::empty(),
    {
        proof {
            use_type_invariant(self);
            if self@ == Set::<F>::empty() {
                let x = self.bits;
                let m = F::spec_mask();
                assert(0u32 & m == 0) by (bit_vector);
                assert forall|f: F| (x & #[trigger] f.spec_bit() != 0) == (0u32 & f.spec_bit() != 0) by {
                    let b = f.spec_bit();
                    assert(0u32 & b == 0) by (bit_vector);
                    assert(!self@.contains(f));
                }
                F::lemma_word_is_its_flags(x, 0);
            } else {
                let f = choose|f: F| self@.contains(f);
                if self@ != Set::<F>::empty() && !self@.contains(f) {
                    assert(self@ =~= Set::<F>::empty());
                }
                let b = f.spec_bit();
                assert(0u32 & b == 0) by (bit_vector);
            }
        }
        self.bits == 0
    }

    /// The flags of both sets.
    pub fn union(self, other: Self) -> (set: Self)
        ensures
            set.wf(),
            set@ == self@.union(other@),
            set == self.spec_union(other),
    {
        proof {
            use_type_invariant(self);
            use_type_invariant(other);
            Self::lemma_union(self, other);
        }
        FlagSet { bits: self.bits | other.bits, kind: PhantomData }
    }

    /// The set whose word has the bits of both.
    pub closed spec fn spec_union(self, other: Self) -> Self {
        FlagSet { bits: self.bits | other.bits, kind: PhantomData }
    }

    /// Cutting a word down to the mask keeps the flags in it.
    pub proof fn lemma_truncated(word: u32)
        ensures
            Self::spec_from_bits_truncate(word).wf(),
            Self::spec_from_bits_truncate(word)@ == flags_in::<F>(word),
            Self::spec_from_bits_truncate(word).spec_bits() == word & F::spec_mask(),
    {
        let m = F::spec_mask();
        assert((word & m) & m == word & m) by (bit_vector);
        assert forall|f: F|
            flags_in::<F>(word & m).contains(f) == flags_in::<F>(word).contains(f) by {
            F::lemma_bits_are_separate(f, f);
            let b = f.spec_bit();
            assert((word & m) & b == word & b) by (bit_vector)
                requires
                    b & m == b,
            ;
        }
        assert(flags_in::<F>(word & m) =~= flags_in::<F>(word));
    }

    /// The word of a union has the bits of both words.
    pub proof fn lemma_union_word(a: Self, b: Self)
        ensures
            a.spec_union(b).spec_bits() == a.spec_bits() | b.spec_bits(),
    {
    }

    /// The bitwise union of two words holds the flags of both.
    pub proof fn lemma_union(a: Self, b: Self)
        requires
            a.wf(),
            b.wf(),
        ensures
            a.spec_union(b).wf(),
            a.spec_union(b)@ == a@.union(b@),
    {
        let x = a.bits;
        let y = b.bits;
        let m = F::spec_mask();
        assert((x | y) & m == x | y) by (bit_vector)
            requires
                x & m == x,
                y & m == y,
        ;
        assert forall|f: F| flags_in::<F>(x | y).contains(f) == a@.union(b@).contains(f) by {
            let c = f.spec_bit();
            assert((x | y) & c != 0 <==> (x & c != 0 || y & c != 0)) by (bit_vector);
        }
        assert(flags_in::<F>(x | y) =~= a@.union(b@));
    }

    /// Two sets with the same flags are the same set, with the same wire word.
    pub proof fn law_flags_fix_the_word(a: Self, b: Self)
        requires
            a.wf(),
            b.wf(),
            a@ == b@,
        ensures
            a == b,
            a.spec_bits() == b.spec_bits(),
    {
        assert forall|f: F|
            (a.bits & #[trigger] f.spec_bit() != 0) == (b.bits & f.spec_bit() != 0) by {
            assert(flags_in::<F>(a.bits).contains(f) == flags_in::<F>(b.bits).contains(f));
        }
        F::lemma_word_is_its_flags(a.bits, b.bits);
    }

    /// Reading back the word of a set gives the set.
    pub proof fn law_bits_round_trip(set: Self)
        requires
            set.wf(),
        ensures
            Self::spec_from_bits_truncate(set.spec_bits()) == set,
    {
    }

    /// Bits that belong to no flag never survive: truncating is the same with
    /// and without them.
    pub proof fn law_unknown_bits_are_dropped(word: u32, unknown: u32)
        requires
            unknown & F::spec_mask() == 0,
        ensures
            Self::spec_from_bits_truncate(word | unknown) == Self::spec_from_bits_truncate(word),
    {
        let m = F::spec_mask();
        assert((word | unknown) & m == word & m) by (bit_vector)
            requires
                unknown & m == 0,
        ;
    }
}

/// What can stand for a set of flags: the set itself, or one flag.
pub trait IntoFlags<F: Flag>: Sized {
    /// The set that the value stands for.
    spec fn spec_into_flags(self) -> FlagSet<F>;

    /// The flags that the value stands for.
    spec fn stands_for(self) -> Set<F>;

    /// The set that the value stands for.
    fn into_flags(self) -> (set: FlagSet<F>)
        ensures
            set == self.spec_into_flags(),
            set@ == self.stands_for(),
            set.wf(),
    ;
}

impl<F: Flag> IntoFlags<F> for FlagSet<F> {
    open spec fn spec_into_flags(self) -> FlagSet<F> {
        self
    }

    open spec fn stands_for(self) -> Set<F> {
        self@
    }

    fn into_flags(self) -> (set: FlagSet<F>) {
        proof {
            use_type_invariant(self);
        }
        self
    }
}

impl<F: Flag> IntoFlags<F> for F {
    open spec fn spec_into_flags(self) -> FlagSet<F> {
        FlagSet::spec_from_bits_truncate(self.spec_bit())
    }

    open spec fn stands_for(self) -> Set<F> {
        set![self]
    }

    fn into_flags(self) -> (set: FlagSet<F>) {
        proof {
            lemma_singleton(self);
        }
        FlagSet::from_bits_truncate(self.bit())
    }
}

/// The set made of one flag holds that flag and no other.
pub proof fn lemma_singleton<F: Flag>(flag: F)
    ensures
        flags_in::<F>(flag.spec_bit()) == set![flag],
        FlagSet::<F>::spec_from_bits_truncate(flag.spec_bit())@ == set![flag],
        FlagSet::<F>::spec_from_bits_truncate(flag.spec_bit()).wf(),
        FlagSet::<F>::spec_from_bits_truncate(flag.spec_bit()).spec_bits() == flag.spec_bit(),
{
    assert forall|f: F| flags_in::<F>(flag.spec_bit()).contains(f) == (f == flag) by {
        F::lemma_bits_are_separate(flag, f);
    }
    assert(flags_in::<F>(flag.spec_bit()) =~= set![flag]);
    FlagSet::<F>::lemma_truncated(flag.spec_bit());
    F::lemma_bits_are_separate(flag, flag);
}

impl<F: Flag> BitOr<F> for FlagSet<F> {
    type Output = FlagSet<F>;

    fn bitor(self, flag: F) -> (set: FlagSet<F>)
        ensures
            set@ == self@.insert(flag),
    {
        let one: FlagSet<F> = flag.into_flags();
        assert(self@.union(one@) =~= self@.insert(flag)) by {
            lemma_singleton(flag);
        }
        self.union(one)
    }
}

impl<F: Flag> BitOrSpecImpl<F> for FlagSet<F> {
    open spec fn obeys_bitor_spec() -> bool {
        true
    }

    open spec fn bitor_req(self, flag: F) -> bool {
        true
    }

    open spec fn bitor_spec(self, flag: F) -> FlagSet<F> {
        self.spec_union(flag.spec_into_flags())
    }
}

impl<F: Flag> BitOr for FlagSet<F> {
    type Output = FlagSet<F>;

    fn bitor(self, other: FlagSet<F>) -> (set: FlagSet<F>)
        ensures
            set@ == self@.union(other@),
    {
        self.union(other)
    }
}

impl<F: Flag> BitOrSpecImpl for FlagSet<F> {
    open spec fn obeys_bitor_spec() -> bool {
        true
    }

    open spec fn bitor_req(self, other: FlagSet<F>) -> bool {
        true
    }

    open spec fn bitor_spec(self, other: FlagSet<F>) -> FlagSet<F> {
        self.spec_union(other)
    }
}

} // verus!
