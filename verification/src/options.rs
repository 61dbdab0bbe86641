//! The options a cursor is opened with.
use crate::flags::{lemma_singleton, Flag, FlagSet, IntoFlags};
use std::ops::BitOr;
use vstd::prelude::*;
use vstd::std_specs::ops::BitOrSpecImpl;

verus! {

/// Scroll options for `sp_cursoropen` / `sp_cursorprepexec`.
///
/// Values may be `OR`'d together (e.g. `Fast | ForwardOnly`), which gives a
/// [`FlagSet`].
#[derive(Debug, Clone, Copy, PartialEq, Eq)]
pub enum CursorScrollOptions {
    /// Keyset-driven cursor.
    Keyset,
    /// Dynamic cursor — rows refresh on each fetch.
    Dynamic,
    /// Forward-only cursor — most efficient for linear scans.
    ForwardOnly,
    /// Static (snapshot) cursor.
    Static,
    /// Keyset cursor with parameterized open.
    Fast,
    /// Statement has bound parameters.
    ParameterizedStmt,
    /// Server-pregenerated parameterized auto-open.
    AutoFetch,
    /// Client caches results (advisory — negotiated).
    AutoClose,
    /// Client-side check for missing rows.
    CheckAcceptedTypes,
    /// Server-side mass-update hint.
    KeysetDrivenPlusParams,
}

/// All bits of [`CursorScrollOptions`].
pub const SCROLL_MASK: u32 = 0xF81F;

impl Flag for CursorScrollOptions {
    open spec fn spec_bit(self) -> u32 {
        match self {
            CursorScrollOptions::Keyset => 0x0001,
            CursorScrollOptions::Dynamic => 0x0002,
            CursorScrollOptions::ForwardOnly => 0x0004,
            CursorScrollOptions::Static => 0x0008,
            CursorScrollOptions::Fast => 0x0010,
            CursorScrollOptions::ParameterizedStmt => 0x1000,
            CursorScrollOptions::AutoFetch => 0x2000,
            CursorScrollOptions::AutoClose => 0x4000,
            CursorScrollOptions::CheckAcceptedTypes => 0x8000,
            CursorScrollOptions::KeysetDrivenPlusParams => 0x0800,
        }
    }

    open spec fn spec_mask() -> u32 {
        SCROLL_MASK
    }

    fn bit(self) -> (bit: u32) {
        match self {
            CursorScrollOptions::Keyset => 0x0001,
            CursorScrollOptions::Dynamic => 0x0002,
            CursorScrollOptions::ForwardOnly => 0x0004,
            CursorScrollOptions::Static => 0x0008,
            CursorScrollOptions::Fast => 0x0010,
            CursorScrollOptions::ParameterizedStmt => 0x1000,
            CursorScrollOptions::AutoFetch => 0x2000,
            CursorScrollOptions::AutoClose => 0x4000,
            CursorScrollOptions::CheckAcceptedTypes => 0x8000,
            CursorScrollOptions::KeysetDrivenPlusParams => 0x0800,
        }
    }

    fn mask() -> (mask: u32) {
        SCROLL_MASK
    }

    proof fn lemma_bits_are_separate(a: Self, b: Self) {
        let x = a.spec_bit();
        let y = b.spec_bit();
        assert(x & 0xF81F == x && (x & y != 0) == (x == y)) by (bit_vector)
            requires
                x == 1 || x == 2 || x == 4 || x == 8 || x == 0x10 || x == 0x1000 || x == 0x2000 || x
                    == 0x4000 || x == 0x8000 || x == 0x800,
                y == 1 || y == 2 || y == 4 || y == 8 || y == 0x10 || y == 0x1000 || y == 0x2000 || y
                    == 0x4000 || y == 0x8000 || y == 0x800,
        ;
    }

    proof fn lemma_word_is_its_flags(x: u32, y: u32) {
        assert((x & CursorScrollOptions::Keyset.spec_bit() != 0) == (y
            & CursorScrollOptions::Keyset.spec_bit() != 0));
        assert((x & CursorScrollOptions::Dynamic.spec_bit() != 0) == (y
            & CursorScrollOptions::Dynamic.spec_bit() != 0));
        assert((x & CursorScrollOptions::ForwardOnly.spec_bit() != 0) == (y
            & CursorScrollOptions::ForwardOnly.spec_bit() != 0));
        assert((x & CursorScrollOptions::Static.spec_bit() != 0) == (y
            & CursorScrollOptions::Static.spec_bit() != 0));
        assert((x & CursorScrollOptions::Fast.spec_bit() != 0) == (y
            & CursorScrollOptions::Fast.spec_bit() != 0));
        assert((x & CursorScrollOptions::ParameterizedStmt.spec_bit() != 0) == (y
            & CursorScrollOptions::ParameterizedStmt.spec_bit() != 0));
        assert((x & CursorScrollOptions::AutoFetch.spec_bit() != 0) == (y
            & CursorScrollOptions::AutoFetch.spec_bit() != 0));
        assert((x & CursorScrollOptions::AutoClose.spec_bit() != 0) == (y
            & CursorScrollOptions::AutoClose.spec_bit() != 0));
        assert((x & CursorScrollOptions::CheckAcceptedTypes.spec_bit() != 0) == (y
            & CursorScrollOptions::CheckAcceptedTypes.spec_bit() != 0));
        assert((x & CursorScrollOptions::KeysetDrivenPlusParams.spec_bit() != 0) == (y
            & CursorScrollOptions::KeysetDrivenPlusParams.spec_bit() != 0));
        assert(x == y) by (bit_vector)
            requires
                x & 0xF81F == x,
                y & 0xF81F == y,
                (x & 0x0001 != 0) == (y & 0x0001 != 0),
                (x & 0x0002 != 0) == (y & 0x0002 != 0),
                (x & 0x0004 != 0) == (y & 0x0004 != 0),
                (x & 0x0008 != 0) == (y & 0x0008 != 0),
                (x & 0x0010 != 0) == (y & 0x0010 != 0),
                (x & 0x1000 != 0) == (y & 0x1000 != 0),
                (x & 0x2000 != 0) == (y & 0x2000 != 0),
                (x & 0x4000 != 0) == (y & 0x4000 != 0),
                (x & 0x8000 != 0) == (y & 0x8000 != 0),
                (x & 0x0800 != 0) == (y & 0x0800 != 0),
        ;
    }
}

impl BitOr for CursorScrollOptions {
    type Output = FlagSet<CursorScrollOptions>;

    fn bitor(self, other: CursorScrollOptions) -> (set: FlagSet<CursorScrollOptions>)
        ensures
            set@ == set![self, other],
    {
        let first: FlagSet<CursorScrollOptions> = self.into_flags();
        let set = first | other;
        assert(set@ =~= set![self, other]);
        set
    }
}

impl BitOrSpecImpl for CursorScrollOptions {
    open spec fn obeys_bitor_spec() -> bool {
        true
    }

    open spec fn bitor_req(self, other: CursorScrollOptions) -> bool {
        true
    }

    open spec fn bitor_spec(self, other: CursorScrollOptions) -> FlagSet<CursorScrollOptions> {
        IntoFlags::<CursorScrollOptions>::spec_into_flags(self).spec_union(
            IntoFlags::<CursorScrollOptions>::spec_into_flags(other),
        )
    }
}

/// Concurrency options for `sp_cursoropen`.
///
/// Values may be `OR`'d together, which gives a [`FlagSet`].
#[derive(Debug, Clone, Copy, PartialEq, Eq)]
pub enum CursorConcurrencyOptions {
    /// Read-only cursor.
    ReadOnly,
    /// Scroll locks.
    ScrollLocks,
    /// Optimistic concurrency with values.
    OptimisticCc,
    /// Optimistic concurrency with row versions.
    OptimisticCcVal,
    /// Allow_direct — advanced; server-selected for read-only cursors.
    AllowDirect,
    /// Update in place.
    UpdateInPlace,
}

/// All bits of [`CursorConcurrencyOptions`].
pub const CONCURRENCY_MASK: u32 = 0x600F;

impl Flag for CursorConcurrencyOptions {
    open spec fn spec_bit(self) -> u32 {
        match self {
            CursorConcurrencyOptions::ReadOnly => 0x0001,
            CursorConcurrencyOptions::ScrollLocks => 0x0002,
            CursorConcurrencyOptions::OptimisticCc => 0x0004,
            CursorConcurrencyOptions::OptimisticCcVal => 0x0008,
            CursorConcurrencyOptions::AllowDirect => 0x2000,
            CursorConcurrencyOptions::UpdateInPlace => 0x4000,
        }
    }

    open spec fn spec_mask() -> u32 {
        CONCURRENCY_MASK
    }

    fn bit(self) -> (bit: u32) {
        match self {
            CursorConcurrencyOptions::ReadOnly => 0x0001,
            CursorConcurrencyOptions::ScrollLocks => 0x0002,
            CursorConcurrencyOptions::OptimisticCc => 0x0004,
            CursorConcurrencyOptions::OptimisticCcVal => 0x0008,
            CursorConcurrencyOptions::AllowDirect => 0x2000,
            CursorConcurrencyOptions::UpdateInPlace => 0x4000,
        }
    }

    fn mask() -> (mask: u32) {
        CONCURRENCY_MASK
    }

    proof fn lemma_bits_are_separate(a: Self, b: Self) {
        let x = a.spec_bit();
        let y = b.spec_bit();
        assert(x & 0x600F == x && (x & y != 0) == (x == y)) by (bit_vector)
            requires
                x == 1 || x == 2 || x == 4 || x == 8 || x == 0x2000 || x == 0x4000,
                y == 1 || y == 2 || y == 4 || y == 8 || y == 0x2000 || y == 0x4000,
        ;
    }

    proof fn lemma_word_is_its_flags(x: u32, y: u32) {
        assert((x & CursorConcurrencyOptions::ReadOnly.spec_bit() != 0) == (y
            & CursorConcurrencyOptions::ReadOnly.spec_bit() != 0));
        assert((x & CursorConcurrencyOptions::ScrollLocks.spec_bit() != 0) == (y
            & CursorConcurrencyOptions::ScrollLocks.spec_bit() != 0));
        assert((x & CursorConcurrencyOptions::OptimisticCc.spec_bit() != 0) == (y
            & CursorConcurrencyOptions::OptimisticCc.spec_bit() != 0));
        assert((x & CursorConcurrencyOptions::OptimisticCcVal.spec_bit() != 0) == (y
            & CursorConcurrencyOptions::OptimisticCcVal.spec_bit() != 0));
        assert((x & CursorConcurrencyOptions::AllowDirect.spec_bit() != 0) == (y
            & CursorConcurrencyOptions::AllowDirect.spec_bit() != 0));
        assert((x & CursorConcurrencyOptions::UpdateInPlace.spec_bit() != 0) == (y
            & CursorConcurrencyOptions::UpdateInPlace.spec_bit() != 0));
        assert(x == y) by (bit_vector)
            requires
                x & 0x600F == x,
                y & 0x600F == y,
                (x & 0x0001 != 0) == (y & 0x0001 != 0),
                (x & 0x0002 != 0) == (y & 0x0002 != 0),
                (x & 0x0004 != 0) == (y & 0x0004 != 0),
                (x & 0x0008 != 0) == (y & 0x0008 != 0),
                (x & 0x2000 != 0) == (y & 0x2000 != 0),
                (x & 0x4000 != 0) == (y & 0x4000 != 0),
        ;
    }
}

impl BitOr for CursorConcurrencyOptions {
    type Output = FlagSet<CursorConcurrencyOptions>;

    fn bitor(self, other: CursorConcurrencyOptions) -> (set: FlagSet<CursorConcurrencyOptions>)
        ensures
            set@ == set![self, other],
    {
        let first: FlagSet<CursorConcurrencyOptions> = self.into_flags();
        let set = first | other;
        assert(set@ =~= set![self, other]);
        set
    }
}

impl BitOrSpecImpl for CursorConcurrencyOptions {
    open spec fn obeys_bitor_spec() -> bool {
        true
    }

    open spec fn bitor_req(self, other: CursorConcurrencyOptions) -> bool {
        true
    }

    open spec fn bitor_spec(self, other: CursorConcurrencyOptions) -> FlagSet<
        CursorConcurrencyOptions,
    > {
        IntoFlags::<CursorConcurrencyOptions>::spec_into_flags(self).spec_union(
            IntoFlags::<CursorConcurrencyOptions>::spec_into_flags(other),
        )
    }
}

/// A 32-bit word read as a two's-complement signed integer.
pub open spec fn word_to_signed(word: u32) -> int {
    if word < 0x8000_0000 {
        word as int
    } else {
        word - 0x1_0000_0000
    }
}

/// The 32-bit word whose two's-complement reading is `value`.
pub open spec fn signed_to_word(value: i32) -> u32 {
    if value >= 0 {
        value as u32
    } else {
        (value + 0x1_0000_0000) as u32
    }
}

/// The signed integer that carries an options word on the wire.
pub fn flags_to_i32(bits: u32) -> (value: i32)
    ensures
        value == word_to_signed(bits),
{
    assert(bits < 0x8000_0000u32 ==> bits as i32 == bits) by (bit_vector);
    assert(bits >= 0x8000_0000u32 ==> bits as i32 == bits - 0x1_0000_0000) by (bit_vector);
    #[verifier::truncate]
    (bits as i32)
}

/// The options word that a signed integer carries on the wire.
pub fn i32_to_flags(value: i32) -> (bits: u32)
    ensures
        bits == signed_to_word(value),
{
    assert(value >= 0i32 ==> value as u32 == value) by (bit_vector);
    assert(value < 0i32 ==> value as u32 == value + 0x1_0000_0000) by (bit_vector);
    #[verifier::truncate]
    (value as u32)
}

/// The scroll flags in an integer from the server. Bits that mean nothing
/// here are dropped, so that a server may send bits of its own.
pub open spec fn scroll_flags_of(value: i32) -> FlagSet<CursorScrollOptions> {
    FlagSet::spec_from_bits_truncate(signed_to_word(value))
}

/// The concurrency flags in an integer from the server. Bits that mean
/// nothing here are dropped.
pub open spec fn concurrency_flags_of(value: i32) -> FlagSet<CursorConcurrencyOptions> {
    FlagSet::spec_from_bits_truncate(signed_to_word(value))
}

/// The scroll flags in an integer from the server. Bits that mean nothing
/// here are dropped.
pub fn i32_to_scroll_flags(value: i32) -> (set: FlagSet<CursorScrollOptions>)
    ensures
        set == scroll_flags_of(value),
        set.wf(),
        forall|f: CursorScrollOptions|
            #![auto]
            set@.contains(f) <==> signed_to_word(value) & f.spec_bit() != 0,
{
    FlagSet::from_bits_truncate(i32_to_flags(value))
}

/// The concurrency flags in an integer from the server. Bits that mean
/// nothing here are dropped.
pub fn i32_to_cc_flags(value: i32) -> (set: FlagSet<CursorConcurrencyOptions>)
    ensures
        set == concurrency_flags_of(value),
        set.wf(),
        forall|f: CursorConcurrencyOptions|
            #![auto]
            set@.contains(f) <==> signed_to_word(value) & f.spec_bit() != 0,
{
    FlagSet::from_bits_truncate(i32_to_flags(value))
}

/// Options sent to the server and echoed by it unchanged come back as the
/// same sets of flags.
pub proof fn law_options_round_trip(
    scroll: FlagSet<CursorScrollOptions>,
    concurrency: FlagSet<CursorConcurrencyOptions>,
)
    requires
        scroll.wf(),
        concurrency.wf(),
    ensures
        scroll_flags_of(word_to_signed(scroll.spec_bits()) as i32) == scroll,
        concurrency_flags_of(word_to_signed(concurrency.spec_bits()) as i32) == concurrency,
{
    FlagSet::<CursorScrollOptions>::law_bits_round_trip(scroll);
    FlagSet::<CursorConcurrencyOptions>::law_bits_round_trip(concurrency);
}

/// Every 32-bit word survives the trip through a signed integer, and every
/// signed integer the trip through a word.
pub proof fn law_signed_word_round_trip(word: u32, value: i32)
    ensures
        i32::MIN <= word_to_signed(word) <= i32::MAX,
        signed_to_word(word_to_signed(word) as i32) == word,
        word_to_signed(signed_to_word(value)) == value,
{
}

/// Options controlling a newly opened cursor.
///
/// Use [`CursorOpenOptions::new`] to construct, or reach for
/// [`CursorOpenOptions::forward_only_read_only`] for the cheapest sensible
/// default.
#[derive(Debug, Clone, Copy)]
pub struct CursorOpenOptions {
    scroll: FlagSet<CursorScrollOptions>,
    concurrency: FlagSet<CursorConcurrencyOptions>,
}

impl CursorOpenOptions {
    /// The requested scroll flags.
    pub closed spec fn spec_scroll(self) -> FlagSet<CursorScrollOptions> {
        self.scroll
    }

    /// The requested concurrency flags.
    pub closed spec fn spec_concurrency(self) -> FlagSet<CursorConcurrencyOptions> {
        self.concurrency
    }

    /// Build options from explicit scroll / concurrency flag sets.
    pub fn new<S: IntoFlags<CursorScrollOptions>, C: IntoFlags<CursorConcurrencyOptions>>(
        scroll: S,
        concurrency: C,
    ) -> (options: Self)
        ensures
            options.spec_scroll() == scroll.spec_into_flags(),
            options.spec_scroll()@ == scroll.stands_for(),
            options.spec_concurrency() == concurrency.spec_into_flags(),
            options.spec_concurrency()@ == concurrency.stands_for(),
    {
        CursorOpenOptions { scroll: scroll.into_flags(), concurrency: concurrency.into_flags() }
    }

    /// A fast forward-only, read-only cursor — the cheapest option.
    pub fn forward_only_read_only() -> (options: Self)
        ensures
            options.spec_scroll()@ == set![CursorScrollOptions::ForwardOnly],
            options.spec_scroll().spec_bits() == 0x0004,
            options.spec_concurrency()@ == set![CursorConcurrencyOptions::ReadOnly],
            options.spec_concurrency().spec_bits() == 0x0001,
    {
        proof {
            lemma_singleton(CursorScrollOptions::ForwardOnly);
            lemma_singleton(CursorConcurrencyOptions::ReadOnly);
        }
        CursorOpenOptions {
            scroll: CursorScrollOptions::ForwardOnly.into_flags(),
            concurrency: CursorConcurrencyOptions::ReadOnly.into_flags(),
        }
    }

    /// Requested scroll flags (sent to the server; may be negotiated).
    pub fn scroll(&self) -> (set: FlagSet<CursorScrollOptions>)
        ensures
            set == self.spec_scroll(),
            set.wf(),
    {
        proof {
            use_type_invariant(&self.scroll);
        }
        self.scroll
    }

    /// Requested concurrency flags (sent to the server; may be negotiated).
    pub fn concurrency(&self) -> (set: FlagSet<CursorConcurrencyOptions>)
        ensures
            set == self.spec_concurrency(),
            set.wf(),
    {
        proof {
            use_type_invariant(&self.concurrency);
        }
        self.concurrency
    }
}

impl Default for CursorOpenOptions {
    fn default() -> (options: Self)
        ensures
            options.spec_scroll()@ == set![CursorScrollOptions::ForwardOnly],
            options.spec_scroll().spec_bits() == 0x0004,
            options.spec_concurrency()@ == set![CursorConcurrencyOptions::ReadOnly],
            options.spec_concurrency().spec_bits() == 0x0001,
    {
        Self::forward_only_read_only()
    }
}

} // verus!
