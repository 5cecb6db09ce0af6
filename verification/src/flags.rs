//! The per-server settings of TikTok embeds, stored as a bit set.
use vstd::prelude::*;

verus! {

/// Flags for TikTok embeds.
#[derive(Debug, Copy, Clone, PartialEq, Eq, Structural)]
pub struct TikTokEmbedFlags {
    bits: u32,
}

/// The bit saying whether embeds are enabled.
pub const ENABLED_BIT: u32 = 1;

/// The bit saying whether the bot deletes the messages it embeds.
pub const DELETE_LINK_BIT: u32 = 2;

/// Every bit that has a meaning.
pub const ALL_BITS: u32 = 3;

/// Why a stored value is not a set of flags.
#[derive(Debug, Copy, Clone, PartialEq, Eq, Structural)]
pub enum FlagsColumnError {
    /// The value is not a `u32`, or has bits without a meaning.
    OutOfRange(i64),
}

impl TikTokEmbedFlags {
    /// The bits of this set.
    pub closed spec fn bits_spec(self) -> u32 {
        self.bits
    }

    /// Whether embeds are enabled.
    pub open spec fn is_enabled(self) -> bool {
        self.bits_spec() & ENABLED_BIT != 0
    }

    /// Whether source messages are deleted.
    pub open spec fn deletes_link(self) -> bool {
        self.bits_spec() & DELETE_LINK_BIT != 0
    }

    /// Every set holds only bits that have a meaning.
    pub open spec fn wf(self) -> bool {
        self.bits_spec() & !ALL_BITS == 0
    }

    /// The empty set.
    pub fn empty() -> (r: Self)
        ensures
            r.bits_spec() == 0,
            r.wf(),
    {
        proof {
            assert(0u32 & !3u32 == 0) by (bit_vector);
        }
        TikTokEmbedFlags { bits: 0 }
    }

    /// The set holding only "enabled".
    pub fn enabled() -> (r: Self)
        ensures
            r.bits_spec() == ENABLED_BIT,
            r.wf(),
    {
        proof {
            assert(1u32 & !3u32 == 0) by (bit_vector);
        }
        TikTokEmbedFlags { bits: ENABLED_BIT }
    }

    /// The set holding only "delete link".
    pub fn delete_link() -> (r: Self)
        ensures
            r.bits_spec() == DELETE_LINK_BIT,
            r.wf(),
    {
        proof {
            assert(2u32 & !3u32 == 0) by (bit_vector);
        }
        TikTokEmbedFlags { bits: DELETE_LINK_BIT }
    }

    /// The bits of this set.
    pub fn bits(&self) -> (r: u32)
        ensures
            r == self.bits_spec(),
    {
        self.bits
    }

    /// The set with the bits `bits`; `None` when a bit has no meaning.
    pub fn from_bits(bits: u32) -> (r: Option<Self>)
        ensures
            r is Some <==> bits & !ALL_BITS == 0,
            r matches Some(f) ==> f.bits_spec() == bits && f.wf(),
    {
        if bits & !ALL_BITS == 0 {
            Some(TikTokEmbedFlags { bits })
        } else {
            None
        }
    }

    /// Whether every flag of `other` is in this set.
    pub fn contains(&self, other: Self) -> (r: bool)
        ensures
            r == (self.bits_spec() & other.bits_spec() == other.bits_spec()),
    {
        self.bits & other.bits == other.bits
    }

    /// Adds the flags of `other`.
    pub fn insert(&mut self, other: Self)
        requires
            old(self).wf(),
            other.wf(),
        ensures
            final(self).bits_spec() == old(self).bits_spec() | other.bits_spec(),
            final(self).wf(),
    {
        let a = self.bits;
        let b = other.bits;
        proof {
            assert(a & !3u32 == 0 && b & !3u32 == 0 ==> (a | b) & !3u32 == 0) by (bit_vector);
        }
        self.bits = a | b;
    }

    /// Removes the flags of `other`.
    pub fn remove(&mut self, other: Self)
        requires
            old(self).wf(),
        ensures
            final(self).bits_spec() == old(self).bits_spec() & !other.bits_spec(),
            final(self).wf(),
    {
        let a = self.bits;
        let b = other.bits;
        proof {
            assert(a & !3u32 == 0 ==> (a & !b) & !3u32 == 0) by (bit_vector);
        }
        self.bits = a & !b;
    }

    /// The value stored for this set.
    pub fn to_column_value(&self) -> (r: i64)
        ensures
            r == self.bits_spec(),
    {
        self.bits as i64
    }

    /// The set a stored value holds: the value must be a `u32` whose bits all
    /// have a meaning.
    pub fn from_column_value(value: i64) -> (r: Result<Self, FlagsColumnError>)
        ensures
            (0 <= value <= u32::MAX && (value as u32) & !ALL_BITS == 0) ==> (r matches Ok(f)
                && f.bits_spec() == value && f.wf()),
            !(0 <= value <= u32::MAX && (value as u32) & !ALL_BITS == 0) ==> r == Err::<Self, FlagsColumnError>(
                FlagsColumnError::OutOfRange(value),
            ),
    {
        if value < 0 || value > 0xFFFF_FFFF {
            return Err(FlagsColumnError::OutOfRange(value));
        }
        let v = value as u32;
        match Self::from_bits(v) {
            Some(f) => Ok(f),
            None => Err(FlagsColumnError::OutOfRange(v as i64)),
        }
    }
}

impl Default for TikTokEmbedFlags {
    fn default() -> (r: Self)
        ensures
            r.bits_spec() == 0,
            r.wf(),
    {
        Self::empty()
    }
}

/// The flags a settings command sets and clears: each option given as `true`
/// is set, each given as `false` is cleared, and an option left out changes nothing.
pub fn embed_flag_changes(enable: Option<bool>, delete_link: Option<bool>) -> (r: (
    TikTokEmbedFlags,
    TikTokEmbedFlags,
))
    ensures
        r.0.wf(),
        r.1.wf(),
        r.0.bits_spec() == (if enable == Some(true) { ENABLED_BIT } else { 0 }) | (if delete_link
            == Some(true) {
            DELETE_LINK_BIT
        } else {
            0
        }),
        r.1.bits_spec() == (if enable == Some(false) { ENABLED_BIT } else { 0 }) | (if delete_link
            == Some(false) {
            DELETE_LINK_BIT
        } else {
            0
        }),
{
    let mut set_flags = TikTokEmbedFlags::empty();
    let mut unset_flags = TikTokEmbedFlags::empty();
    proof {
        assert(forall|a: u32| #![auto] 0u32 | a == a) by (bit_vector);
        assert(forall|a: u32| #![auto] a | 0u32 == a) by (bit_vector);
    }
    if let Some(enable) = enable {
        if enable {
            set_flags.insert(TikTokEmbedFlags::enabled());
        } else {
            unset_flags.insert(TikTokEmbedFlags::enabled());
        }
    }
    if let Some(enable) = delete_link {
        if enable {
            set_flags.insert(TikTokEmbedFlags::delete_link());
        } else {
            unset_flags.insert(TikTokEmbedFlags::delete_link());
        }
    }
    (set_flags, unset_flags)
}

/// The text of a setting in the settings summary.
pub fn bool_to_str(value: bool) -> (r: &'static str)
    ensures
        r@ == (if value { "True"@ } else { "False"@ }),
{
    if value {
        "True"
    } else {
        "False"
    }
}

/// Reading back a stored set gives the set that was stored: the stored value
/// is a `u32` with only meaningful bits, and a set is determined by its bits.
pub proof fn law_flags_column_roundtrip(f: TikTokEmbedFlags, g: TikTokEmbedFlags)
    requires
        f.wf(),
        g.bits_spec() == f.bits_spec() as i64,
    ensures
        0 <= f.bits_spec() as i64 <= u32::MAX,
        ((f.bits_spec() as i64) as u32) & !ALL_BITS == 0,
        g == f,
{
}

/// After inserting a set, a set contains it; after removing a set, none of its
/// flags are left.
pub proof fn law_insert_remove(a: u32, b: u32)
    ensures
        (a | b) & b == b,
        (a & !b) & b == 0,
{
    assert((a | b) & b == b) by (bit_vector);
    assert((a & !b) & b == 0) by (bit_vector);
}

} // verus!
