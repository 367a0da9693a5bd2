//! Typed view of the machine status register: a point-in-time snapshot of the
//! raw word, accessors for its named fields, and the encode patterns that a
//! hardware backend feeds to the atomic set-bits / clear-bits primitives.
//!
//! Every field position below is a single named constant, so an alias and the
//! concrete accessor it stands for cannot silently diverge.

use vstd::prelude::*;

use crate::bits::bit;
use crate::bits::decode_flag;
use crate::bits::extract_field;
use crate::bits::field_bits;
use crate::bits::lemma_field_round_trip;
use crate::bits::lemma_flag_round_trip;
use crate::bits::low_mask;
use crate::bits::set_bit_to;
use crate::bits::set_bits_range;
use crate::bits::with_bit;
use crate::bits::with_field;

verus! {

/// User Interrupt Enable bit position.
pub const UIE_BIT: usize = 0;

/// Supervisor Interrupt Enable bit position.
pub const SIE_BIT: usize = 1;

/// Machine Interrupt Enable bit position.
pub const MIE_BIT: usize = 3;

/// User Previous Interrupt Enable bit position.
pub const UPIE_BIT: usize = 4;

/// Supervisor Previous Interrupt Enable bit position.
pub const SPIE_BIT: usize = 5;

/// Machine Previous Interrupt Enable bit position.
pub const MPIE_BIT: usize = 7;

/// Current-privilege-level Interrupt Enable alias. This crate is built for
/// machine-mode context, so the alias is fixed to the machine-level bit; it is
/// defined from the same constant so the two cannot diverge.
pub const XIE_BIT: usize = MIE_BIT;

/// Current-privilege-level Previous Interrupt Enable alias, fixed to the
/// machine-level bit for the same reason as `XIE_BIT`.
pub const XPIE_BIT: usize = MPIE_BIT;

/// Supervisor Previous Privilege Mode bit position.
pub const SPP_BIT: usize = 8;

/// Low bit (inclusive) of the Machine Previous Privilege Mode field.
pub const MPP_LOW_BIT: usize = 11;

/// High bit (exclusive) of the Machine Previous Privilege Mode field.
pub const MPP_HIGH_BIT: usize = 13;

/// The one raw pattern of the Machine Previous Privilege Mode field that
/// encodes no privilege level. Correct hardware never produces it, and no
/// encode path of this crate can construct it.
pub const MPP_INVALID_CODE: usize = 2;

/// A point-in-time snapshot of the machine status register: one raw word
/// captured by a single atomic read. It is a copy, not a live view — later
/// mutation of the live register does not change it.
#[derive(Clone, Copy, Debug)]
pub struct Mstatus {
    bits: usize,
}

impl View for Mstatus {
    type V = usize;

    closed spec fn view(&self) -> usize {
        self.bits
    }
}

/// Machine Previous Privilege Mode: the privilege level the core was in
/// immediately before the most recent machine-level trap.
#[derive(Clone, Copy, Debug, PartialEq, Eq, Structural)]
pub enum MPP {
    Machine,
    Supervisor,
    User,
}

/// Supervisor Previous Privilege Mode: the privilege level the core was in
/// immediately before the most recent supervisor-level trap.
#[derive(Clone, Copy, Debug, PartialEq, Eq, Structural)]
pub enum SPP {
    Supervisor,
    User,
}

/// The 2-bit hardware encoding of a Machine Previous Privilege Mode variant.
/// The pattern `0b10` is not in its range.
pub open spec fn mpp_code(m: MPP) -> usize {
    match m {
        MPP::User => 0,
        MPP::Supervisor => 1,
        MPP::Machine => 3,
    }
}

/// The 1-bit hardware encoding of a Supervisor Previous Privilege Mode
/// variant.
pub open spec fn spp_code(s: SPP) -> usize {
    match s {
        SPP::User => 0,
        SPP::Supervisor => 1,
    }
}

/// The raw Machine Previous Privilege Mode field of a register word.
pub open spec fn mpp_field(w: usize) -> usize {
    field_bits(w, MPP_LOW_BIT, MPP_HIGH_BIT)
}

/// Whether the Machine Previous Privilege Mode field of `w` holds one of the
/// three defined encodings. Correct hardware maintains this as an invariant.
pub open spec fn mpp_valid(w: usize) -> bool {
    mpp_field(w) != MPP_INVALID_CODE
}

/// The Supervisor Previous Privilege Mode encoded in a register word.
pub open spec fn spec_spp(w: usize) -> SPP {
    if bit(w, SPP_BIT) {
        SPP::Supervisor
    } else {
        SPP::User
    }
}

impl Mstatus {
    /// Wrap a raw register word read from the hardware into a snapshot.
    pub fn from_bits(bits: usize) -> (r: Mstatus)
        ensures
            r@ == bits,
    {
        Mstatus { bits }
    }

    /// The raw word this snapshot was taken from.
    pub fn bits(&self) -> (r: usize)
        ensures
            r == self@,
    {
        self.bits
    }

    /// User Interrupt Enable
    pub fn uie(&self) -> (r: bool)
        ensures
            r == bit(self@, UIE_BIT),
    {
        decode_flag(self.bits, UIE_BIT)
    }

    /// Supervisor Interrupt Enable
    pub fn sie(&self) -> (r: bool)
        ensures
            r == bit(self@, SIE_BIT),
    {
        decode_flag(self.bits, SIE_BIT)
    }

    /// Machine Interrupt Enable
    pub fn mie(&self) -> (r: bool)
        ensures
            r == bit(self@, MIE_BIT),
    {
        decode_flag(self.bits, MIE_BIT)
    }

    /// User Previous Interrupt Enable
    pub fn upie(&self) -> (r: bool)
        ensures
            r == bit(self@, UPIE_BIT),
    {
        decode_flag(self.bits, UPIE_BIT)
    }

    /// Supervisor Previous Interrupt Enable
    pub fn spie(&self) -> (r: bool)
        ensures
            r == bit(self@, SPIE_BIT),
    {
        decode_flag(self.bits, SPIE_BIT)
    }

    /// Machine Previous Interrupt Enable
    pub fn mpie(&self) -> (r: bool)
        ensures
            r == bit(self@, MPIE_BIT),
    {
        decode_flag(self.bits, MPIE_BIT)
    }

    /// Supervisor Previous Privilege Mode
    pub fn spp(&self) -> (r: SPP)
        ensures
            r == spec_spp(self@),
    {
        if decode_flag(self.bits, SPP_BIT) {
            SPP::Supervisor
        } else {
            SPP::User
        }
    }

    /// Machine Previous Privilege Mode.
    ///
    /// The raw pattern `0b10` encodes no privilege level; correct hardware
    /// never produces it, and a caller must establish that the snapshot is
    /// free of it (`mpp_valid`). A caller that cannot uses [`Self::mpp_checked`].
    pub fn mpp(&self) -> (r: MPP)
        requires
            mpp_valid(self@),
        ensures
            mpp_code(r) == mpp_field(self@),
    {
        let f = extract_field(self.bits, MPP_LOW_BIT, MPP_HIGH_BIT);
        proof {
            let w: usize = self.bits;
            assert(field_bits(w, MPP_LOW_BIT, MPP_HIGH_BIT) <= 3) by (bit_vector);
        }
        if f == 0 {
            MPP::User
        } else if f == 1 {
            MPP::Supervisor
        } else {
            MPP::Machine
        }
    }

    /// Machine Previous Privilege Mode, with the invariant violation made
    /// explicit: `None` exactly when the field holds the undefined pattern
    /// `0b10`, which signals corrupted hardware state rather than a normal
    /// error.
    pub fn mpp_checked(&self) -> (r: Option<MPP>)
        ensures
            r is Some <==> mpp_valid(self@),
            mpp_valid(self@) ==> (r matches Some(m) && mpp_code(m) == mpp_field(self@)),
    {
        let f = extract_field(self.bits, MPP_LOW_BIT, MPP_HIGH_BIT);
        proof {
            let w: usize = self.bits;
            assert(field_bits(w, MPP_LOW_BIT, MPP_HIGH_BIT) <= 3) by (bit_vector);
        }
        if f == 0 {
            Some(MPP::User)
        } else if f == 1 {
            Some(MPP::Supervisor)
        } else if f == 3 {
            Some(MPP::Machine)
        } else {
            None
        }
    }

    /// Current-privilege-level Interrupt Enable. Fixed to the machine-level
    /// bit in this crate (see `XIE_BIT`); for every word it observes exactly
    /// what [`Self::mie`] observes.
    pub fn xie(&self) -> (r: bool)
        ensures
            r == bit(self@, XIE_BIT),
    {
        self.mie()
    }

    /// Set the current-privilege-level Previous Interrupt Enable flag of this
    /// snapshot to `val`, leaving every other bit unchanged.
    pub fn set_xpie(&mut self, val: bool)
        ensures
            final(self)@ == with_bit(old(self)@, XPIE_BIT, val),
            bit(final(self)@, XPIE_BIT) == val,
    {
        proof {
            lemma_flag_round_trip(self.bits, XPIE_BIT, val);
        }
        self.bits = set_bit_to(self.bits, XPIE_BIT, val);
    }

    /// Set the current-privilege-level Interrupt Enable flag of this snapshot
    /// to `val`, leaving every other bit unchanged.
    pub fn set_xie(&mut self, val: bool)
        ensures
            final(self)@ == with_bit(old(self)@, XIE_BIT, val),
            bit(final(self)@, XIE_BIT) == val,
    {
        proof {
            lemma_flag_round_trip(self.bits, XIE_BIT, val);
        }
        self.bits = set_bit_to(self.bits, XIE_BIT, val);
    }

    /// Set the Machine Previous Privilege Mode field of this snapshot to
    /// `val`, leaving every bit outside the field unchanged. Only the three
    /// defined encodings can be written, since `MPP` has no fourth variant.
    pub fn set_mpp(&mut self, val: MPP)
        ensures
            final(self)@ == with_field(old(self)@, MPP_LOW_BIT, MPP_HIGH_BIT, mpp_code(val)),
            mpp_field(final(self)@) == mpp_code(val),
            mpp_valid(final(self)@),
    {
        let code = mpp_code_value(val);
        proof {
            assert(low_mask((MPP_HIGH_BIT - MPP_LOW_BIT) as usize) == 3) by (bit_vector);
            lemma_field_round_trip(self.bits, MPP_LOW_BIT, MPP_HIGH_BIT, code);
        }
        self.bits = set_bits_range(self.bits, MPP_LOW_BIT, MPP_HIGH_BIT, code);
    }
}

/// The hardware encoding of a Machine Previous Privilege Mode variant, as an
/// executable value.
pub fn mpp_code_value(m: MPP) -> (r: usize)
    ensures
        r == mpp_code(m),
{
    match m {
        MPP::User => 0,
        MPP::Supervisor => 1,
        MPP::Machine => 3,
    }
}

/// The hardware encoding of a Supervisor Previous Privilege Mode variant, as
/// an executable value.
pub fn spp_code_value(s: SPP) -> (r: usize)
    ensures
        r == spp_code(s),
{
    match s {
        SPP::User => 0,
        SPP::Supervisor => 1,
    }
}

/// The bit pattern that writes Machine Previous Privilege Mode `val` into a
/// zeroed field: the variant's code left-shifted into position, for the
/// atomic set-bits primitive.
pub fn mpp_set_pattern(val: MPP) -> (r: usize)
    ensures
        r == (mpp_code(val) << MPP_LOW_BIT),
{
    let code = mpp_code_value(val);
    code << MPP_LOW_BIT
}

/// The bit pattern that writes Supervisor Previous Privilege Mode `val` into
/// a zeroed field, for the atomic set-bits primitive.
pub fn spp_set_pattern(val: SPP) -> (r: usize)
    ensures
        r == (spp_code(val) << SPP_BIT),
{
    let code = spp_code_value(val);
    code << SPP_BIT
}

/// Law: no Machine Previous Privilege Mode variant encodes to the undefined
/// pattern `0b10` — the encode path cannot construct it.
pub proof fn lemma_mpp_code_never_invalid(m: MPP)
    ensures
        mpp_code(m) != MPP_INVALID_CODE,
{
}

/// Law: the hardware encoding of Machine Previous Privilege Mode is
/// injective — decoding a field value pins the variant.
pub proof fn lemma_mpp_code_injective(m: MPP, n: MPP)
    requires
        mpp_code(m) == mpp_code(n),
    ensures
        m == n,
{
}

/// Law: writing a Machine Previous Privilege Mode variant into any word and
/// decoding the field back yields exactly the variant written, and the
/// resulting word satisfies the field invariant.
pub proof fn lemma_mpp_round_trip(w: usize, m: MPP)
    ensures
        mpp_field(with_field(w, MPP_LOW_BIT, MPP_HIGH_BIT, mpp_code(m))) == mpp_code(m),
        mpp_valid(with_field(w, MPP_LOW_BIT, MPP_HIGH_BIT, mpp_code(m))),
{
    assert(low_mask((MPP_HIGH_BIT - MPP_LOW_BIT) as usize) == 3) by (bit_vector);
    lemma_field_round_trip(w, MPP_LOW_BIT, MPP_HIGH_BIT, mpp_code(m));
    lemma_mpp_code_never_invalid(m);
}

/// Law: the current-privilege-level aliases observe exactly the machine-level
/// bits — for every word, the alias accessor and the concrete machine-level
/// accessor read the same bit position.
pub proof fn lemma_alias_resolves_to_machine_level(w: usize)
    ensures
        bit(w, XIE_BIT) == bit(w, MIE_BIT),
        bit(w, XPIE_BIT) == bit(w, MPIE_BIT),
{
}

} // verus!
