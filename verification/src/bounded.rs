//! Bounded integer domains for MIDI fields narrower than their storage.
//!
//! Each domain holds an integer between zero and its maximum. A wider integer
//! enters a domain in one of three ways: `cull` keeps the low bits, `fill`
//! clamps to the maximum, and `try_from` rejects what does not fit.

use vstd::prelude::*;
use vstd::std_specs::convert::FromSpecImpl;
use vstd::std_specs::convert::TryFromSpecImpl;
use crate::error::MidiError;

verus! {

/// Keeps the low bits of a wider integer and discards the rest.
pub trait Cull<T>: Sized {
    /// The value that `cull` gives.
    spec fn cull_spec(wide: T) -> Self;

    fn cull(wide: T) -> (r: Self)
        ensures
            r == Self::cull_spec(wide),
    ;
}

/// Clamps a wider integer to the largest value of the domain.
pub trait Fill<T>: Sized {
    /// The value that `fill` gives.
    spec fn fill_spec(wide: T) -> Self;

    fn fill(wide: T) -> (r: Self)
        ensures
            r == Self::fill_spec(wide),
    ;
}

/// A 4-bit value, 0 to 15.
#[derive(Clone, Copy, Debug, PartialEq, Eq, Structural)]
pub struct U4(pub(crate) u8);

impl U4 {
    /// A value of the domain lies between zero and 0x0f.
    #[verifier::type_invariant]
    pub open(crate) spec fn wf(self) -> bool {
        self.0 <= 0x0f
    }

    /// The integer held.
    pub open(crate) spec fn view(self) -> u8 {
        self.0
    }

    /// The value of the domain that holds `v`.
    pub open(crate) spec fn of(v: u8) -> U4 {
        U4(v)
    }

    /// What `try_from` gives: the value that holds `v` where `v` fits, and
    /// `InvalidInteger` where it does not.
    pub open spec fn checked(v: u8) -> Result<U4, MidiError> {
        if v <= 0x0f {
            Ok(U4::of(v))
        } else {
            Err(MidiError::InvalidInteger)
        }
    }

    /// The smallest value, zero.
    pub fn min() -> (r: U4)
        ensures
            r == U4::of(0),
    {
        U4(0)
    }

    /// The largest value, 0x0f.
    pub fn max() -> (r: U4)
        ensures
            r == U4::of(0x0f),
    {
        U4(0x0f)
    }

    /// The integer held, which never exceeds 0x0f.
    pub fn value(self) -> (r: u8)
        ensures
            r == self@,
            r <= 0x0f,
    {
        proof {
            use_type_invariant(&self);
        }
        self.0
    }
}

impl Cull<u8> for U4 {
    open spec fn cull_spec(wide: u8) -> U4 {
        U4::of(wide & 0x0f)
    }

    fn cull(wide: u8) -> (r: U4) {
        assert(wide & 0x0f <= 0x0f) by (bit_vector);
        U4(wide & 0x0f)
    }
}

impl Fill<u8> for U4 {
    open spec fn fill_spec(wide: u8) -> U4 {
        if wide > 0x0f {
            U4::of(0x0f)
        } else {
            U4::of(wide)
        }
    }

    fn fill(wide: u8) -> (r: U4) {
        if wide > 0x0f {
            U4(0x0f)
        } else {
            U4(wide)
        }
    }
}

impl TryFrom<u8> for U4 {
    type Error = MidiError;

    fn try_from(v: u8) -> (r: Result<U4, MidiError>) {
        if v <= 0x0f {
            Ok(U4(v))
        } else {
            Err(MidiError::InvalidInteger)
        }
    }
}

impl TryFromSpecImpl<u8> for U4 {
    open spec fn obeys_try_from_spec() -> bool {
        true
    }

    open spec fn try_from_spec(v: u8) -> Result<U4, MidiError> {
        U4::checked(v)
    }
}

impl From<U4> for u8 {
    fn from(v: U4) -> (r: u8) {
        v.0
    }
}

impl FromSpecImpl<U4> for u8 {
    open spec fn obeys_from_spec() -> bool {
        true
    }

    open spec fn from_spec(v: U4) -> u8 {
        v@
    }
}

/// A 6-bit value, 0 to 63.
#[derive(Clone, Copy, Debug, PartialEq, Eq, Structural)]
pub struct U6(pub(crate) u8);

impl U6 {
    /// A value of the domain lies between zero and 0x3f.
    #[verifier::type_invariant]
    pub open(crate) spec fn wf(self) -> bool {
        self.0 <= 0x3f
    }

    /// The integer held.
    pub open(crate) spec fn view(self) -> u8 {
        self.0
    }

    /// The value of the domain that holds `v`.
    pub open(crate) spec fn of(v: u8) -> U6 {
        U6(v)
    }

    /// What `try_from` gives: the value that holds `v` where `v` fits, and
    /// `InvalidInteger` where it does not.
    pub open spec fn checked(v: u8) -> Result<U6, MidiError> {
        if v <= 0x3f {
            Ok(U6::of(v))
        } else {
            Err(MidiError::InvalidInteger)
        }
    }

    /// The smallest value, zero.
    pub fn min() -> (r: U6)
        ensures
            r == U6::of(0),
    {
        U6(0)
    }

    /// The largest value, 0x3f.
    pub fn max() -> (r: U6)
        ensures
            r == U6::of(0x3f),
    {
        U6(0x3f)
    }

    /// The integer held, which never exceeds 0x3f.
    pub fn value(self) -> (r: u8)
        ensures
            r == self@,
            r <= 0x3f,
    {
        proof {
            use_type_invariant(&self);
        }
        self.0
    }
}

impl Cull<u8> for U6 {
    open spec fn cull_spec(wide: u8) -> U6 {
        U6::of(wide & 0x3f)
    }

    fn cull(wide: u8) -> (r: U6) {
        assert(wide & 0x3f <= 0x3f) by (bit_vector);
        U6(wide & 0x3f)
    }
}

impl Fill<u8> for U6 {
    open spec fn fill_spec(wide: u8) -> U6 {
        if wide > 0x3f {
            U6::of(0x3f)
        } else {
            U6::of(wide)
        }
    }

    fn fill(wide: u8) -> (r: U6) {
        if wide > 0x3f {
            U6(0x3f)
        } else {
            U6(wide)
        }
    }
}

impl TryFrom<u8> for U6 {
    type Error = MidiError;

    fn try_from(v: u8) -> (r: Result<U6, MidiError>) {
        if v <= 0x3f {
            Ok(U6(v))
        } else {
            Err(MidiError::InvalidInteger)
        }
    }
}

impl TryFromSpecImpl<u8> for U6 {
    open spec fn obeys_try_from_spec() -> bool {
        true
    }

    open spec fn try_from_spec(v: u8) -> Result<U6, MidiError> {
        U6::checked(v)
    }
}

impl From<U6> for u8 {
    fn from(v: U6) -> (r: u8) {
        v.0
    }
}

impl FromSpecImpl<U6> for u8 {
    open spec fn obeys_from_spec() -> bool {
        true
    }

    open spec fn from_spec(v: U6) -> u8 {
        v@
    }
}

/// A 7-bit value, 0 to 127.
#[derive(Clone, Copy, Debug, PartialEq, Eq, Structural)]
pub struct U7(pub(crate) u8);

impl U7 {
    /// A value of the domain lies between zero and 0x7f.
    #[verifier::type_invariant]
    pub open(crate) spec fn wf(self) -> bool {
        self.0 <= 0x7f
    }

    /// The integer held.
    pub open(crate) spec fn view(self) -> u8 {
        self.0
    }

    /// The value of the domain that holds `v`.
    pub open(crate) spec fn of(v: u8) -> U7 {
        U7(v)
    }

    /// What `try_from` gives: the value that holds `v` where `v` fits, and
    /// `InvalidInteger` where it does not.
    pub open spec fn checked(v: u8) -> Result<U7, MidiError> {
        if v <= 0x7f {
            Ok(U7::of(v))
        } else {
            Err(MidiError::InvalidInteger)
        }
    }

    /// The smallest value, zero.
    pub fn min() -> (r: U7)
        ensures
            r == U7::of(0),
    {
        U7(0)
    }

    /// The largest value, 0x7f.
    pub fn max() -> (r: U7)
        ensures
            r == U7::of(0x7f),
    {
        U7(0x7f)
    }

    /// The integer held, which never exceeds 0x7f.
    pub fn value(self) -> (r: u8)
        ensures
            r == self@,
            r <= 0x7f,
    {
        proof {
            use_type_invariant(&self);
        }
        self.0
    }
}

impl Cull<u8> for U7 {
    open spec fn cull_spec(wide: u8) -> U7 {
        U7::of(wide & 0x7f)
    }

    fn cull(wide: u8) -> (r: U7) {
        assert(wide & 0x7f <= 0x7f) by (bit_vector);
        U7(wide & 0x7f)
    }
}

impl Fill<u8> for U7 {
    open spec fn fill_spec(wide: u8) -> U7 {
        if wide > 0x7f {
            U7::of(0x7f)
        } else {
            U7::of(wide)
        }
    }

    fn fill(wide: u8) -> (r: U7) {
        if wide > 0x7f {
            U7(0x7f)
        } else {
            U7(wide)
        }
    }
}

impl TryFrom<u8> for U7 {
    type Error = MidiError;

    fn try_from(v: u8) -> (r: Result<U7, MidiError>) {
        if v <= 0x7f {
            Ok(U7(v))
        } else {
            Err(MidiError::InvalidInteger)
        }
    }
}

impl TryFromSpecImpl<u8> for U7 {
    open spec fn obeys_try_from_spec() -> bool {
        true
    }

    open spec fn try_from_spec(v: u8) -> Result<U7, MidiError> {
        U7::checked(v)
    }
}

impl From<U7> for u8 {
    fn from(v: U7) -> (r: u8) {
        v.0
    }
}

impl FromSpecImpl<U7> for u8 {
    open spec fn obeys_from_spec() -> bool {
        true
    }

    open spec fn from_spec(v: U7) -> u8 {
        v@
    }
}

/// A 14-bit value, 0 to 16383.
#[derive(Clone, Copy, Debug, PartialEq, Eq, Structural)]
pub struct U14(pub(crate) u16);

impl U14 {
    /// A value of the domain lies between zero and 0x3fff.
    #[verifier::type_invariant]
    pub open(crate) spec fn wf(self) -> bool {
        self.0 <= 0x3fff
    }

    /// The integer held.
    pub open(crate) spec fn view(self) -> u16 {
        self.0
    }

    /// The value of the domain that holds `v`.
    pub open(crate) spec fn of(v: u16) -> U14 {
        U14(v)
    }

    /// What `try_from` gives: the value that holds `v` where `v` fits, and
    /// `InvalidInteger` where it does not.
    pub open spec fn checked(v: u16) -> Result<U14, MidiError> {
        if v <= 0x3fff {
            Ok(U14::of(v))
        } else {
            Err(MidiError::InvalidInteger)
        }
    }

    /// The smallest value, zero.
    pub fn min() -> (r: U14)
        ensures
            r == U14::of(0),
    {
        U14(0)
    }

    /// The largest value, 0x3fff.
    pub fn max() -> (r: U14)
        ensures
            r == U14::of(0x3fff),
    {
        U14(0x3fff)
    }

    /// The integer held, which never exceeds 0x3fff.
    pub fn value(self) -> (r: u16)
        ensures
            r == self@,
            r <= 0x3fff,
    {
        proof {
            use_type_invariant(&self);
        }
        self.0
    }
}

impl Cull<u16> for U14 {
    open spec fn cull_spec(wide: u16) -> U14 {
        U14::of(wide & 0x3fff)
    }

    fn cull(wide: u16) -> (r: U14) {
        assert(wide & 0x3fff <= 0x3fff) by (bit_vector);
        U14(wide & 0x3fff)
    }
}

impl Fill<u16> for U14 {
    open spec fn fill_spec(wide: u16) -> U14 {
        if wide > 0x3fff {
            U14::of(0x3fff)
        } else {
            U14::of(wide)
        }
    }

    fn fill(wide: u16) -> (r: U14) {
        if wide > 0x3fff {
            U14(0x3fff)
        } else {
            U14(wide)
        }
    }
}

impl TryFrom<u16> for U14 {
    type Error = MidiError;

    fn try_from(v: u16) -> (r: Result<U14, MidiError>) {
        if v <= 0x3fff {
            Ok(U14(v))
        } else {
            Err(MidiError::InvalidInteger)
        }
    }
}

impl TryFromSpecImpl<u16> for U14 {
    open spec fn obeys_try_from_spec() -> bool {
        true
    }

    open spec fn try_from_spec(v: u16) -> Result<U14, MidiError> {
        U14::checked(v)
    }
}

impl From<U14> for u16 {
    fn from(v: U14) -> (r: u16) {
        v.0
    }
}

impl FromSpecImpl<U14> for u16 {
    open spec fn obeys_from_spec() -> bool {
        true
    }

    open spec fn from_spec(v: U14) -> u16 {
        v@
    }
}

impl U14 {
    /// The 14-bit value whose high seven bits are `msb` and whose low seven
    /// bits are `lsb`.
    pub open spec fn pair_spec(msb: u8, lsb: u8) -> Result<U14, MidiError> {
        if msb <= 0x7f && lsb <= 0x7f {
            Ok(U14::of((msb * 128 + lsb) as u16))
        } else {
            Err(MidiError::InvalidInteger)
        }
    }

    /// The high seven bits.
    pub fn msb(self) -> (r: U7)
        ensures
            r@ == self@ / 128,
    {
        proof {
            use_type_invariant(&self);
        }
        U7((self.0 / 128) as u8)
    }

    /// The low seven bits.
    pub fn lsb(self) -> (r: U7)
        ensures
            r@ == self@ % 128,
    {
        U7((self.0 % 128) as u8)
    }
}

impl TryFrom<(u8, u8)> for U14 {
    type Error = MidiError;

    /// Builds a 14-bit value from its high and low seven bits, in that order.
    /// Fails when either byte has its top bit set.
    fn try_from(pair: (u8, u8)) -> (r: Result<U14, MidiError>) {
        let (msb, lsb) = pair;
        if msb <= 0x7f && lsb <= 0x7f {
            let wide: u16 = msb as u16 * 128 + lsb as u16;
            Ok(U14(wide))
        } else {
            Err(MidiError::InvalidInteger)
        }
    }
}

impl TryFromSpecImpl<(u8, u8)> for U14 {
    open spec fn obeys_try_from_spec() -> bool {
        true
    }

    open spec fn try_from_spec(pair: (u8, u8)) -> Result<U14, MidiError> {
        U14::pair_spec(pair.0, pair.1)
    }
}

/// A value survives the way out to its storage type and back in.
pub proof fn lemma_u7_try_from_value(v: U7)
    requires
        v.wf(),
    ensures
        U7::checked(v@) == Ok::<U7, MidiError>(v),
        U7::cull_spec(v@) == v,
        U7::fill_spec(v@) == v,
{
    let b = v@;
    assert(b <= 0x7f ==> b & 0x7f == b) by (bit_vector);
}

/// Splitting a 14-bit value into its two halves and joining them again gives
/// the value back.
pub proof fn lemma_u14_pair_round_trip(v: U14)
    requires
        v.wf(),
    ensures
        U14::pair_spec((v@ / 128) as u8, (v@ % 128) as u8) == Ok::<U14, MidiError>(v),
{
}

} // verus!
