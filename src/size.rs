use vstd::prelude::*;

use core::cmp::Ordering;
use vstd::std_specs::cmp::PartialOrdSpec;
use vstd::std_specs::convert::FromSpec;

use crate::text::{append_decimal, append_digit, decimal_text, digit_char};
use crate::units::{lemma_scale_values, power, Units};

verus! {

/// The largest decimal unit whose scale does not exceed `count`, stopping at
/// `Petabytes`; `Bytes` below 1000.
pub open spec fn decimal_unit_for(count: nat) -> Units {
    if count < power(1000, 1) {
        Units::Bytes
    } else if count < power(1000, 2) {
        Units::Kilobytes
    } else if count < power(1000, 3) {
        Units::Megabytes
    } else if count < power(1000, 4) {
        Units::Gigabytes
    } else if count < power(1000, 5) {
        Units::Terabytes
    } else {
        Units::Petabytes
    }
}

/// The largest binary unit whose scale does not exceed `count`, stopping at
/// `Pebibytes`; `Bytes` below 1024.
pub open spec fn binary_unit_for(count: nat) -> Units {
    if count < power(1024, 1) {
        Units::Bytes
    } else if count < power(1024, 2) {
        Units::Kibibytes
    } else if count < power(1024, 3) {
        Units::Mebibytes
    } else if count < power(1024, 4) {
        Units::Gibibytes
    } else if count < power(1024, 5) {
        Units::Tebibytes
    } else {
        Units::Pebibytes
    }
}

/// `count` bytes written in `unit`: the amount with one fractional digit,
/// truncated toward zero, a space, and the unit's symbol ("21.4 KiB").
pub open spec fn render(count: nat, unit: Units) -> Seq<char> {
    let tenths = (10 * count) / unit.scale();
    decimal_text(tenths / 10) + seq!['.', digit_char(tenths % 10), ' '] + unit.symbol_spec()
}

/// The error of a conversion into a `Size`.
#[derive(Debug, Clone, Copy, PartialEq, Eq, Structural)]
pub enum ConversionError {
    /// The value to convert was below zero.
    NegativeValue,
}

/// An amount of bytes.
#[derive(Debug, Clone, Copy, Hash, PartialEq, Eq, Structural, Ord)]
pub struct Size(usize);

impl View for Size {
    type V = nat;

    /// The number of bytes.
    closed spec fn view(&self) -> nat {
        self.0 as nat
    }
}

impl Size {
    /// Wraps a count of bytes.
    pub fn from_count(n: usize) -> (r: Size)
        ensures
            r@ == n,
    {
        Size(n)
    }

    /// Returns the number of bytes.
    pub fn count(&self) -> (r: usize)
        ensures
            r == self@,
    {
        self.0
    }

    /// Returns the size of `x` of the given unit: `x * unit.bytes()` bytes.
    /// The product must fit in a `usize`.
    pub fn from_units(x: usize, unit: Units) -> (r: Size)
        requires
            x * unit.scale() <= usize::MAX,
        ensures
            r@ == x * unit.scale(),
    {
        let scale = unit.bytes();
        proof {
            assert(x * scale <= u64::MAX) by (nonlinear_arith)
                requires
                    x * scale <= usize::MAX,
                    usize::MAX <= u64::MAX,
            ;
        }
        Size((x as u64 * scale) as usize)
    }

    /// Converts a signed count of bytes; a negative one is refused.
    pub fn from_signed(n: isize) -> (r: Result<Size, ConversionError>)
        ensures
            n >= 0 ==> (r matches Ok(s) && s@ == n),
            n < 0 ==> r == Err::<Size, ConversionError>(ConversionError::NegativeValue),
    {
        if n < 0 {
            Err(ConversionError::NegativeValue)
        } else {
            Ok(Size(n as usize))
        }
    }

    /// Gets the largest decimal unit in which this size is at least one whole unit
    /// (`Bytes` below 1000, at most `Petabytes`).
    pub fn get_units(&self) -> (r: Units)
        ensures
            r == decimal_unit_for(self@),
            r.is_decimal(),
            r is Bytes || r.scale() <= self@,
            r is Petabytes || self@ < r.scale() * 1000,
    {
        proof {
            lemma_scale_values();
        }
        let c = self.0 as u64;
        if c < 1000 {
            Units::Bytes
        } else if c < 1_000_000 {
            Units::Kilobytes
        } else if c < 1_000_000_000 {
            Units::Megabytes
        } else if c < 1_000_000_000_000 {
            Units::Gigabytes
        } else if c < 1_000_000_000_000_000 {
            Units::Terabytes
        } else {
            Units::Petabytes
        }
    }

    /// Gets the largest binary unit in which this size is at least one whole unit
    /// (`Bytes` below 1024, at most `Pebibytes`).
    pub fn get_si_units(&self) -> (r: Units)
        ensures
            r == binary_unit_for(self@),
            r.is_binary(),
            r is Bytes || r.scale() <= self@,
            r is Pebibytes || self@ < r.scale() * 1024,
    {
        proof {
            lemma_scale_values();
        }
        let c = self.0 as u64;
        if c < 1024 {
            Units::Bytes
        } else if c < 1_048_576 {
            Units::Kibibytes
        } else if c < 1_073_741_824 {
            Units::Mebibytes
        } else if c < 1_099_511_627_776 {
            Units::Gibibytes
        } else if c < 1_125_899_906_842_624 {
            Units::Tebibytes
        } else {
            Units::Pebibytes
        }
    }

    /// Returns the size written in the given unit, with one fractional digit
    /// truncated toward zero: 22000 bytes in `Kibibytes` is "21.4 KiB",
    /// in `Bytes` "22000.0 B".
    pub fn repr(&self, unit: Units) -> (r: String)
        ensures
            r@ == render(self@, unit),
    {
        let scale = unit.bytes() as u128;
        let tenths: u128 = (self.0 as u128) * 10 / scale;
        let mut s = String::new();
        append_decimal(&mut s, tenths / 10);
        proof {
            reveal_strlit(".");
            reveal_strlit(" ");
        }
        s.append(".");
        append_digit(&mut s, tenths % 10);
        s.append(" ");
        s.append(unit.symbol());
        assert(s@ =~= render(self@, unit));
        s
    }

    /// Returns the size written in its decimal unit (see `get_units`).
    pub fn to_string(&self) -> (r: String)
        ensures
            r@ == render(self@, decimal_unit_for(self@)),
    {
        self.repr(self.get_units())
    }

    /// Returns the size written in its binary unit (see `get_si_units`).
    pub fn to_si_string(&self) -> (r: String)
        ensures
            r@ == render(self@, binary_unit_for(self@)),
    {
        self.repr(self.get_si_units())
    }
}

impl PartialOrd for Size {
    fn partial_cmp(&self, other: &Size) -> (r: Option<Ordering>) {
        if self.0 < other.0 {
            Some(Ordering::Less)
        } else if self.0 == other.0 {
            Some(Ordering::Equal)
        } else {
            Some(Ordering::Greater)
        }
    }
}

impl vstd::std_specs::cmp::PartialOrdSpecImpl for Size {
    open spec fn obeys_partial_cmp_spec() -> bool {
        true
    }

    open spec fn partial_cmp_spec(&self, other: &Size) -> Option<Ordering> {
        if self@ < other@ {
            Some(Ordering::Less)
        } else if self@ == other@ {
            Some(Ordering::Equal)
        } else {
            Some(Ordering::Greater)
        }
    }
}

impl From<usize> for Size {
    fn from(n: usize) -> (r: Size) {
        Size(n)
    }
}

impl vstd::std_specs::convert::FromSpecImpl<usize> for Size {
    open spec fn obeys_from_spec() -> bool {
        true
    }

    closed spec fn from_spec(n: usize) -> Size {
        Size(n)
    }
}

impl From<Size> for usize {
    fn from(s: Size) -> (r: usize) {
        s.0
    }
}

impl vstd::std_specs::convert::FromSpecImpl<Size> for usize {
    open spec fn obeys_from_spec() -> bool {
        true
    }

    open spec fn from_spec(s: Size) -> usize {
        s@ as usize
    }
}

impl TryFrom<isize> for Size {
    type Error = ConversionError;

    /// Fails with `NegativeValue` where `n < 0`.
    fn try_from(n: isize) -> (r: Result<Size, ConversionError>) {
        Size::from_signed(n)
    }
}

impl vstd::std_specs::convert::TryFromSpecImpl<isize> for Size {
    open spec fn obeys_try_from_spec() -> bool {
        true
    }

    closed spec fn try_from_spec(n: isize) -> Result<Size, ConversionError> {
        if n < 0 {
            Err(ConversionError::NegativeValue)
        } else {
            Ok(Size(n as usize))
        }
    }
}

/// A count converted into a `Size` holds that many bytes, and converts back
/// to the same count; a `Size` converted into its count converts back to
/// the same `Size`.
pub proof fn lemma_count_round_trip(n: usize, s: Size)
    ensures
        <Size as FromSpec<usize>>::from_spec(n)@ == n,
        <usize as FromSpec<Size>>::from_spec(<Size as FromSpec<usize>>::from_spec(n)) == n,
        <Size as FromSpec<usize>>::from_spec(<usize as FromSpec<Size>>::from_spec(s)) == s,
{
}

/// Sizes are equal exactly when their byte counts are, and are ordered as
/// their byte counts.
pub proof fn lemma_order_by_count(a: Size, b: Size)
    ensures
        a == b <==> a@ == b@,
        a.partial_cmp_spec(&b) == Some(Ordering::Less) <==> a@ < b@,
        a.partial_cmp_spec(&b) == Some(Ordering::Equal) <==> a@ == b@,
        a.partial_cmp_spec(&b) == Some(Ordering::Greater) <==> a@ > b@,
{
}

/// Equality of sizes is reflexive, symmetric and transitive.
pub proof fn lemma_eq_is_equivalence(a: Size, b: Size, c: Size)
    ensures
        a == a,
        a == b ==> b == a,
        (a == b && b == c) ==> a == c,
{
}

} // verus!
