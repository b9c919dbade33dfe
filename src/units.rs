use vstd::prelude::*;

verus! {

/// `base` raised to the power `exp`.
pub open spec fn power(base: nat, exp: nat) -> nat
    decreases exp,
{
    if exp == 0 {
        1
    } else {
        base * power(base, (exp - 1) as nat)
    }
}

/// The values of the powers that the unit scales are made of.
pub(crate) proof fn lemma_scale_values()
    ensures
        power(1000, 0) == 1,
        power(1000, 1) == 1000,
        power(1000, 2) == 1_000_000,
        power(1000, 3) == 1_000_000_000,
        power(1000, 4) == 1_000_000_000_000,
        power(1000, 5) == 1_000_000_000_000_000,
        power(1024, 1) == 1024,
        power(1024, 2) == 1_048_576,
        power(1024, 3) == 1_073_741_824,
        power(1024, 4) == 1_099_511_627_776,
        power(1024, 5) == 1_125_899_906_842_624,
{
    reveal_with_fuel(power, 6);
}

/// Different units available for representing a size.
#[derive(Debug, Clone, Copy, PartialEq, Eq, Structural, PartialOrd)]
pub enum Units {
    /// Base unit: one byte.
    Bytes,
    /// (kB) 1000 bytes.
    Kilobytes,
    /// (KiB) 1024 bytes.
    Kibibytes,
    /// (MB) 1000^2 bytes.
    Megabytes,
    /// (MiB) 1024^2 bytes.
    Mebibytes,
    /// (GB) 1000^3 bytes.
    Gigabytes,
    /// (GiB) 1024^3 bytes.
    Gibibytes,
    /// (TB) 1000^4 bytes.
    Terabytes,
    /// (TiB) 1024^4 bytes.
    Tebibytes,
    /// (PB) 1000^5 bytes.
    Petabytes,
    /// (PiB) 1024^5 bytes.
    Pebibytes,
}

impl Units {
    /// The exponent of the unit within its family: 0 for `Bytes`, 1 for kilo/kibi, ...
    pub open spec fn tier(self) -> nat {
        match self {
            Units::Bytes => 0,
            Units::Kilobytes | Units::Kibibytes => 1,
            Units::Megabytes | Units::Mebibytes => 2,
            Units::Gigabytes | Units::Gibibytes => 3,
            Units::Terabytes | Units::Tebibytes => 4,
            Units::Petabytes | Units::Pebibytes => 5,
        }
    }

    /// Whether the unit belongs to the binary (powers of 1024) family.
    /// `Bytes` belongs to both families.
    pub open spec fn is_binary(self) -> bool {
        match self {
            Units::Bytes => true,
            Units::Kibibytes | Units::Mebibytes | Units::Gibibytes | Units::Tebibytes
            | Units::Pebibytes => true,
            _ => false,
        }
    }

    /// Whether the unit belongs to the decimal (powers of 1000) family.
    pub open spec fn is_decimal(self) -> bool {
        self is Bytes || !self.is_binary()
    }

    /// The step between consecutive tiers of the unit's family.
    pub open spec fn base(self) -> nat {
        if self.is_binary() && !(self is Bytes) {
            1024
        } else {
            1000
        }
    }

    /// The number of bytes in one of this unit.
    pub open spec fn scale(self) -> nat {
        power(self.base(), self.tier())
    }

    /// The unit's short display symbol.
    pub open spec fn symbol_spec(self) -> Seq<char> {
        match self {
            Units::Bytes => seq!['B'],
            Units::Kilobytes => seq!['k', 'B'],
            Units::Kibibytes => seq!['K', 'i', 'B'],
            Units::Megabytes => seq!['M', 'B'],
            Units::Mebibytes => seq!['M', 'i', 'B'],
            Units::Gigabytes => seq!['G', 'B'],
            Units::Gibibytes => seq!['G', 'i', 'B'],
            Units::Terabytes => seq!['T', 'B'],
            Units::Tebibytes => seq!['T', 'i', 'B'],
            Units::Petabytes => seq!['P', 'B'],
            Units::Pebibytes => seq!['P', 'i', 'B'],
        }
    }

    /// Returns the number of bytes this unit represents, e.g. 1000 for `Kilobytes`.
    pub fn bytes(&self) -> (r: u64)
        ensures
            r == self.scale(),
            r >= 1,
    {
        proof {
            lemma_scale_values();
        }
        match self {
            Units::Bytes => 1,
            Units::Kilobytes => 1000,
            Units::Kibibytes => 1024,
            Units::Megabytes => 1_000_000,
            Units::Mebibytes => 1_048_576,
            Units::Gigabytes => 1_000_000_000,
            Units::Gibibytes => 1_073_741_824,
            Units::Terabytes => 1_000_000_000_000,
            Units::Tebibytes => 1_099_511_627_776,
            Units::Petabytes => 1_000_000_000_000_000,
            Units::Pebibytes => 1_125_899_906_842_624,
        }
    }

    /// Returns the unit's short display symbol, e.g. "kB" or "KiB".
    pub fn symbol(&self) -> (r: &'static str)
        ensures
            r@ == self.symbol_spec(),
    {
        proof {
            reveal_strlit("B");
            reveal_strlit("kB");
            reveal_strlit("KiB");
            reveal_strlit("MB");
            reveal_strlit("MiB");
            reveal_strlit("GB");
            reveal_strlit("GiB");
            reveal_strlit("TB");
            reveal_strlit("TiB");
            reveal_strlit("PB");
            reveal_strlit("PiB");
        }
        match self {
            Units::Bytes => "B",
            Units::Kilobytes => "kB",
            Units::Kibibytes => "KiB",
            Units::Megabytes => "MB",
            Units::Mebibytes => "MiB",
            Units::Gigabytes => "GB",
            Units::Gibibytes => "GiB",
            Units::Terabytes => "TB",
            Units::Tebibytes => "TiB",
            Units::Petabytes => "PB",
            Units::Pebibytes => "PiB",
        }
    }
}

/// Within each family (decimal or binary), a unit of a higher tier holds
/// strictly more bytes than a unit of a lower tier.
pub proof fn lemma_scale_increases_within_family(a: Units, b: Units)
    requires
        (a.is_decimal() && b.is_decimal()) || (a.is_binary() && b.is_binary()),
        a.tier() < b.tier(),
    ensures
        a.scale() < b.scale(),
{
    lemma_scale_values();
}

} // verus!
