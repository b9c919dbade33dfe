use repr_size::{ConversionError, Size, Units};

#[test]
fn count_round_trips_through_size() {
    for n in [0usize, 1, 999, 54222, usize::MAX] {
        let back: usize = Size::from(n).into();
        assert_eq!(back, n);
        assert_eq!(Size::from_count(n).count(), n);
    }
}

#[test]
fn from_units_multiplies_by_scale() {
    assert_eq!(Size::from_units(23, Units::Kilobytes), Size::from_count(23_000));
    assert_eq!(Size::from_units(3, Units::Mebibytes), Size::from_count(3_145_728));
    assert_eq!(Size::from_units(2, Units::Petabytes).count(), 2_000_000_000_000_000);
    assert_eq!(Size::from_units(7, Units::Bytes).count(), 7);
    assert_eq!(Size::from_units(0, Units::Pebibytes).count(), 0);
}

#[test]
fn decimal_threshold_boundary() {
    assert_eq!(Size::from_count(999).get_units(), Units::Bytes);
    assert_eq!(Size::from_count(1000).get_units(), Units::Kilobytes);
    assert_eq!(Size::from_count(1001).get_units(), Units::Kilobytes);
}

#[test]
fn binary_threshold_boundary() {
    assert_eq!(Size::from_count(1022).get_si_units(), Units::Bytes);
    assert_eq!(Size::from_count(1025).get_si_units(), Units::Kibibytes);
    assert_eq!(Size::from_count(1024).get_si_units(), Units::Kibibytes);
    assert_eq!(Size::from_count(1023).get_si_units(), Units::Bytes);
}

#[test]
fn every_decimal_tier_is_selected() {
    assert_eq!(Size::from_count(0).get_units(), Units::Bytes);
    assert_eq!(Size::from_count(999_999).get_units(), Units::Kilobytes);
    assert_eq!(Size::from_count(1_000_000).get_units(), Units::Megabytes);
    assert_eq!(Size::from_count(1_000_000_000).get_units(), Units::Gigabytes);
    assert_eq!(Size::from_count(1_000_000_000_000).get_units(), Units::Terabytes);
    assert_eq!(Size::from_count(999_999_999_999_999).get_units(), Units::Terabytes);
    assert_eq!(Size::from_count(1_000_000_000_000_000).get_units(), Units::Petabytes);
    assert_eq!(Size::from_count(usize::MAX).get_units(), Units::Petabytes);
}

#[test]
fn every_binary_tier_is_selected() {
    assert_eq!(Size::from_count(0).get_si_units(), Units::Bytes);
    assert_eq!(Size::from_count(1_048_575).get_si_units(), Units::Kibibytes);
    assert_eq!(Size::from_count(1_048_576).get_si_units(), Units::Mebibytes);
    assert_eq!(Size::from_count(1_073_741_824).get_si_units(), Units::Gibibytes);
    assert_eq!(Size::from_count(1_099_511_627_776).get_si_units(), Units::Tebibytes);
    assert_eq!(Size::from_count(1_125_899_906_842_624).get_si_units(), Units::Pebibytes);
    assert_eq!(Size::from_count(usize::MAX).get_si_units(), Units::Pebibytes);
}

#[test]
fn auto_decimal_rendering() {
    assert_eq!(Size::from_count(54222).to_string(), "54.2 kB");
}

#[test]
fn auto_renderings_of_2300() {
    let size = Size::from_count(2300);
    assert_eq!(size.to_string(), "2.3 kB");
    assert_eq!(size.to_si_string(), "2.2 KiB");
    assert_eq!(size.repr(Units::Bytes), "2300.0 B");
}

#[test]
fn explicit_unit_rendering() {
    let size = Size::from_count(22000);
    assert_eq!(size.repr(Units::Kibibytes), "21.4 KiB");
    assert_eq!(size.repr(Units::Bytes), "22000.0 B");
    assert_eq!(size.repr(Units::Megabytes), "0.0 MB");
}

#[test]
fn rendering_edge_cases() {
    assert_eq!(Size::from_count(0).to_string(), "0.0 B");
    assert_eq!(Size::from_count(0).to_si_string(), "0.0 B");
    assert_eq!(Size::from_count(999).to_string(), "999.0 B");
    assert_eq!(Size::from_count(1999).to_string(), "1.9 kB");
    assert_eq!(Size::from_count(1_500_000).to_string(), "1.5 MB");
    assert_eq!(Size::from_count(1_048_576).to_si_string(), "1.0 MiB");
    assert_eq!(Size::from_count(usize::MAX).to_string(), "18446.7 PB");
    assert_eq!(Size::from_count(usize::MAX).to_si_string(), "16383.9 PiB");
    assert_eq!(Size::from_count(usize::MAX).repr(Units::Bytes), "18446744073709551615.0 B");
    assert_eq!(Size::from_count(5_000_000_000_000).repr(Units::Tebibytes), "4.5 TiB");
    assert_eq!(Size::from_count(3_000_000_000).repr(Units::Gibibytes), "2.7 GiB");
    assert_eq!(Size::from_count(7_000_000_000_000).to_string(), "7.0 TB");
    assert_eq!(Size::from_count(12_345_678_901).to_string(), "12.3 GB");
}

#[test]
fn signed_conversion() {
    assert_eq!(Size::from_signed(-1), Err(ConversionError::NegativeValue));
    assert_eq!(Size::from_signed(isize::MIN), Err(ConversionError::NegativeValue));
    assert_eq!(Size::from_signed(5), Ok(Size::from_count(5)));
    assert_eq!(Size::from_signed(0), Ok(Size::from_count(0)));
    assert_eq!(Size::try_from(-1isize), Err(ConversionError::NegativeValue));
    assert_eq!(Size::try_from(5isize), Ok(Size::from_count(5)));
}

#[test]
fn ordering_follows_count() {
    let a = Size::from_count(100);
    let b = Size::from_count(200);
    let c = Size::from_count(100);
    assert!(a < b);
    assert!(b > a);
    assert!(a <= c && a >= c);
    assert_eq!(a, a);
    assert_eq!(a, c);
    assert_eq!(c, a);
    assert_ne!(a, b);
    assert_eq!(a.partial_cmp(&b), Some(std::cmp::Ordering::Less));
    assert_eq!(a.cmp(&b), std::cmp::Ordering::Less);
    assert_eq!(b.cmp(&c), std::cmp::Ordering::Greater);
}

#[test]
fn scale_factors_are_true_powers() {
    assert_eq!(Units::Bytes.bytes(), 1);
    assert_eq!(Units::Kilobytes.bytes(), 1000);
    assert_eq!(Units::Megabytes.bytes(), 1_000_000);
    assert_eq!(Units::Gigabytes.bytes(), 1_000_000_000);
    assert_eq!(Units::Terabytes.bytes(), 1_000_000_000_000);
    assert_eq!(Units::Petabytes.bytes(), 1_000_000_000_000_000);
    assert_eq!(Units::Kibibytes.bytes(), 1024);
    assert_eq!(Units::Mebibytes.bytes(), 1024 * 1024);
    assert_eq!(Units::Gibibytes.bytes(), 1024 * 1024 * 1024);
    assert_eq!(Units::Tebibytes.bytes(), 1024u64.pow(4));
    assert_eq!(Units::Pebibytes.bytes(), 1024u64.pow(5));
}

#[test]
fn scale_factors_increase_within_family() {
    let decimal = [
        Units::Bytes,
        Units::Kilobytes,
        Units::Megabytes,
        Units::Gigabytes,
        Units::Terabytes,
        Units::Petabytes,
    ];
    let binary = [
        Units::Bytes,
        Units::Kibibytes,
        Units::Mebibytes,
        Units::Gibibytes,
        Units::Tebibytes,
        Units::Pebibytes,
    ];
    for family in [decimal, binary] {
        for i in 0..family.len() {
            for j in (i + 1)..family.len() {
                assert!(family[i].bytes() < family[j].bytes());
            }
        }
    }
}

#[test]
fn unit_symbols() {
    let expected = [
        (Units::Bytes, "B"),
        (Units::Kilobytes, "kB"),
        (Units::Kibibytes, "KiB"),
        (Units::Megabytes, "MB"),
        (Units::Mebibytes, "MiB"),
        (Units::Gigabytes, "GB"),
        (Units::Gibibytes, "GiB"),
        (Units::Terabytes, "TB"),
        (Units::Tebibytes, "TiB"),
        (Units::Petabytes, "PB"),
        (Units::Pebibytes, "PiB"),
    ];
    for (unit, symbol) in expected {
        assert_eq!(unit.symbol(), symbol);
    }
}
