use currency_converter::codes::supported_codes;
use currency_converter::lookup::DEFAULT_AMOUNT_BITS;
use currency_converter::lookup::RateLookup;
use currency_converter::lookup::amount_bits_or_default;
use currency_converter::lookup::parse_by_name;
use currency_converter::lookup::plan_conversion;
use currency_converter::table::RateTable;

/// A rate listing over the whole supported set: the codes named in `vals`
/// carry the given rate, every other code carries 2.0.
fn entries_with(vals: &[(&str, f64)]) -> Vec<(String, u64)> {
    let mut v: Vec<(String, u64)> = Vec::new();
    for c in supported_codes() {
        let mut rate: f64 = 2.0;
        for (k, val) in vals {
            if *k == c.as_str() {
                rate = *val;
            }
        }
        v.push((c, rate.to_bits()));
    }
    v
}

/// The fixture table: USD at 90.0 and EUR at 100.0 rubles per unit.
fn fixture() -> RateTable {
    RateTable::from_entries(&entries_with(&[("USD", 90.0), ("EUR", 100.0)])).unwrap()
}

/// A resolved lookup as the number it stands for: one for the base
/// currency, the stored rate for a supported code, zero for an unknown one.
fn rate_f64(r: RateLookup) -> f64 {
    match r {
        RateLookup::Base => 1.0,
        RateLookup::Known(b) => f64::from_bits(b),
        RateLookup::Unknown => 0.0,
    }
}

/// The conversion arithmetic: amount divided by the source rate, then
/// multiplied by the target rate, in that order.
fn convert(amount: f64, from: &str, to: &str, t: &RateTable) -> f64 {
    let from_s = from.to_string();
    let to_s = to.to_string();
    amount / rate_f64(parse_by_name(&from_s, t)) * rate_f64(parse_by_name(&to_s, t))
}

#[test]
fn supported_codes_are_the_fixed_set() {
    let codes = supported_codes();
    assert_eq!(codes.len(), 43);
    assert!(codes.iter().any(|c| c.as_str() == "USD"));
    assert!(codes.iter().any(|c| c.as_str() == "EUR"));
    assert!(codes.iter().any(|c| c.as_str() == "JPY"));
    assert!(codes.iter().all(|c| c.as_str() != "RUB"));
    for i in 0..codes.len() {
        for j in 0..i {
            assert_ne!(codes[i], codes[j]);
        }
    }
}

#[test]
fn base_code_resolves_to_base() {
    let t = fixture();
    assert_eq!(parse_by_name(&"RUB".to_string(), &t), RateLookup::Base);
}

#[test]
fn known_code_resolves_to_stored_rate() {
    let t = fixture();
    assert_eq!(
        parse_by_name(&"USD".to_string(), &t),
        RateLookup::Known(90.0f64.to_bits())
    );
    assert_eq!(
        parse_by_name(&"EUR".to_string(), &t),
        RateLookup::Known(100.0f64.to_bits())
    );
}

#[test]
fn lookup_is_case_sensitive_and_exact() {
    let t = fixture();
    assert_eq!(parse_by_name(&"usd".to_string(), &t), RateLookup::Unknown);
    assert_eq!(parse_by_name(&"rub".to_string(), &t), RateLookup::Unknown);
    assert_eq!(parse_by_name(&"USD ".to_string(), &t), RateLookup::Unknown);
    assert_eq!(parse_by_name(&"XYZ".to_string(), &t), RateLookup::Unknown);
    assert_eq!(parse_by_name(&"".to_string(), &t), RateLookup::Unknown);
}

#[test]
fn converting_a_code_to_itself_returns_the_amount() {
    let t = fixture();
    for code in ["RUB", "USD", "EUR", "JPY", "KZT"] {
        let r = convert(123.45, code, code, &t);
        assert!((r - 123.45).abs() < 1e-9, "{code}: {r}");
    }
}

#[test]
fn conversion_is_linear_in_the_amount() {
    let t = fixture();
    for k in [0.0, 1.0, 2.0, 7.5, 1000.0] {
        let one = convert(3.25, "USD", "EUR", &t);
        let scaled = convert(k * 3.25, "USD", "EUR", &t);
        assert!((scaled - k * one).abs() <= 1e-9 * (1.0 + k.abs()), "{k}: {scaled} vs {one}");
    }
}

#[test]
fn base_round_trip_returns_the_amount() {
    let t = fixture();
    for code in ["USD", "EUR", "JPY", "AUD"] {
        let there = convert(42.5, "RUB", code, &t);
        let back = convert(there, code, "RUB", &t);
        assert!((back - 42.5).abs() < 1e-9, "{code}: {back}");
    }
}

#[test]
fn fixture_conversion_is_exact() {
    let t = fixture();
    assert_eq!(convert(90.0, "USD", "EUR", &t), 100.0);
}

#[test]
fn omitted_amount_defaults_to_one_unit() {
    assert_eq!(amount_bits_or_default(None), DEFAULT_AMOUNT_BITS);
    assert_eq!(amount_bits_or_default(Some(2.5f64.to_bits())), 2.5f64.to_bits());
    assert_eq!(f64::from_bits(DEFAULT_AMOUNT_BITS), 1.0);

    let t = fixture();
    let p = plan_conversion(None, &"USD".to_string(), &"EUR".to_string(), &t);
    let r = f64::from_bits(p.amount_bits) / rate_f64(p.from_rate) * rate_f64(p.to_rate);
    assert!((r - 100.0 / 90.0).abs() < 1e-12, "{r}");
}

#[test]
fn unknown_target_converts_to_zero() {
    let t = fixture();
    assert_eq!(convert(100.0, "USD", "XYZ", &t), 0.0);
}

#[test]
fn unknown_source_divides_by_zero() {
    let t = fixture();
    let r = convert(100.0, "XYZ", "USD", &t);
    assert!(r.is_infinite(), "{r}");
}

#[test]
fn missing_code_rejects_the_listing() {
    for dropped in ["AUD", "USD", "JPY"] {
        let entries: Vec<(String, u64)> = entries_with(&[])
            .into_iter()
            .filter(|(c, _)| c.as_str() != dropped)
            .collect();
        let err = RateTable::from_entries(&entries).unwrap_err();
        assert_eq!(err.missing, dropped);
    }
}

#[test]
fn unsupported_keys_are_ignored() {
    let mut entries = entries_with(&[("USD", 90.0)]);
    entries.push(("XXX".to_string(), 5.0f64.to_bits()));
    entries.insert(0, ("RUB".to_string(), 7.0f64.to_bits()));
    let t = RateTable::from_entries(&entries).unwrap();
    assert_eq!(parse_by_name(&"XXX".to_string(), &t), RateLookup::Unknown);
    assert_eq!(parse_by_name(&"RUB".to_string(), &t), RateLookup::Base);
    assert_eq!(parse_by_name(&"USD".to_string(), &t), RateLookup::Known(90.0f64.to_bits()));
}

#[test]
fn first_entry_for_a_code_wins() {
    let mut entries = entries_with(&[("USD", 90.0)]);
    entries.push(("USD".to_string(), 80.0f64.to_bits()));
    let t = RateTable::from_entries(&entries).unwrap();
    assert_eq!(parse_by_name(&"USD".to_string(), &t), RateLookup::Known(90.0f64.to_bits()));
}

#[test]
fn rate_bits_reads_the_stored_position() {
    let t = fixture();
    let codes = supported_codes();
    for (i, code) in codes.iter().enumerate() {
        assert_eq!(RateLookup::Known(t.rate_bits(i)), parse_by_name(code, &t));
    }
}

#[test]
fn plan_resolves_all_three_parts() {
    let t = fixture();
    let p = plan_conversion(
        Some(3.0f64.to_bits()),
        &"EUR".to_string(),
        &"RUB".to_string(),
        &t,
    );
    assert_eq!(p.amount_bits, 3.0f64.to_bits());
    assert_eq!(p.from_rate, RateLookup::Known(100.0f64.to_bits()));
    assert_eq!(p.to_rate, RateLookup::Base);
    let r = f64::from_bits(p.amount_bits) / rate_f64(p.from_rate) * rate_f64(p.to_rate);
    assert_eq!(r, 0.03);
}
