use quantum_sdk::region::Region;

#[test]
fn canonical_values_round_trip() {
    for r in [Region::Americas, Region::Europe, Region::Asia] {
        assert_eq!(Region::parse(r.as_str()), Some(r));
        assert_eq!(r.to_string(), r.as_str());
    }
}

#[test]
fn aliases_are_tolerated_case_insensitively() {
    assert_eq!(Region::parse("US"), Some(Region::Americas));
    assert_eq!(Region::parse("america"), Some(Region::Americas));
    assert_eq!(Region::parse("eu"), Some(Region::Europe));
    assert_eq!(Region::parse("EEA"), Some(Region::Europe));
    assert_eq!(Region::parse("apac"), Some(Region::Asia));
    assert_eq!(Region::parse("Asia-Pacific"), Some(Region::Asia));
    assert_eq!(Region::parse("  europe "), Some(Region::Europe));
}

#[test]
fn unknown_regions_are_rejected_not_degraded() {
    assert_eq!(Region::parse("africa"), None);
    assert_eq!(Region::parse(""), None);
    assert!("mars".parse::<Region>().is_err());
}

#[test]
fn wire_names_are_lowercase() {
    assert_eq!(Region::Americas.as_str(), "americas");
    assert_eq!(Region::Europe.as_str(), "europe");
    assert_eq!(Region::Asia.as_str(), "asia");
}

#[test]
fn an_unknown_region_error_names_the_value_and_the_choices() {
    let err = "mars".parse::<Region>().unwrap_err();
    assert_eq!(
        err,
        "unknown region 'mars' \u{2014} expected americas | europe | asia (aliases: us, eu, apac)"
    );
    assert_eq!(Region::from_text("\tAPAC\n"), Ok(Region::Asia));
}

#[test]
fn whitespace_inside_a_name_is_not_trimmed() {
    assert_eq!(Region::parse("eu rope"), None);
    assert_eq!(Region::parse("u s"), None);
}

#[test]
fn upper_casing_or_padding_a_name_does_not_change_it() {
    for s in ["americas", "us", "Eu", "eea", "asia-pacific", "apac", "nowhere", ""] {
        let expected = Region::parse(s);
        assert_eq!(Region::parse(&s.to_ascii_uppercase()), expected);
        assert_eq!(Region::parse(&format!(" {s} ")), expected);
    }
    assert_eq!(Region::parse(" ASIA-PACIFIC "), Some(Region::Asia));
}
