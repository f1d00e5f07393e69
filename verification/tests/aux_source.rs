use lintx::config::AuxSource;

#[test]
fn source_names() {
    assert_eq!(AuxSource::Unmapped.name(), "none");
    assert_eq!(AuxSource::Switch3Pos(0).name(), "SA");
    assert_eq!(AuxSource::Switch3Pos(3).name(), "SD");
    assert_eq!(AuxSource::Switch2Pos(0).name(), "S1");
    assert_eq!(AuxSource::Switch2Pos(1).name(), "S2");
    assert_eq!(AuxSource::Button(0).name(), "B0");
    assert_eq!(AuxSource::Button(15).name(), "B15");
    assert_eq!(AuxSource::Button(16).name(), "none");
    assert_eq!(AuxSource::Switch3Pos(4).name(), "none");
    assert_eq!(AuxSource::Unmapped.display_name(), "NONE");
    assert_eq!(AuxSource::Button(12).display_name(), "B12");
}

#[test]
fn parser_accepts_known_names() {
    assert_eq!(AuxSource::parse_name("SA"), Some(AuxSource::Switch3Pos(0)));
    assert_eq!(AuxSource::parse_name("SB"), Some(AuxSource::Switch3Pos(1)));
    assert_eq!(AuxSource::parse_name("SC"), Some(AuxSource::Switch3Pos(2)));
    assert_eq!(AuxSource::parse_name("SD"), Some(AuxSource::Switch3Pos(3)));
    assert_eq!(AuxSource::parse_name("S1"), Some(AuxSource::Switch2Pos(0)));
    assert_eq!(AuxSource::parse_name("S2"), Some(AuxSource::Switch2Pos(1)));
    assert_eq!(AuxSource::parse_name("B0"), Some(AuxSource::Button(0)));
    assert_eq!(AuxSource::parse_name("B3"), Some(AuxSource::Button(3)));
    assert_eq!(AuxSource::parse_name("B9"), Some(AuxSource::Button(9)));
    assert_eq!(AuxSource::parse_name("B10"), Some(AuxSource::Button(10)));
    assert_eq!(AuxSource::parse_name("B15"), Some(AuxSource::Button(15)));
    assert_eq!(AuxSource::parse_name("none"), Some(AuxSource::Unmapped));
    assert_eq!(AuxSource::parse_name(""), Some(AuxSource::Unmapped));
}

#[test]
fn parser_rejects_invalid_text() {
    for text in ["SE", "S0", "S3", "B16", "B01", "B", "sa", "NONE", "X", "B1x", "none ", "SAA"] {
        assert_eq!(AuxSource::parse_name(text), None, "{text}");
    }
}

#[test]
fn names_round_trip() {
    let mut sources = vec![AuxSource::Unmapped];
    for i in 0..4 {
        sources.push(AuxSource::Switch3Pos(i));
    }
    for i in 0..2 {
        sources.push(AuxSource::Switch2Pos(i));
    }
    for i in 0..16 {
        sources.push(AuxSource::Button(i));
    }
    for source in sources {
        assert_eq!(AuxSource::parse_name(&source.name()), Some(source));
    }
}

#[test]
fn named_entries_keep_only_valid_sources() {
    let entry = lintx::config::aux_entry_from_name(9, "B12", true).expect("valid");
    assert_eq!(entry.channel, 9);
    assert_eq!(entry.source, AuxSource::Button(12));
    assert!(entry.inverted);
    assert_eq!(lintx::config::aux_entry_from_name(9, "none", false).unwrap().source, AuxSource::Unmapped);
    assert!(lintx::config::aux_entry_from_name(9, "SE", false).is_none());
}
