use egui_charts::model::enums::Resolution;
use egui_charts::model::Timeframe;

#[test]
fn test_preset_as_str() {
    assert_eq!(&*Timeframe::Min1.as_str(), "1min");
    assert_eq!(&*Timeframe::Hour4.as_str(), "4h");
    assert_eq!(&*Timeframe::Day1.as_str(), "1D");
}

#[test]
fn test_custom_as_str() {
    assert_eq!(&*Timeframe::Custom(45).as_str(), "45s");
    assert_eq!(&*Timeframe::Custom(180).as_str(), "3min");
    assert_eq!(&*Timeframe::Custom(7200).as_str(), "2h");
    assert_eq!(&*Timeframe::Custom(172800).as_str(), "2D");
}

#[test]
fn test_custom_duration_ms() {
    assert_eq!(Timeframe::Custom(45).duration_ms(), 45_000);
    assert_eq!(Timeframe::Custom(180).duration_ms(), 180_000);
    assert_eq!(Timeframe::Custom(7200).duration_ms(), 7_200_000);
}

#[test]
fn test_is_custom() {
    assert!(!Timeframe::Min1.is_custom());
    assert!(!Timeframe::Day1.is_custom());
    assert!(Timeframe::Custom(45).is_custom());
    assert!(Timeframe::Custom(180).is_custom());
}

#[test]
fn test_from_str_presets() {
    assert_eq!("1min".parse::<Timeframe>(), Ok(Timeframe::Min1));
    assert_eq!("1h".parse::<Timeframe>(), Ok(Timeframe::Hour1));
    assert_eq!("1d".parse::<Timeframe>(), Ok(Timeframe::Day1));
    assert_eq!("1w".parse::<Timeframe>(), Ok(Timeframe::Week1));
    assert_eq!("1m".parse::<Timeframe>(), Ok(Timeframe::Month1));
}

#[test]
fn test_from_str_custom() {
    assert_eq!("45s".parse::<Timeframe>(), Ok(Timeframe::Custom(45)));
    assert_eq!("45sec".parse::<Timeframe>(), Ok(Timeframe::Custom(45)));
    assert_eq!("3min".parse::<Timeframe>(), Ok(Timeframe::Custom(180)));
    assert_eq!("2h".parse::<Timeframe>(), Ok(Timeframe::Custom(7200)));
    assert_eq!("2hour".parse::<Timeframe>(), Ok(Timeframe::Custom(7200)));
    assert_eq!("2d".parse::<Timeframe>(), Ok(Timeframe::Custom(172800)));
    assert_eq!("2day".parse::<Timeframe>(), Ok(Timeframe::Custom(172800)));
}

#[test]
fn test_from_str_custom_zero_rejected() {
    assert!("0s".parse::<Timeframe>().is_err());
    assert!("0min".parse::<Timeframe>().is_err());
}

#[test]
fn test_from_str_invalid() {
    assert!("xyz".parse::<Timeframe>().is_err());
    assert!("".parse::<Timeframe>().is_err());
}

#[test]
fn test_custom_display() {
    assert_eq!(Timeframe::Custom(45).to_string(), "45s");
    assert_eq!(Timeframe::Custom(180).to_string(), "3min");
    assert_eq!(Timeframe::Custom(7200).to_string(), "2h");
}

#[test]
fn test_total_seconds() {
    assert_eq!(Timeframe::Min1.total_seconds(), 60);
    assert_eq!(Timeframe::Hour1.total_seconds(), 3600);
    assert_eq!(Timeframe::Custom(45).total_seconds(), 45);
}

#[test]
fn test_custom_equality() {
    assert_eq!(Timeframe::Custom(60), Timeframe::Custom(60));
    assert_ne!(Timeframe::Custom(60), Timeframe::Custom(120));
    assert_ne!(Timeframe::Custom(60), Timeframe::Min1);
}

#[test]
fn test_preset_from_str_takes_precedence() {
    assert_eq!("1s".parse::<Timeframe>(), Ok(Timeframe::Sec1));
    assert_eq!("5min".parse::<Timeframe>(), Ok(Timeframe::Min5));
    assert_eq!("1h".parse::<Timeframe>(), Ok(Timeframe::Hour1));
}

#[test]
fn parsing_ignores_case_and_spaces_around_the_number() {
    assert_eq!("15MIN".parse::<Timeframe>(), Ok(Timeframe::Min15));
    assert_eq!(" 7 h".parse::<Timeframe>(), Ok(Timeframe::Custom(7 * 3600)));
    assert_eq!("+3w".parse::<Timeframe>(), Ok(Timeframe::Custom(3 * 604_800)));
    assert_eq!("2month".parse::<Timeframe>(), Ok(Timeframe::Custom(2 * 2_592_000)));
    // A bare number counts minutes.
    assert_eq!("45".parse::<Timeframe>(), Ok(Timeframe::Custom(2700)));
    // "m" alone is not a minute suffix.
    assert!("3m".parse::<Timeframe>().is_err());
}

#[test]
fn parse_errors_carry_messages() {
    assert_eq!(
        "0h".parse::<Timeframe>().unwrap_err(),
        "Custom timeframe must be greater than zero"
    );
    let err = "abc".parse::<Timeframe>().unwrap_err();
    assert!(err.starts_with("Invalid timeframe 'abc'. Valid formats: "));
    // A number of seconds that does not fit in 64 bits is refused.
    assert!("18446744073709551615h".parse::<Timeframe>().is_err());
}

#[test]
fn custom_labels_parse_back_to_the_same_length() {
    for secs in [1u64, 45, 60, 90, 180, 3600, 7200, 5400, 86400, 172800, 604800] {
        let label = Timeframe::Custom(secs).to_string();
        let parsed: Timeframe = label.parse().unwrap();
        assert_eq!(parsed.total_seconds(), secs);
    }
    assert_eq!(Timeframe::Custom(0).to_string(), "0s");
}

#[test]
fn presets_are_in_ascending_order() {
    let all = Timeframe::all();
    assert_eq!(all.len(), 17);
    for w in all.windows(2) {
        assert!(w[0].duration_ms() < w[1].duration_ms());
    }
    for tf in &all {
        assert_eq!(tf.to_string().to_lowercase().parse::<Timeframe>(), Ok(*tf));
    }
}

#[test]
fn resolution_strings() {
    assert_eq!(Timeframe::from_resolution("240"), Some(Timeframe::Hour4));
    assert_eq!(Timeframe::from_resolution("4H"), Some(Timeframe::Hour4));
    assert_eq!(Timeframe::from_resolution("M"), Some(Timeframe::Month1));
    assert_eq!(Timeframe::from_resolution("3"), None);
    assert_eq!(Timeframe::default(), Timeframe::Min1);
    assert_eq!(Timeframe::Ms250.total_seconds(), 0);
    assert_eq!(Timeframe::Week1.as_seconds(), 604_800);
    assert_eq!(Timeframe::Month1.to_seconds(), 2_592_000);
}

#[test]
fn labels_parse_back() {
    for tf in Timeframe::all() {
        assert_eq!(tf.to_string().parse::<Timeframe>(), Ok(tf));
    }
    for seconds in [1u64, 45, 60, 90, 180, 3600, 7200, 86400, 172800, 604800, 2_592_000, 12_345_678] {
        let tf = Timeframe::Custom(seconds);
        let back = tf.to_string().parse::<Timeframe>().unwrap();
        assert_eq!(back.duration_ms(), tf.duration_ms());
    }
    // A one-minute custom timeframe reads back as the preset of the same length.
    assert_eq!(Timeframe::Custom(60).to_string().parse::<Timeframe>(), Ok(Timeframe::Min1));
    // The zero-length custom timeframe is the one whose label is refused.
    assert!(Timeframe::Custom(0).to_string().parse::<Timeframe>().is_err());
}

#[test]
fn timeframe_duration_as_chrono() {
    assert_eq!(Timeframe::Hour1.duration(), chrono::Duration::hours(1));
    assert_eq!(Timeframe::Ms250.duration(), chrono::Duration::milliseconds(250));
    assert_eq!(Timeframe::Custom(90).duration(), chrono::Duration::seconds(90));
}

#[test]
fn resolution_names_map_to_timeframes_of_same_length() {
    for r in Resolution::all() {
        match Timeframe::from_resolution(r.name()) {
            None => assert!(matches!(r, Resolution::M3 | Resolution::H2)),
            Some(tf) => assert_eq!(tf.total_seconds(), r.seconds()),
        }
    }
    assert_eq!(Timeframe::from_resolution("4H"), Some(Timeframe::Hour4));
    assert_eq!(Timeframe::from_resolution("D"), Some(Timeframe::Day1));
    assert_eq!(Timeframe::from_resolution("xyz"), None);
}

#[test]
fn custom_labels_parse_back_to_themselves() {
    for n in [90u64, 7200, 3 * 86400, 45, 600] {
        let tf = Timeframe::Custom(n);
        assert_eq!(tf.as_str().parse::<Timeframe>(), Ok(tf));
    }
    // A custom minute reads back as the one-minute preset, of the same length.
    let back: Timeframe = Timeframe::Custom(60).as_str().parse().unwrap();
    assert_eq!(back, Timeframe::Min1);
    for tf in Timeframe::all() {
        assert_eq!(tf.as_str().parse::<Timeframe>(), Ok(tf));
    }
}
