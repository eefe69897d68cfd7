use chrono::TimeZone;
use egui_charts::scales::{
    generate_candidate_marks, generate_candidate_marks_checked, map_marks_to_bars,
    reduce_marks_cnt, TickMark,
    classify_calendar_boundary, classify_time_boundary, classify_time_boundary_checked,
    determine_mark_type_and_weight,
    insert_thousands_separator, relative_label, trim_trailing_zeros, AutoScaleMode,
    CurrencyFormatter, DefaultPriceFormatter, DefaultTimeFormatter, DualPriceScaleManager,
    LocaleTimeFormatter,
    PriceDisplayMode, PriceFormatterBuilder, PriceFormatterKind, PriceScaleId, PriceScaleMode,
    RelativeTimeFormatter, ScientificFormatter, TickMarkType, TickMarkWeight, TimeFormatterBuilder, TimeFormatterKind,
    VolumeFormatter,
};

fn fixed(price: f64, precision: usize) -> String {
    format!("{:.prec$}", price, prec = precision)
}

#[test]
fn test_tick_mark_weight_ordering() {
    assert!(TickMarkWeight::year() > TickMarkWeight::month());
    assert!(TickMarkWeight::month() > TickMarkWeight::day());
    assert!(TickMarkWeight::day() > TickMarkWeight::hour());
    assert!(TickMarkWeight::hour() > TickMarkWeight::minute());
}

#[test]
fn tick_mark_weight_is_capped() {
    assert_eq!(TickMarkWeight::new(150).value(), 100);
    assert_eq!(TickMarkWeight::new(42).value(), 42);
    assert_eq!(TickMarkWeight::subsecond().value(), 5);
}

#[test]
fn price_formatter_test_default_formatter() {
    let formatter = DefaultPriceFormatter::default();
    assert_eq!(formatter.finish_label(&fixed(123.456, formatter.precision)), "123.46");
    assert_eq!(formatter.finish_label(&fixed(123.0, formatter.precision)), "123");
}

#[test]
fn test_fixed_precision() {
    let formatter = DefaultPriceFormatter::with_precision(4);
    assert_eq!(formatter.finish_label(&fixed(123.456, formatter.precision)), "123.4560");
}

#[test]
fn test_currency_formatter() {
    let usd = CurrencyFormatter::usd();
    assert_eq!(usd.finish_label(&fixed(1234.56, usd.precision)), "$1,234.56");

    let eur = CurrencyFormatter::eur();
    assert!(eur.finish_label(&fixed(1234.56, eur.precision)).contains("€"));

    let btc = CurrencyFormatter::btc();
    assert!(btc.finish_label(&fixed(0.12345678, btc.precision)).contains("₿"));
}

#[test]
fn price_formatter_test_formatter_builder() {
    match PriceFormatterBuilder::new().with_precision(4).kind() {
        PriceFormatterKind::Fixed { precision } => {
            let f = DefaultPriceFormatter::with_precision(precision);
            assert_eq!(f.finish_label(&fixed(123.456789, precision)), "123.4568");
        }
        other => panic!("unexpected formatter {other:?}"),
    }
    match PriceFormatterBuilder::new().with_currency("$").with_precision(2).kind() {
        PriceFormatterKind::Currency { symbol, precision } => {
            let f = CurrencyFormatter::new(&symbol, precision);
            assert!(f.finish_label(&fixed(100.0, precision)).contains("$"));
        }
        other => panic!("unexpected formatter {other:?}"),
    }
}

#[test]
fn builder_precedence() {
    assert!(matches!(
        PriceFormatterBuilder::new().with_currency("$").as_volume().as_percentage().kind(),
        PriceFormatterKind::Percentage { precision: 2 }
    ));
    assert!(matches!(
        PriceFormatterBuilder::new().with_currency("$").as_volume().kind(),
        PriceFormatterKind::Volume { precision: 2 }
    ));
    assert_eq!(VolumeFormatter::default().precision, 2);
    assert_eq!(ScientificFormatter::default().precision, 3);
    assert_eq!(DefaultPriceFormatter::auto().precision, 8);
}

#[test]
fn thousands_grouping() {
    assert_eq!(insert_thousands_separator("1234567.891", ','), "1,234,567.891");
    assert_eq!(insert_thousands_separator("123", ','), "123");
    assert_eq!(insert_thousands_separator("1234", '.'), "1.234");
    assert_eq!(insert_thousands_separator("1234.", ','), "1,234");
    // The sign stays in front of the grouped digits.
    assert_eq!(insert_thousands_separator("-123456.5", ','), "-123,456.5");
    let eur = CurrencyFormatter::eur();
    assert_eq!(eur.finish_label("1234567.50"), "1.234.567.50 €");
}

#[test]
fn trailing_zero_trimming() {
    assert_eq!(trim_trailing_zeros("12.50000000"), "12.5");
    assert_eq!(trim_trailing_zeros("3.00"), "3");
    assert_eq!(trim_trailing_zeros("100"), "1");
    assert_eq!(trim_trailing_zeros("0.000"), "0");
}

#[test]
fn price_scale_mode_parsing() {
    assert_eq!("LOG".parse::<PriceScaleMode>(), Ok(PriceScaleMode::Logarithmic));
    assert_eq!("%".parse::<PriceScaleMode>(), Ok(PriceScaleMode::Percentage));
    assert_eq!("Indexed to 100".parse::<PriceScaleMode>(), Ok(PriceScaleMode::IndexedTo100));
    assert_eq!(
        "linear".parse::<PriceScaleMode>().unwrap_err(),
        "Invalid price scale mode: linear"
    );
    assert_eq!(PriceScaleMode::IndexedTo100.to_string(), "Indexed to 100");
    assert_eq!(PriceScaleMode::default(), PriceScaleMode::Normal);
}

#[test]
fn display_modes() {
    assert_eq!(AutoScaleMode::visible_with_standard_padding().to_string(), "Visible + 10% padding");
    assert_eq!(AutoScaleMode::Custom { min: 1, max: 2 }.to_string(), "Custom Range");
    assert_eq!(AutoScaleMode::default(), AutoScaleMode::VisibleData);
    assert_eq!(
        PriceDisplayMode::BasisPoints { reference_price: None }.to_string(),
        "Basis Points"
    );
    assert_eq!(PriceDisplayMode::default(), PriceDisplayMode::Absolute);
}

#[test]
fn price_scale_ids() {
    assert_eq!(PriceScaleId::Left.opposite(), PriceScaleId::Right);
    assert_eq!(PriceScaleId::Right.opposite().opposite(), PriceScaleId::Right);
    assert_eq!(PriceScaleId::default(), PriceScaleId::Right);
    assert_eq!(PriceScaleId::Left.to_string(), "left");
}

#[test]
fn time_patterns() {
    let f = DefaultTimeFormatter::default();
    assert_eq!(f.pattern(TickMarkType::Year), "%Y");
    assert_eq!(f.pattern(TickMarkType::DayOfMonth), "%b %d");
    assert_eq!(f.pattern(TickMarkType::TimeWithSeconds), "%H:%M:%S");
    let twelve = DefaultTimeFormatter { use_24_hour: false, show_seconds: false };
    assert_eq!(twelve.pattern(TickMarkType::TimeWithSeconds), "%I:%M %p");
    assert!(!LocaleTimeFormatter::new("en-US").use_24_hour);
    assert!(LocaleTimeFormatter::new("de-DE").use_24_hour);
}

#[test]
fn relative_labels() {
    assert_eq!(relative_label(-5), "future");
    assert_eq!(relative_label(45), "45s ago");
    assert_eq!(relative_label(120), "2m ago");
    assert_eq!(relative_label(7200), "2h ago");
    assert_eq!(relative_label(3 * 86400), "3d ago");
    assert_eq!(relative_label(2 * 604800), "2w ago");
    assert_eq!(relative_label(3 * 2592000), "3mo ago");
    assert_eq!(relative_label(2 * 31536000), "2y ago");
}

#[test]
fn time_formatter_builder_kinds() {
    match TimeFormatterBuilder::new().with_24_hour(false).with_seconds(false).kind() {
        TimeFormatterKind::Default(f) => {
            assert!(!f.use_24_hour);
            assert!(!f.show_seconds);
        }
        other => panic!("unexpected formatter {other:?}"),
    }
    match TimeFormatterBuilder::new().with_locale("ja-JP").kind() {
        TimeFormatterKind::Locale(f) => assert_eq!(f.locale, "ja-JP"),
        other => panic!("unexpected formatter {other:?}"),
    }
}

fn utc_ms(y: i32, mo: u32, d: u32, h: u32, mi: u32, se: u32) -> i64 {
    chrono::Utc.with_ymd_and_hms(y, mo, d, h, mi, se).unwrap().timestamp_millis()
}

#[test]
fn test_time_boundary_classification() {
    // Year boundary
    let time = utc_ms(2024, 1, 1, 0, 0, 0);
    let (mark_type, weight) = classify_time_boundary(time, TickMarkType::Time);
    assert_eq!(mark_type, TickMarkType::Year);
    assert_eq!(weight, TickMarkWeight::year());

    // Month boundary
    let time = utc_ms(2024, 6, 1, 0, 0, 0);
    let (mark_type, weight) = classify_time_boundary(time, TickMarkType::Time);
    assert_eq!(mark_type, TickMarkType::Month);
    assert_eq!(weight, TickMarkWeight::month());

    // Hour boundary (use hour 13, not 12, since 12 is a 4-hour boundary)
    let time = utc_ms(2024, 6, 15, 13, 0, 0);
    let (mark_type, weight) = classify_time_boundary(time, TickMarkType::Time);
    assert_eq!(mark_type, TickMarkType::Time);
    assert_eq!(weight, TickMarkWeight::hour());
}

#[test]
fn boundary_classes_below_the_hour() {
    // 2024-06-17 is a Monday.
    assert_eq!(
        classify_time_boundary(utc_ms(2024, 6, 17, 0, 0, 0), TickMarkType::Time),
        (TickMarkType::DayOfMonth, TickMarkWeight::week())
    );
    assert_eq!(
        classify_time_boundary(utc_ms(2024, 6, 15, 0, 0, 0), TickMarkType::Time),
        (TickMarkType::DayOfMonth, TickMarkWeight::day())
    );
    assert_eq!(
        classify_time_boundary(utc_ms(2024, 6, 15, 12, 0, 0), TickMarkType::Time),
        (TickMarkType::Time, TickMarkWeight::hour_4())
    );
    assert_eq!(
        classify_time_boundary(utc_ms(2024, 6, 15, 13, 30, 0), TickMarkType::Time),
        (TickMarkType::Time, TickMarkWeight::min_30())
    );
    assert_eq!(
        classify_time_boundary(utc_ms(2024, 6, 15, 13, 45, 0), TickMarkType::Time),
        (TickMarkType::Time, TickMarkWeight::min_15())
    );
    assert_eq!(
        classify_time_boundary(utc_ms(2024, 6, 15, 13, 35, 0), TickMarkType::Time),
        (TickMarkType::Time, TickMarkWeight::min_5())
    );
    assert_eq!(
        classify_time_boundary(utc_ms(2024, 6, 15, 13, 31, 0), TickMarkType::Time),
        (TickMarkType::Time, TickMarkWeight::minute())
    );
    assert_eq!(
        classify_time_boundary(utc_ms(2024, 6, 15, 13, 31, 20), TickMarkType::Time),
        (TickMarkType::TimeWithSeconds, TickMarkWeight::sec_10())
    );
    assert_eq!(
        classify_time_boundary(utc_ms(2024, 6, 15, 13, 31, 21), TickMarkType::Time),
        (TickMarkType::Time, TickMarkWeight::second())
    );
    // Day-level primary types are never downgraded to time of day.
    assert_eq!(
        classify_time_boundary(utc_ms(2024, 6, 15, 14, 30, 0), TickMarkType::DayOfMonth),
        (TickMarkType::DayOfMonth, TickMarkWeight::day())
    );
    // Before the epoch the fields still come from the UTC calendar.
    assert_eq!(
        classify_time_boundary(utc_ms(1969, 12, 31, 23, 0, 0), TickMarkType::Time),
        (TickMarkType::Time, TickMarkWeight::hour())
    );
    assert_eq!(
        classify_calendar_boundary(3, 5, 7, 0, 0, 2, TickMarkType::Time),
        (TickMarkType::Time, TickMarkWeight::hour())
    );
    assert!(classify_time_boundary_checked(i64::MAX, TickMarkType::Time).is_none());
    assert_eq!(
        classify_time_boundary_checked(utc_ms(2024, 1, 1, 0, 0, 0), TickMarkType::Time),
        Some((TickMarkType::Year, TickMarkWeight::year()))
    );
}

#[test]
fn interval_mark_types() {
    assert_eq!(
        determine_mark_type_and_weight(0),
        (TickMarkType::TimeWithSeconds, TickMarkWeight::subsecond())
    );
    assert_eq!(
        determine_mark_type_and_weight(30),
        (TickMarkType::TimeWithSeconds, TickMarkWeight::second())
    );
    assert_eq!(determine_mark_type_and_weight(300), (TickMarkType::Time, TickMarkWeight::minute()));
    assert_eq!(determine_mark_type_and_weight(7200), (TickMarkType::Time, TickMarkWeight::hour()));
    assert_eq!(
        determine_mark_type_and_weight(86400),
        (TickMarkType::DayOfMonth, TickMarkWeight::day())
    );
    assert_eq!(
        determine_mark_type_and_weight(2592000),
        (TickMarkType::Month, TickMarkWeight::month())
    );
    assert_eq!(
        determine_mark_type_and_weight(31536000),
        (TickMarkType::Year, TickMarkWeight::year())
    );
}

#[test]
fn time_formatter_test_default_formatter() {
    let formatter = DefaultTimeFormatter::default();
    let time = utc_ms(2024, 6, 15, 14, 30, 45);

    assert_eq!(formatter.format(time, TickMarkType::Year), "2024");
    assert_eq!(formatter.format(time, TickMarkType::Month), "Jun");
    assert_eq!(formatter.format(time, TickMarkType::Time), "14:30");
    assert_eq!(formatter.format(time, TickMarkType::TimeWithSeconds), "14:30:45");
    assert_eq!(formatter.format(time, TickMarkType::DayOfMonth), "Jun 15");
}

#[test]
fn test_12_hour_format() {
    let formatter = DefaultTimeFormatter { use_24_hour: false, show_seconds: true };
    let time = utc_ms(2024, 6, 15, 14, 30, 45);

    let result = formatter.format(time, TickMarkType::Time);
    assert!(result.contains("PM"));
    assert_eq!(formatter.format(time, TickMarkType::TimeWithSeconds), "02:30:45 PM");
}

#[test]
fn test_relative_formatter() {
    let reference = utc_ms(2024, 6, 15, 14, 30, 0);
    let formatter = RelativeTimeFormatter::new(reference);

    let time = utc_ms(2024, 6, 15, 14, 28, 0);
    assert_eq!(formatter.format(time, TickMarkType::Time), "2m ago");

    let time = utc_ms(2024, 6, 15, 12, 30, 0);
    assert_eq!(formatter.format(time, TickMarkType::Time), "2h ago");

    assert_eq!(formatter.format(reference + 500, TickMarkType::Time), "0s ago");
    assert_eq!(formatter.format(reference + 1500, TickMarkType::Time), "future");
}

#[test]
fn time_formatter_test_formatter_builder() {
    let formatter = TimeFormatterBuilder::new().with_24_hour(false).with_seconds(false).kind();

    let time = utc_ms(2024, 6, 15, 14, 30, 45);
    let result = formatter.format(time, TickMarkType::Time);
    assert!(result.contains("PM"));
    assert_eq!(formatter.format(time, TickMarkType::TimeWithSeconds), "02:30 PM");
    // The builder's clock choice applies to a locale formatter too.
    let locale = TimeFormatterBuilder::new().with_locale("en-US").kind();
    assert_eq!(locale.format(time, TickMarkType::TimeWithSeconds), "14:30:45");
    let us = LocaleTimeFormatter::new("en-US");
    assert_eq!(us.format(time, TickMarkType::TimeWithSeconds), "02:30:45 PM");
    assert_eq!(locale.format_checked(i64::MAX, TickMarkType::Year), None);
    assert_eq!(locale.format_checked(time, TickMarkType::Year), Some("2024".to_string()));
}

#[test]
fn test_label_formatting() {
    // Tick mark labels are rendered by the default time formatter.
    let formatter = DefaultTimeFormatter::default();
    let time = utc_ms(2024, 6, 15, 14, 30, 45);

    assert_eq!(formatter.format(time, TickMarkType::Year), "2024");
    assert_eq!(formatter.format(time, TickMarkType::Month), "Jun");
    assert_eq!(formatter.format(time, TickMarkType::DayOfMonth), "Jun 15");
    assert_eq!(formatter.format(time, TickMarkType::Time), "14:30");
    assert_eq!(formatter.format(time, TickMarkType::TimeWithSeconds), "14:30:45");
}

fn mark(time: i64, weight: TickMarkWeight, label: &str) -> TickMark {
    TickMark { time, mark_type: TickMarkType::Time, weight, label: label.to_string(), index: 0 }
}

#[test]
fn candidate_marks_from_rounded_start() {
    let formatter = TimeFormatterBuilder::new().kind();
    let start = utc_ms(2024, 6, 15, 13, 58, 30);
    let end = utc_ms(2024, 6, 15, 14, 10, 0);
    let marks =
        generate_candidate_marks_checked(start, end, 300_000, TickMarkType::Time, &formatter).unwrap();
    let labels: Vec<&str> = marks.iter().map(|m| m.label.as_str()).collect();
    assert_eq!(labels, vec!["13:58", "14:03", "14:08"]);
    assert_eq!(marks[0].time, utc_ms(2024, 6, 15, 13, 58, 0));
    assert!(marks.iter().all(|m| m.weight == TickMarkWeight::minute() && m.index == 0));

    // An hour apart: rounded to the hour, 4-hour and day boundaries weigh more.
    let marks = generate_candidate_marks(
        utc_ms(2024, 6, 15, 22, 30, 0),
        utc_ms(2024, 6, 16, 1, 0, 0),
        3_600_000,
        TickMarkType::Time,
        &formatter,
    );
    let weights: Vec<u8> = marks.iter().map(|m| m.weight.value()).collect();
    assert_eq!(weights, vec![40, 40, 60, 40]);
    assert_eq!(marks[2].mark_type, TickMarkType::DayOfMonth);
    assert_eq!(marks[2].label, "Jun 16");

    // Below a second the start is rounded to a multiple of the interval.
    let base = utc_ms(2024, 6, 15, 12, 0, 0);
    let marks =
        generate_candidate_marks(base + 130, base + 700, 250, TickMarkType::TimeWithSeconds, &formatter);
    let times: Vec<i64> = marks.iter().map(|m| m.time - base).collect();
    assert_eq!(times, vec![0, 250, 500]);

    assert!(generate_candidate_marks_checked(start, end, 0, TickMarkType::Time, &formatter).is_none());
    assert!(generate_candidate_marks_checked(end, start, 60_000, TickMarkType::Time, &formatter)
        .unwrap()
        .is_empty());
    assert!(
        generate_candidate_marks_checked(i64::MAX - 10, i64::MAX, 1, TickMarkType::Time, &formatter)
            .is_none()
    );
}

#[test]
fn reduce_keeps_heaviest_marks_in_time_order() {
    let marks = vec![
        mark(10, TickMarkWeight::minute(), "a"),
        mark(20, TickMarkWeight::day(), "b"),
        mark(30, TickMarkWeight::minute(), "c"),
        mark(40, TickMarkWeight::hour(), "d"),
        mark(50, TickMarkWeight::day(), "e"),
        mark(60, TickMarkWeight::minute(), "f"),
    ];
    let kept = reduce_marks_cnt(marks.clone(), 4);
    let labels: Vec<&str> = kept.iter().map(|m| m.label.as_str()).collect();
    // The two day marks, the hour mark, and the earliest minute mark.
    assert_eq!(labels, vec!["a", "b", "d", "e"]);
    let all = reduce_marks_cnt(marks.clone(), 6);
    assert_eq!(all.len(), 6);
    assert!(reduce_marks_cnt(marks, 0).is_empty());
}

#[test]
fn marks_take_the_closest_bar_index() {
    let marks = vec![mark(100, TickMarkWeight::minute(), "a"), mark(250, TickMarkWeight::minute(), "b")];
    let bars = [(0i64, 0usize), (200, 1), (300, 2)];
    let mapped = map_marks_to_bars(marks.clone(), &bars);
    // 100 is as close to 0 as to 200: the first bar wins.
    assert_eq!(mapped[0].index, 0);
    // 250 is as close to 200 as to 300: the first of them wins.
    assert_eq!(mapped[1].index, 1);
    let unmapped = map_marks_to_bars(marks, &[]);
    assert_eq!(unmapped[1].index, 0);
}

#[test]
fn test_series_assignment() {
    let mut manager = DualPriceScaleManager::new();

    // Default assignment is right
    assert_eq!(manager.get_series_scale("BTCUSDT"), PriceScaleId::Right);

    // Assign to left
    manager.assign_series("RSI", PriceScaleId::Left);
    assert_eq!(manager.get_series_scale("RSI"), PriceScaleId::Left);

    // Get assigned series
    let left_series = manager.get_assigned_series(PriceScaleId::Left);
    assert!(left_series.contains(&"RSI"));
}

#[test]
fn test_dual_scale_modes() {
    let mut manager = DualPriceScaleManager::new();

    // Set different modes for each scale
    manager.set_mode(PriceScaleId::Right, PriceScaleMode::Normal);
    manager.set_mode(PriceScaleId::Left, PriceScaleMode::Percentage);

    assert_eq!(manager.get_mode(PriceScaleId::Right), PriceScaleMode::Normal);
    assert_eq!(manager.get_mode(PriceScaleId::Left), PriceScaleMode::Percentage);
}

#[test]
fn dual_scales_default_visibility() {
    let mut manager = DualPriceScaleManager::default();
    assert!(manager.is_visible(PriceScaleId::Right));
    assert!(!manager.is_visible(PriceScaleId::Left));
    manager.set_visible(PriceScaleId::Left, true);
    assert!(manager.is_visible(PriceScaleId::Left));
    assert!(manager.is_visible(PriceScaleId::Right));
    assert_eq!(manager.get_mode(PriceScaleId::Left), PriceScaleMode::Normal);
}

#[test]
fn reassigned_and_unassigned_series_read_back() {
    let mut manager = DualPriceScaleManager::new();
    manager.assign_series("RSI", PriceScaleId::Left);
    manager.assign_series("MACD", PriceScaleId::Left);
    manager.assign_series("BTCUSDT", PriceScaleId::Right);
    manager.assign_series("RSI", PriceScaleId::Right);
    assert_eq!(manager.get_series_scale("RSI"), PriceScaleId::Right);
    assert_eq!(manager.get_series_scale("MACD"), PriceScaleId::Left);
    assert_eq!(manager.get_assigned_series(PriceScaleId::Left), vec!["MACD"]);
    let mut right = manager.get_assigned_series(PriceScaleId::Right);
    right.sort();
    assert_eq!(right, vec!["BTCUSDT", "RSI"]);

    manager.assign_series("MACD", PriceScaleId::Left);
    assert_eq!(manager.get_assigned_series(PriceScaleId::Left).len(), 1);

    manager.unassign_series("MACD");
    assert_eq!(manager.get_series_scale("MACD"), PriceScaleId::Right);
    assert!(manager.get_assigned_series(PriceScaleId::Left).is_empty());
    manager.unassign_series("never-assigned");
    assert_eq!(manager.get_assigned_series(PriceScaleId::Right).len(), 2);
}

#[test]
fn price_scale_mode_names_parse_back() {
    for mode in [
        PriceScaleMode::Normal,
        PriceScaleMode::Logarithmic,
        PriceScaleMode::Percentage,
        PriceScaleMode::IndexedTo100,
    ] {
        assert_eq!(mode.to_string().parse::<PriceScaleMode>(), Ok(mode));
    }
}

#[test]
fn fixed_precision_zero_keeps_integer_digits() {
    let f = DefaultPriceFormatter::with_precision(0);
    assert_eq!(f.finish_label(&fixed(120.0, 0)), "120");
    assert_eq!(f.finish_label(&fixed(1000.0, 0)), "1000");
    let auto = DefaultPriceFormatter::auto();
    assert_eq!(auto.finish_label(&fixed(120.0, 8)), "120");
    assert_eq!(auto.finish_label(&fixed(12.5, 8)), "12.5");
    // Auto mode printing without decimals keeps every digit too.
    let auto0 = DefaultPriceFormatter { precision: 0, min_precision: 0 };
    assert_eq!(auto0.finish_label(&fixed(120.0, 0)), "120");
}

#[test]
fn thousands_separator_skips_the_sign() {
    let usd = CurrencyFormatter::usd();
    assert_eq!(usd.finish_label(&fixed(-123.0, 2)), "$-123.00");
    assert_eq!(usd.finish_label(&fixed(-1234567.891, 2)), "$-1,234,567.89");
    assert_eq!(usd.finish_label(&fixed(1234.56, 2)), "$1,234.56");
    assert_eq!(insert_thousands_separator("-123456.7", ','), "-123,456.7");
    assert_eq!(insert_thousands_separator("-999", ','), "-999");
    assert_eq!(insert_thousands_separator("-1000", '.'), "-1.000");
}
