use egui_charts::model::enums::{
    BackgroundType, ChartMode, ChartStyle, ChartTheme, ClearMarksMode, CrosshairMode,
    FilledAreaType, LineStyle, MagnetMode, MarkLocation, OverrideLineStyle,
    OverridePriceAxisLastValueMode, PriceLineSource, PriceScaleMode, Resolution, ScaleLocation,
    Size, StudyDisplayTarget, StudyInputType, StudyPlotType, Timezone,
};

#[test]
fn test_resolution_seconds() {
    assert_eq!(Resolution::M1.seconds(), 60);
    assert_eq!(Resolution::H1.seconds(), 3600);
    assert_eq!(Resolution::D1.seconds(), 86400);
}

#[test]
fn test_resolution_parse() {
    assert_eq!(Resolution::try_from("5").unwrap(), Resolution::M5);
    assert_eq!(Resolution::try_from("1D").unwrap(), Resolution::D1);
    assert!(Resolution::try_from("invalid").is_err());
}

#[test]
fn test_chart_theme_is_dark() {
    assert!(!ChartTheme::Light.is_dark(true));
    assert!(ChartTheme::Dark.is_dark(false));
    assert!(ChartTheme::Auto.is_dark(true));
}

#[test]
fn test_price_line_source_all() {
    assert_eq!(PriceLineSource::all().len(), 8);
}

#[test]
fn test_display_target_values() {
    assert_eq!(StudyDisplayTarget::NoDisplay.value(), 0);
    assert_eq!(StudyDisplayTarget::PriceScale.value(), 1);
    assert_eq!(StudyDisplayTarget::All.value(), 15);
}

#[test]
fn test_study_plot_type_count() {
    assert!(StudyPlotType::all().len() >= 18);
}

#[test]
fn test_study_input_type_count() {
    assert_eq!(StudyInputType::all().len(), 13);
}

#[test]
fn test_clear_marks_mode() {
    assert_eq!(ClearMarksMode::all().len(), 3);
    assert_eq!(ClearMarksMode::All.name(), "all");
}

#[test]
fn test_mark_location() {
    assert_eq!(MarkLocation::all().len(), 6);
    assert_eq!(MarkLocation::AboveBar.name(), "AboveBar");
    assert_eq!(MarkLocation::Top.display_name(), "Top");
}

#[test]
fn resolution_names_parse_back() {
    for r in Resolution::all() {
        assert_eq!(Resolution::try_from(r.name()).unwrap(), *r);
        assert_eq!(r.seconds(), 60 * r.minutes() as u64);
        assert_eq!(r.is_intraday(), !r.is_daily_or_higher());
    }
    assert_eq!(Resolution::try_from("W").unwrap(), Resolution::W1);
    assert_eq!(Resolution::try_from("M").unwrap(), Resolution::MN1);
    assert_eq!(
        Resolution::try_from("2H").unwrap_err(),
        "Unknown resolution: 2H"
    );
    assert_eq!(Resolution::MN1.seconds(), 2_592_000);
    assert_eq!(Resolution::H4.to_string(), "4 hours");
}

#[test]
fn display_target_flags_combine() {
    let all = StudyDisplayTarget::PriceScale.value()
        | StudyDisplayTarget::SeparatePane.value()
        | StudyDisplayTarget::StatusLine.value()
        | StudyDisplayTarget::DataWindow.value();
    assert_eq!(all, StudyDisplayTarget::All.value());
}

#[test]
fn wire_names_and_values() {
    assert_eq!(ChartStyle::HighLow.tv_value(), 12);
    assert_eq!(ChartStyle::HLCBars.tv_value(), 21);
    assert_eq!(ChartStyle::HighLow.tv_id(), "HiLo");
    assert_eq!(ChartStyle::PnF.display_name(), "Point & Figure");
    assert!(ChartStyle::Baseline.requires_parameters());
    assert!(!ChartStyle::HeikinAshi.requires_parameters());
    assert_eq!(ChartStyle::default(), ChartStyle::Candle);
    assert_eq!(ChartStyle::all().len(), 18);
    assert_eq!(OverrideLineStyle::Dotted.tv_value(), 2);
    assert_eq!(OverridePriceAxisLastValueMode::LastValueAndPreviousClose.tv_value(), 2);
    assert_eq!(Timezone::AmericaLosAngeles.standard_offset_secs(), -8 * 3600);
    assert_eq!(Timezone::AsiaTokyo.name(), "Asia/Tokyo");
    assert_eq!(ChartMode::Percentage.short_name(), "%");
    assert_eq!(LineStyle::LargeDashed.name(), "large_dashed");
    assert_eq!(PriceScaleMode::IndexedTo100.name(), "indexedTo100");
    assert_eq!(MagnetMode::default(), MagnetMode::Off);
    assert_eq!(Size::default(), Size::Medium);
    assert_eq!(Size::XLarge.display_name(), "Extra Large");
    assert_eq!(CrosshairMode::Both.to_string(), "Both");
    assert_eq!(ScaleLocation::NoScale.name(), "none");
    assert_eq!(BackgroundType::VerticalGradient.name(), "gradient_vertical");
    assert_eq!(FilledAreaType::HorizontalLine.display_name(), "To Level");
}

#[test]
fn all_lists_every_variant_once() {
    let styles = LineStyle::all();
    assert_eq!(styles.len(), 5);
    for (i, a) in styles.iter().enumerate() {
        for b in &styles[i + 1..] {
            assert_ne!(a, b);
        }
    }
    assert_eq!(Timezone::all().len(), 15);
    assert_eq!(Timezone::all()[0], Timezone::Local);
}
