use egui_charts::model::enums::ChartStyle;
use egui_charts::model::{ChartType, ChartTypeCategory};

#[test]
fn test_all_chart_types_count() {
    assert_eq!(ChartType::all().len(), 20);
}

#[test]
fn test_default_is_candles() {
    assert_eq!(ChartType::default(), ChartType::Candles);
}

#[test]
fn test_category_grouping() {
    let standard = ChartType::in_category(ChartTypeCategory::Standard);
    assert!(standard.contains(&ChartType::Candles));
    assert!(standard.contains(&ChartType::Bars));
    assert!(!standard.contains(&ChartType::Line));
}

#[test]
fn test_ohlc_vs_single_value() {
    assert!(ChartType::Candles.uses_ohlc());
    assert!(!ChartType::Line.uses_ohlc());
}

#[test]
fn test_volume_support() {
    assert!(ChartType::Candles.supports_volume());
    assert!(!ChartType::Renko.supports_volume());
}

#[test]
fn test_time_independence() {
    assert!(ChartType::Renko.is_time_independent());
    assert!(!ChartType::Candles.is_time_independent());
}

#[test]
fn test_display_trait() {
    assert_eq!(ChartType::Candles.to_string(), "Candles");
    assert_eq!(ChartType::Heikin.to_string(), "Heikin Ashi");
}

#[test]
fn chart_style_round_trip_for_every_mapped_type() {
    for ct in ChartType::all() {
        if let Some(style) = ct.to_chart_style() {
            assert_eq!(ChartType::from(style), *ct);
        }
    }
    assert_eq!(ChartType::Range.to_chart_style(), None);
    assert_eq!(ChartType::VolumeFootprint.to_chart_style(), None);
}

#[test]
fn chart_style_closest_matches() {
    assert_eq!(ChartType::from(ChartStyle::Column), ChartType::Bars);
    assert_eq!(ChartType::from(ChartStyle::HLCBars), ChartType::HighLow);
    assert_eq!(ChartType::from(ChartStyle::PnF), ChartType::PointAndFigure);
}

#[test]
fn every_category_lists_its_members_in_display_order() {
    let japanese = ChartType::in_category(ChartTypeCategory::Japanese);
    assert_eq!(
        japanese,
        vec![ChartType::LineBreak, ChartType::Kagi, ChartType::Renko, ChartType::Heikin]
    );
    assert_eq!(
        ChartType::in_category(ChartTypeCategory::RangeBased),
        vec![ChartType::Range, ChartType::PointAndFigure]
    );
    assert_eq!(
        ChartType::in_category(ChartTypeCategory::Advanced),
        vec![
            ChartType::HighLow,
            ChartType::VolumeFootprint,
            ChartType::TimePriceOpportunity,
            ChartType::SessionVolume
        ]
    );
    assert_eq!(ChartType::PointAndFigure.category(), ChartTypeCategory::RangeBased);
    assert_eq!(ChartType::HighLow.category(), ChartTypeCategory::Advanced);
    let total: usize = ChartTypeCategory::all()
        .iter()
        .map(|c| ChartType::in_category(*c).len())
        .sum();
    assert_eq!(total, ChartType::all().len());
}

#[test]
fn chart_type_names_and_descriptions() {
    assert_eq!(ChartType::PointAndFigure.name(), "Point & Figure");
    assert_eq!(ChartType::HlcArea.as_str(), "HLC area");
    assert_eq!(ChartType::Renko.description(), "Renko bricks");
    assert_eq!(ChartType::Renko.desc(), "Renko bricks");
    assert_eq!(ChartType::Heikin.category(), ChartTypeCategory::Japanese);
    assert_eq!(ChartTypeCategory::LineBased.name(), "Line");
    assert!(ChartType::Heikin.transforms_data());
    assert!(!ChartType::Heikin.requires_parameters());
    assert!(ChartType::Baseline.requires_parameters());
}
