use egui_charts::model::{
    DataStatus, LibrarySymbolInfo, PriceSource, Symbol, SymbolFormat, SymbolType,
};

#[test]
fn test_symbol_type_display() {
    assert_eq!(SymbolType::Stock.to_string(), "stock");
    assert_eq!(SymbolType::Crypto.to_string(), "crypto");
    assert_eq!(SymbolType::Futures.to_string(), "futures");
    assert_eq!(SymbolType::Forex.to_string(), "forex");
}

#[test]
fn test_data_status_display() {
    assert_eq!(DataStatus::Streaming.to_string(), "streaming");
    assert_eq!(DataStatus::EndOfDay.to_string(), "endofday");
    assert_eq!(DataStatus::Delayed.to_string(), "delayed");
}

#[test]
fn test_symbol_format_display() {
    assert_eq!(SymbolFormat::Price.to_string(), "price");
    assert_eq!(SymbolFormat::Volume.to_string(), "volume");
}

#[test]
fn test_default_library_symbol_info() {
    let info = LibrarySymbolInfo::default();
    assert_eq!(info.pricescale, 100);
    assert_eq!(info.minmov, 1);
    assert!(info.has_intraday);
    assert!(info.has_daily);
    assert!(!info.has_no_volume);
    assert!(!info.expired);
    assert_eq!(info.timezone, "Etc/UTC");
    assert_eq!(info.session, "24x7");
    assert_eq!(info.data_status, DataStatus::Streaming);
    assert_eq!(info.format, SymbolFormat::Price);
    assert_eq!(info.supported_resolutions.len(), 8);
}

#[test]
fn test_symbol_type_default() {
    assert_eq!(SymbolType::default(), SymbolType::Stock);
}

#[test]
fn default_symbol_info_resolutions() {
    let info = LibrarySymbolInfo::default();
    assert_eq!(info.supported_resolutions, vec!["1", "5", "15", "30", "60", "D", "W", "M"]);
    assert_eq!(info.intraday_multipliers, vec!["1", "5", "15", "30", "60"]);
    assert!(info.ticker.is_none());
    assert!(info.library_custom_fields.is_none());
}

#[test]
fn symbol_is_active_on_creation() {
    let sym = Symbol::new("BTCUSDT", "Bitcoin / Tether");
    assert_eq!(sym.name, "BTCUSDT");
    assert_eq!(sym.display_name, "Bitcoin / Tether");
    assert!(sym.active);
}

#[test]
fn price_sources() {
    let all = PriceSource::all();
    assert_eq!(all.len(), 7);
    assert_eq!(all[4], PriceSource::HL2);
    assert_eq!(PriceSource::HLC3.label(), "HLC/3");
    assert_eq!(PriceSource::default(), PriceSource::Close);
}
