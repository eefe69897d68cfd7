//! Core data models for financial charting.
//!
//! Provides chart type and style definitions, timeframes, symbol metadata,
//! and the enumerations used by the chart transformations and overlays.

mod annotations;
pub mod chart_type;
mod chartstate;
pub mod color;
mod date_range;
pub mod enums;
pub mod footprint;
pub mod kagi;
pub mod line_break;
pub mod point_figure;
mod price_source;
pub mod quote;
pub mod renko;
pub mod session;
mod symbol;
pub mod symbol_info;
pub mod timeframe;
pub mod tpo;

pub use annotations::{AnnotationPos, MarkerType};
pub use chart_type::{ChartType, ChartTypeCategory};
pub use chartstate::clamp_visible_range;
pub use color::{ColorType, Rgba};
pub use date_range::DateRange;
pub use footprint::{FootprintColorMode, FootprintDisplayMode};
pub use kagi::KagiThickness;
pub use line_break::{
    LineBreakConfig, LineBreakSignal, LineDirection, detect_signal as detect_line_break_signal,
};
pub use point_figure::ColumnDirection;
pub use price_source::PriceSource;
pub use quote::{QuoteSourceError, TradeSide};
pub use renko::RenkoDirection;
pub use session::{
    CompositeSessionProvider, DailySessionProvider, MonthlySessionProvider, SessionBreak, SessionBreakType, SessionProvider,
    WeeklySessionProvider, find_session_breaks, find_session_breaks_checked,
};
pub use symbol::Symbol;
pub use symbol_info::{DataStatus, LibrarySymbolInfo, SubsessionInfo, SymbolFormat, SymbolType};
pub use timeframe::Timeframe;
pub use tpo::{ProfileShape, SessionType, TPOColorMode, TPODisplayMode};
