//! Price and time scale definitions for charting.
//!
//! | Component                  | Purpose                                                  |
//! |---------------------------|----------------------------------------------------------|
//! | [`PriceScaleMode`]        | Normal, Log, %, Indexed price scale modes                |
//! | [`PriceScaleId`]          | Left/right Y-axis identifiers                            |
//! | [`PriceDisplayMode`]      | Absolute / Percentage / Points / BPS display              |
//! | [`AutoScaleMode`]         | Auto-scale strategies for the price axis                  |
//! | [`TickMarkWeight`]        | Importance of time-axis tick marks                        |

pub mod dual_pricescale;
mod price_display;
mod price_formatter;
pub mod pricescale;
mod time_formatter;
pub mod timescale_marks;

pub use dual_pricescale::{DualPriceScaleManager, PriceScaleId, SeriesScaleAssignment};
pub use price_display::{AutoScaleMode, PriceDisplayMode};
pub use price_formatter::{
    CurrencyFormatter, DefaultPriceFormatter, PriceFormatterBuilder, PriceFormatterKind,
    ScientificFormatter, VolumeFormatter, insert_thousands_separator, trim_trailing_zeros,
};
pub use pricescale::PriceScaleMode;
pub use time_formatter::{
    DefaultTimeFormatter, LocaleTimeFormatter, RelativeTimeFormatter, TimeFormatterBuilder,
    TimeFormatterKind, relative_label,
};
pub use timescale_marks::{
    TickMark, TickMarkType, TickMarkWeight, classify_calendar_boundary, classify_time_boundary,
    classify_time_boundary_checked, determine_mark_type_and_weight, generate_candidate_marks,
    generate_candidate_marks_checked, map_marks_to_bars, reduce_marks_cnt,
};
