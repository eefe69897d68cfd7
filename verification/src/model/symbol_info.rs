//! Extended symbol information
//!
//! Comprehensive symbol metadata with 50+ fields.
//! Provides comprehensive metadata for financial instruments including
//! session info, pricing parameters, supported resolutions, and display options.
use vstd::prelude::*;

verus! {

/// Symbol type categories for instrument classification.
#[derive(Debug, Clone, Copy, PartialEq, Eq, Hash, Structural)]
pub enum SymbolType {
    Stock,
    Index,
    Forex,
    Futures,
    Crypto,
    Cfd,
    Bond,
    Fund,
    Option,
    Commodity,
    Economic,
    Dr,
    Right,
    Warrant,
    Expression,
    Spread,
}

impl SymbolType {
    pub open spec fn spec_to_string(self) -> Seq<char> {
        match self {
            SymbolType::Stock => "stock"@,
            SymbolType::Index => "index"@,
            SymbolType::Forex => "forex"@,
            SymbolType::Futures => "futures"@,
            SymbolType::Crypto => "crypto"@,
            SymbolType::Cfd => "cfd"@,
            SymbolType::Bond => "bond"@,
            SymbolType::Fund => "fund"@,
            SymbolType::Option => "option"@,
            SymbolType::Commodity => "commodity"@,
            SymbolType::Economic => "economic"@,
            SymbolType::Dr => "dr"@,
            SymbolType::Right => "right"@,
            SymbolType::Warrant => "warrant"@,
            SymbolType::Expression => "expression"@,
            SymbolType::Spread => "spread"@,
        }
    }

    /// Lower-case wire name, as the value is displayed.
    pub fn as_str(&self) -> (r: &'static str)
        ensures
            r@ == self.spec_to_string(),
    {
        match self {
            SymbolType::Stock => "stock",
            SymbolType::Index => "index",
            SymbolType::Forex => "forex",
            SymbolType::Futures => "futures",
            SymbolType::Crypto => "crypto",
            SymbolType::Cfd => "cfd",
            SymbolType::Bond => "bond",
            SymbolType::Fund => "fund",
            SymbolType::Option => "option",
            SymbolType::Commodity => "commodity",
            SymbolType::Economic => "economic",
            SymbolType::Dr => "dr",
            SymbolType::Right => "right",
            SymbolType::Warrant => "warrant",
            SymbolType::Expression => "expression",
            SymbolType::Spread => "spread",
        }
    }

    /// Text shown when this value is displayed.
    pub fn to_string(&self) -> (r: String)
        ensures
            r@ == self.spec_to_string(),
    {
        self.as_str().to_owned()
    }
}

impl Default for SymbolType {
    fn default() -> (r: Self)
        ensures
            r == SymbolType::Stock,
    {
        SymbolType::Stock
    }
}

/// Data status indicating how the symbol's data is delivered.
#[derive(Debug, Clone, Copy, PartialEq, Eq, Hash, Structural)]
pub enum DataStatus {
    /// Real-time streaming data
    Streaming,
    /// End-of-day updates only
    EndOfDay,
    /// Pulsed/periodic updates
    Pulsed,
    /// Delayed data (typically 15-20 minutes)
    Delayed,
}

impl DataStatus {
    pub open spec fn spec_to_string(self) -> Seq<char> {
        match self {
            DataStatus::Streaming => "streaming"@,
            DataStatus::EndOfDay => "endofday"@,
            DataStatus::Pulsed => "pulsed"@,
            DataStatus::Delayed => "delayed"@,
        }
    }

    /// Lower-case wire name, as the value is displayed.
    pub fn as_str(&self) -> (r: &'static str)
        ensures
            r@ == self.spec_to_string(),
    {
        match self {
            DataStatus::Streaming => "streaming",
            DataStatus::EndOfDay => "endofday",
            DataStatus::Pulsed => "pulsed",
            DataStatus::Delayed => "delayed",
        }
    }

    /// Text shown when this value is displayed.
    pub fn to_string(&self) -> (r: String)
        ensures
            r@ == self.spec_to_string(),
    {
        self.as_str().to_owned()
    }
}

impl Default for DataStatus {
    fn default() -> (r: Self)
        ensures
            r == DataStatus::Streaming,
    {
        DataStatus::Streaming
    }
}

/// Symbol format for price display.
#[derive(Debug, Clone, Copy, PartialEq, Eq, Hash, Structural)]
pub enum SymbolFormat {
    /// Standard price format (e.g. 150.25)
    Price,
    /// Volume format
    Volume,
}

impl SymbolFormat {
    pub open spec fn spec_to_string(self) -> Seq<char> {
        match self {
            SymbolFormat::Price => "price"@,
            SymbolFormat::Volume => "volume"@,
        }
    }

    /// Lower-case wire name, as the value is displayed.
    pub fn as_str(&self) -> (r: &'static str)
        ensures
            r@ == self.spec_to_string(),
    {
        match self {
            SymbolFormat::Price => "price",
            SymbolFormat::Volume => "volume",
        }
    }

    /// Text shown when this value is displayed.
    pub fn to_string(&self) -> (r: String)
        ensures
            r@ == self.spec_to_string(),
    {
        self.as_str().to_owned()
    }
}

impl Default for SymbolFormat {
    fn default() -> (r: Self)
        ensures
            r == SymbolFormat::Price,
    {
        SymbolFormat::Price
    }
}

/// Subsession information for extended/pre-market trading hours.
#[derive(Debug, Clone)]
pub struct SubsessionInfo {
    /// Unique identifier for the subsession (e.g. "regular", "premarket")
    pub id: String,
    /// Human-readable description
    pub description: String,
    /// Session string (e.g. "0930-1600")
    pub session: String,
}

/// Comprehensive symbol metadata for chart configuration.
///
/// Contains all fields necessary for proper chart configuration,
/// price formatting, session handling, and data resolution support.
#[derive(Debug, Clone)]
pub struct LibrarySymbolInfo {
    // ── Identity ──────────────────────────────────────────────
    /// Full symbol name (e.g. "NASDAQ:AAPL")
    pub name: String,
    /// Short ticker (e.g. "AAPL"), if different from name
    pub ticker: Option<String>,
    /// Human-readable description (e.g. "Apple Inc.")
    pub description: String,

    // ── Exchange ──────────────────────────────────────────────
    /// Exchange where the symbol is traded (e.g. "NASDAQ")
    pub exchange: String,
    /// Exchange where the symbol is officially listed
    pub listed_exchange: String,
    /// Instrument type classification
    pub symbol_type: SymbolType,

    // ── Session ──────────────────────────────────────────────
    /// IANA timezone (e.g. "America/New_York")
    pub timezone: String,
    /// Session definition (e.g. "0930-1600:23456")
    pub session: String,
    /// Holiday dates when the exchange is closed
    pub session_holidays: Option<String>,
    /// Session corrections for special trading days
    pub corrections: Option<String>,
    /// Extended session definitions (pre-market, after-hours, etc.)
    pub subsessions: Vec<SubsessionInfo>,

    // ── Price Format ─────────────────────────────────────────
    /// Price scale denominator (e.g. 100 means 2 decimal places)
    pub pricescale: i64,
    /// Minimum price movement numerator
    pub minmov: i64,
    /// Secondary minimum movement (for complex tick sizes)
    pub minmove2: Option<i64>,
    /// Whether prices are displayed as fractions (e.g. bonds)
    pub fractional: bool,
    /// Variable tick size rules (e.g. for futures with different tick sizes at different prices)
    pub variable_tick_size: Option<String>,

    // ── Data Capabilities ────────────────────────────────────
    /// Symbol supports intraday resolutions
    pub has_intraday: bool,
    /// Symbol supports seconds-based resolutions
    pub has_seconds: bool,
    /// Symbol supports tick data
    pub has_ticks: bool,
    /// Symbol supports daily resolution
    pub has_daily: bool,
    /// Symbol supports weekly and monthly resolutions
    pub has_weekly_and_monthly: bool,
    /// Symbol has no volume data
    pub has_no_volume: bool,
    /// Symbol may have bars with no trades
    pub has_empty_bars: bool,
    /// Number of decimal places for volume display
    pub volume_precision: Option<u8>,

    // ── Resolution Support ───────────────────────────────────
    /// List of supported resolution strings (e.g. ["1", "5", "15", "60", "D", "W"])
    pub supported_resolutions: Vec<String>,
    /// Intraday multipliers (e.g. ["1", "5", "15", "30", "60"])
    pub intraday_multipliers: Vec<String>,
    /// Seconds-based multipliers (e.g. ["1", "5", "10"])
    pub seconds_multipliers: Option<Vec<String>>,

    // ── Data Status ──────────────────────────────────────────
    /// How data is delivered for this symbol
    pub data_status: DataStatus,

    // ── Expiration (Futures/Options) ─────────────────────────
    /// Whether the contract has expired
    pub expired: bool,
    /// Expiration date in YYYYMMDD format
    pub expiration_date: Option<String>,

    // ── Currency ─────────────────────────────────────────────
    /// Currency code for the symbol's price (e.g. "USD")
    pub currency_code: Option<String>,
    /// Original currency before any conversion
    pub original_currency_code: Option<String>,

    // ── Units ────────────────────────────────────────────────
    /// Unit identifier for the symbol's value
    pub unit_id: Option<String>,
    /// Original unit before any conversion
    pub original_unit_id: Option<String>,

    // ── Branding ─────────────────────────────────────────────
    /// Logo image URLs for the symbol
    pub logo_urls: Option<Vec<String>>,
    /// Exchange logo URL
    pub exchange_logo: Option<String>,

    // ── Identifiers ──────────────────────────────────────────
    /// ISIN code (International Securities Identification Number)
    pub isin: Option<String>,

    // ── Display ──────────────────────────────────────────────
    /// Visible plots configuration (e.g. "ohlcv", "c")
    pub visible_plots_set: Option<String>,
    /// Price display format
    pub format: SymbolFormat,

    // ── Additional Fields for 100% TV Compatibility ───────────
    /// Array of base symbol names for spreads and composite symbols
    pub base_name: Option<Vec<String>>,

    /// Whether to build seconds timeframe from tick data
    pub build_seconds_from_ticks: Option<bool>,

    /// Library custom fields metadata (key-value pairs)
    pub library_custom_fields: Option<std::collections::HashMap<String, String>>,

    /// Current subsession ID for extended trading hours
    pub subsession_id: Option<String>,

    /// Session display string for UI (e.g., "Regular", "Pre-market")
    pub session_display: Option<String>,

    /// Unit conversion types available for this symbol
    pub unit_conversion_types: Option<Vec<String>>,

    /// Delay in seconds for delayed data feeds
    pub delay: Option<i64>,

    /// Extended description (longer than description field)
    pub long_description: Option<String>,

    /// Selected price source ID
    pub price_source_id: Option<String>,

    /// Daily resolution multipliers
    pub daily_multipliers: Option<Vec<String>>,

    /// Weekly resolution multipliers  
    pub weekly_multipliers: Option<Vec<String>>,

    /// Monthly resolution multipliers
    pub monthly_multipliers: Option<Vec<String>>,
}

impl Default for LibrarySymbolInfo {
    fn default() -> (r: Self)
        ensures
            r.name@ == Seq::<char>::empty(),
            r.description@ == Seq::<char>::empty(),
            r.exchange@ == Seq::<char>::empty(),
            r.listed_exchange@ == Seq::<char>::empty(),
            r.symbol_type == SymbolType::Stock,
            r.timezone@ == "Etc/UTC"@,
            r.session@ == "24x7"@,
            r.subsessions@.len() == 0,
            r.pricescale == 100,
            r.minmov == 1,
            !r.fractional,
            r.has_intraday,
            !r.has_seconds,
            !r.has_ticks,
            r.has_daily,
            r.has_weekly_and_monthly,
            !r.has_no_volume,
            !r.has_empty_bars,
            r.supported_resolutions@.map_values(|s: String| s@) == seq!["1"@, "5"@, "15"@, "30"@, "60"@, "D"@, "W"@, "M"@],
            r.intraday_multipliers@.map_values(|s: String| s@) == seq!["1"@, "5"@, "15"@, "30"@, "60"@],
            r.data_status == DataStatus::Streaming,
            !r.expired,
            r.format == SymbolFormat::Price,
            r.ticker is None,
            r.session_holidays is None,
            r.corrections is None,
            r.minmove2 is None,
            r.variable_tick_size is None,
            r.volume_precision is None,
            r.seconds_multipliers is None,
            r.expiration_date is None,
            r.currency_code is None,
            r.original_currency_code is None,
            r.unit_id is None,
            r.original_unit_id is None,
            r.logo_urls is None,
            r.exchange_logo is None,
            r.isin is None,
            r.visible_plots_set is None,
            r.base_name is None,
            r.build_seconds_from_ticks is None,
            r.library_custom_fields is None,
            r.subsession_id is None,
            r.session_display is None,
            r.unit_conversion_types is None,
            r.delay is None,
            r.long_description is None,
            r.price_source_id is None,
            r.daily_multipliers is None,
            r.weekly_multipliers is None,
            r.monthly_multipliers is None,
    {
        let mut supported_resolutions: Vec<String> = Vec::new();
        supported_resolutions.push("1".to_owned());
        supported_resolutions.push("5".to_owned());
        supported_resolutions.push("15".to_owned());
        supported_resolutions.push("30".to_owned());
        supported_resolutions.push("60".to_owned());
        supported_resolutions.push("D".to_owned());
        supported_resolutions.push("W".to_owned());
        supported_resolutions.push("M".to_owned());
        assert(supported_resolutions@.map_values(|s: String| s@) =~= seq!["1"@, "5"@, "15"@, "30"@, "60"@, "D"@, "W"@, "M"@]);
        let mut intraday_multipliers: Vec<String> = Vec::new();
        intraday_multipliers.push("1".to_owned());
        intraday_multipliers.push("5".to_owned());
        intraday_multipliers.push("15".to_owned());
        intraday_multipliers.push("30".to_owned());
        intraday_multipliers.push("60".to_owned());
        assert(intraday_multipliers@.map_values(|s: String| s@) =~= seq!["1"@, "5"@, "15"@, "30"@, "60"@]);
        LibrarySymbolInfo {
            name: String::new(),
            ticker: None,
            description: String::new(),
            exchange: String::new(),
            listed_exchange: String::new(),
            symbol_type: SymbolType::default(),
            timezone: "Etc/UTC".to_owned(),
            session: "24x7".to_owned(),
            session_holidays: None,
            corrections: None,
            subsessions: Vec::new(),
            pricescale: 100,
            minmov: 1,
            minmove2: None,
            fractional: false,
            variable_tick_size: None,
            has_intraday: true,
            has_seconds: false,
            has_ticks: false,
            has_daily: true,
            has_weekly_and_monthly: true,
            has_no_volume: false,
            has_empty_bars: false,
            volume_precision: None,
            supported_resolutions,
            intraday_multipliers,
            seconds_multipliers: None,
            data_status: DataStatus::default(),
            expired: false,
            expiration_date: None,
            currency_code: None,
            original_currency_code: None,
            unit_id: None,
            original_unit_id: None,
            logo_urls: None,
            exchange_logo: None,
            isin: None,
            visible_plots_set: None,
            format: SymbolFormat::default(),
            base_name: None,
            build_seconds_from_ticks: None,
            library_custom_fields: None,
            subsession_id: None,
            session_display: None,
            unit_conversion_types: None,
            delay: None,
            long_description: None,
            price_source_id: None,
            daily_multipliers: None,
            weekly_multipliers: None,
            monthly_multipliers: None,
        }
    }
}

} // verus!
