//! Time label formatting for the X axis.
//!
//! [`DefaultTimeFormatter`] chooses a `strftime` pattern for each kind of tick
//! mark, [`LocaleTimeFormatter`] picks the 12/24-hour clock by locale, and
//! [`relative_label`] renders "2h ago"-style labels from an elapsed time.
//! Use [`TimeFormatterBuilder`] for a fluent construction API.
use crate::model::session::{
    format_utc, is_representable, known_pattern, now_millis, utc_formatted, utc_representable,
};
use crate::scales::timescale_marks::TickMarkType;
use crate::text::{decimal, push_str, str_eq, string_from_chars, u64_to_decimal};
use vstd::prelude::*;

verus! {

/// Default time formatter using standard formats
#[derive(Debug, Clone)]
pub struct DefaultTimeFormatter {
    /// Whether to use 24-hour format
    pub use_24_hour: bool,
    /// Whether to show seconds
    pub show_seconds: bool,
}

impl Default for DefaultTimeFormatter {
    fn default() -> (r: Self)
        ensures
            r.use_24_hour,
            r.show_seconds,
    {
        DefaultTimeFormatter { use_24_hour: true, show_seconds: true }
    }
}

impl DefaultTimeFormatter {
    /// The `strftime` pattern used for a tick mark of the given type.
    pub open spec fn spec_pattern(&self, mark_type: TickMarkType) -> Seq<char> {
        match mark_type {
            TickMarkType::Year => "%Y"@,
            TickMarkType::Month => "%b"@,
            TickMarkType::DayOfMonth => "%b %d"@,
            TickMarkType::Time => if self.use_24_hour { "%H:%M"@ } else { "%I:%M %p"@ },
            TickMarkType::TimeWithSeconds => if !self.show_seconds {
                if self.use_24_hour { "%H:%M"@ } else { "%I:%M %p"@ }
            } else if self.use_24_hour {
                "%H:%M:%S"@
            } else {
                "%I:%M:%S %p"@
            },
        }
    }

    /// The `strftime` pattern for a tick mark: the year, the month, "Jan 15" for
    /// day boundaries, and the time of day (with seconds only when they are shown)
    /// on the 24- or 12-hour clock.
    pub fn pattern(&self, mark_type: TickMarkType) -> (r: &'static str)
        ensures
            r@ == self.spec_pattern(mark_type),
        decreases (if mark_type is TimeWithSeconds { 1nat } else { 0nat }),
    {
        match mark_type {
            TickMarkType::Year => "%Y",
            TickMarkType::Month => "%b",
            TickMarkType::DayOfMonth => "%b %d",
            TickMarkType::Time => {
                if self.use_24_hour {
                    "%H:%M"
                } else {
                    "%I:%M %p"
                }
            },
            TickMarkType::TimeWithSeconds => {
                if !self.show_seconds {
                    return self.pattern(TickMarkType::Time);
                }
                if self.use_24_hour {
                    "%H:%M:%S"
                } else {
                    "%I:%M:%S %p"
                }
            },
        }
    }
}

impl DefaultTimeFormatter {
    /// Format the UTC instant `ms` (milliseconds since the epoch) as the label of
    /// a tick mark of the given type, with the pattern of [`pattern`](Self::pattern).
    pub fn format(&self, ms: i64, mark_type: TickMarkType) -> (r: String)
        requires
            utc_representable(ms),
        ensures
            r@ == utc_formatted(ms, self.spec_pattern(mark_type)),
    {
        let p = self.pattern(mark_type);
        assert(known_pattern(p@));
        format_utc(ms, p)
    }
}

/// Locale-aware time formatter
#[derive(Debug, Clone)]
pub struct LocaleTimeFormatter {
    /// Locale identifier (e.g., "en-US", "ja-JP", "de-DE")
    pub locale: String,
    /// Whether to use 24-hour format
    pub use_24_hour: bool,
}

/// Locales that prefer the 12-hour clock (US, Canada, UK).
pub open spec fn prefers_12_hour(locale: Seq<char>) -> bool {
    locale == "en-US"@ || locale == "en-CA"@ || locale == "en-GB"@
}

impl LocaleTimeFormatter {
    /// Create a new locale-aware formatter
    pub fn new(locale: &str) -> (r: Self)
        ensures
            r.locale@ == locale@,
            r.use_24_hour == !prefers_12_hour(locale@),
    {
        let use_24_hour = Self::default_24hour_for_locale(locale);
        LocaleTimeFormatter { locale: locale.to_owned(), use_24_hour }
    }

    /// Determine default 24-hour preference for locale
    fn default_24hour_for_locale(locale: &str) -> (r: bool)
        ensures
            r == !prefers_12_hour(locale@),
    {
        !(str_eq(locale, "en-US") || str_eq(locale, "en-CA") || str_eq(locale, "en-GB"))
    }

    /// The formatter used to render labels: the default one, with this locale's
    /// clock and seconds shown.
    pub fn base_formatter(&self) -> (r: DefaultTimeFormatter)
        ensures
            r.use_24_hour == self.use_24_hour,
            r.show_seconds,
    {
        DefaultTimeFormatter { use_24_hour: self.use_24_hour, show_seconds: true }
    }

    /// Format the UTC instant `ms` as a label, as the default formatter with this
    /// locale's clock and seconds shown does.
    pub fn format(&self, ms: i64, mark_type: TickMarkType) -> (r: String)
        requires
            utc_representable(ms),
        ensures
            r@ == utc_formatted(
                ms,
                (DefaultTimeFormatter { use_24_hour: self.use_24_hour, show_seconds: true }).spec_pattern(
                    mark_type,
                ),
            ),
    {
        self.base_formatter().format(ms, mark_type)
    }
}

/// Label for a time that lies `seconds` before the reference time: `"future"`
/// when negative, otherwise the count of the largest unit that fits
/// (s, m, h, d, w, mo of 30 days, y of 365 days) followed by " ago".
pub open spec fn spec_relative_label(seconds: int) -> Seq<char> {
    if seconds < 0 {
        "future"@
    } else if seconds < 60 {
        decimal(seconds as nat) + "s ago"@
    } else if seconds < 3600 {
        decimal((seconds / 60) as nat) + "m ago"@
    } else if seconds < 86400 {
        decimal((seconds / 3600) as nat) + "h ago"@
    } else if seconds < 604800 {
        decimal((seconds / 86400) as nat) + "d ago"@
    } else if seconds < 2592000 {
        decimal((seconds / 604800) as nat) + "w ago"@
    } else if seconds < 31536000 {
        decimal((seconds / 2592000) as nat) + "mo ago"@
    } else {
        decimal((seconds / 31536000) as nat) + "y ago"@
    }
}

/// Relative label ("45s ago", "2h ago", "3d ago", ...) for a time that lies
/// `seconds` before the reference time.
pub fn relative_label(seconds: i64) -> (r: String)
    ensures
        r@ == spec_relative_label(seconds as int),
{
    if seconds < 0 {
        return "future".to_owned();
    }
    let s = seconds as u64;
    let (count, unit) = if s < 60 {
        (s, "s ago")
    } else if s < 3600 {
        (s / 60, "m ago")
    } else if s < 86400 {
        (s / 3600, "h ago")
    } else if s < 604800 {
        (s / 86400, "d ago")
    } else if s < 2592000 {
        (s / 604800, "w ago")
    } else if s < 31536000 {
        (s / 2592000, "mo ago")
    } else {
        (s / 31536000, "y ago")
    };
    let mut r = string_from_chars(&u64_to_decimal(count));
    push_str(&mut r, unit);
    r
}

/// Relative time formatter (e.g., "2h ago").
#[derive(Debug, Clone)]
pub struct RelativeTimeFormatter {
    /// Reference time for relative calculations (usually "now"), in UTC
    /// milliseconds since the epoch
    pub reference_time: i64,
}

impl RelativeTimeFormatter {
    /// Create a new relative time formatter
    pub fn new(reference_time: i64) -> (r: Self)
        ensures
            r.reference_time == reference_time,
    {
        RelativeTimeFormatter { reference_time }
    }

    /// Create a formatter relative to current time; `None` when the clock
    /// cannot be read (before 1970, or beyond chrono's range).
    pub fn now() -> (r: Option<Self>)
        ensures
            r matches Some(f) ==> utc_representable(f.reference_time),
    {
        let now = now_millis()?;
        Some(RelativeTimeFormatter { reference_time: now })
    }

    /// Label for the instant `ms`: how long before the reference time it lies,
    /// in whole seconds counted toward zero (see [`relative_label`]).
    pub fn format(&self, ms: i64, _mark_type: TickMarkType) -> (r: String)
        requires
            i64::MIN <= self.reference_time - ms <= i64::MAX,
        ensures
            r@ == spec_relative_label((self.reference_time - ms) / 1000 + if (self.reference_time
                - ms) < 0 && (self.reference_time - ms) % 1000 != 0 {
                1int
            } else {
                0int
            }),
    {
        let diff = self.reference_time - ms;
        relative_label(diff / 1000)
    }
}

/// The formatter that a [`TimeFormatterBuilder`] builds.
#[derive(Debug, Clone)]
pub enum TimeFormatterKind {
    /// A locale-aware formatter.
    Locale(LocaleTimeFormatter),
    /// The default formatter.
    Default(DefaultTimeFormatter),
}

impl TimeFormatterKind {
    /// The pattern that this formatter uses for a tick mark of the given type.
    pub open spec fn spec_pattern(&self, mark_type: TickMarkType) -> Seq<char> {
        match self {
            TimeFormatterKind::Locale(f) => (DefaultTimeFormatter {
                use_24_hour: f.use_24_hour,
                show_seconds: true,
            }).spec_pattern(mark_type),
            TimeFormatterKind::Default(f) => f.spec_pattern(mark_type),
        }
    }

    /// Format the UTC instant `ms` as the label of a tick mark.
    pub fn format(&self, ms: i64, mark_type: TickMarkType) -> (r: String)
        requires
            utc_representable(ms),
        ensures
            r@ == utc_formatted(ms, self.spec_pattern(mark_type)),
    {
        match self {
            TimeFormatterKind::Locale(f) => f.format(ms, mark_type),
            TimeFormatterKind::Default(f) => f.format(ms, mark_type),
        }
    }

    /// Formats the instant as [`format`](Self::format) does when it lies in
    /// chrono's supported range; `None` otherwise.
    pub fn format_checked(&self, ms: i64, mark_type: TickMarkType) -> (r: Option<String>)
        ensures
            r is Some <==> utc_representable(ms),
            r matches Some(s) ==> s@ == utc_formatted(ms, self.spec_pattern(mark_type)),
    {
        if is_representable(ms) {
            Some(self.format(ms, mark_type))
        } else {
            None
        }
    }
}

/// Builder for creating time formatters
pub struct TimeFormatterBuilder {
    use_24_hour: bool,
    show_seconds: bool,
    locale: Option<String>,
}

impl TimeFormatterBuilder {
    pub closed spec fn spec_use_24_hour(&self) -> bool {
        self.use_24_hour
    }

    pub closed spec fn spec_show_seconds(&self) -> bool {
        self.show_seconds
    }

    pub closed spec fn spec_locale(&self) -> Option<Seq<char>> {
        match self.locale {
            Some(l) => Some(l@),
            None => None,
        }
    }

    /// Create a new formatter builder
    pub fn new() -> (r: Self)
        ensures
            r.spec_use_24_hour(),
            r.spec_show_seconds(),
            r.spec_locale() is None,
    {
        TimeFormatterBuilder { use_24_hour: true, show_seconds: true, locale: None }
    }

    /// Set 24-hour format
    pub fn with_24_hour(self, use_24_hour: bool) -> (r: Self)
        ensures
            r.spec_use_24_hour() == use_24_hour,
            r.spec_show_seconds() == self.spec_show_seconds(),
            r.spec_locale() == self.spec_locale(),
    {
        let mut b = self;
        b.use_24_hour = use_24_hour;
        b
    }

    /// Set seconds display
    pub fn with_seconds(self, show_seconds: bool) -> (r: Self)
        ensures
            r.spec_use_24_hour() == self.spec_use_24_hour(),
            r.spec_show_seconds() == show_seconds,
            r.spec_locale() == self.spec_locale(),
    {
        let mut b = self;
        b.show_seconds = show_seconds;
        b
    }

    /// Set locale
    pub fn with_locale(self, locale: &str) -> (r: Self)
        ensures
            r.spec_use_24_hour() == self.spec_use_24_hour(),
            r.spec_show_seconds() == self.spec_show_seconds(),
            r.spec_locale() == Some(locale@),
    {
        let mut b = self;
        b.locale = Some(locale.to_owned());
        b
    }

    /// Which formatter to build: a locale formatter (with the chosen clock) when a
    /// locale is set, the default formatter otherwise.
    pub fn kind(self) -> (r: TimeFormatterKind)
        ensures
            self.spec_locale() is Some ==> (r matches TimeFormatterKind::Locale(f) && f.locale@
                == self.spec_locale()->Some_0 && f.use_24_hour == self.spec_use_24_hour()),
            self.spec_locale() is None ==> (r matches TimeFormatterKind::Default(f)
                && f.use_24_hour == self.spec_use_24_hour() && f.show_seconds
                == self.spec_show_seconds()),
    {
        match self.locale {
            Some(locale) => TimeFormatterKind::Locale(
                LocaleTimeFormatter { locale, use_24_hour: self.use_24_hour },
            ),
            None => TimeFormatterKind::Default(
                DefaultTimeFormatter { use_24_hour: self.use_24_hour, show_seconds: self.show_seconds },
            ),
        }
    }
}

} // verus!
