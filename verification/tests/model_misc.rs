use chrono::Datelike;
use chrono::TimeZone;
use egui_charts::model::session::session_breaks_in_range_checked;
use egui_charts::model::{
    CompositeSessionProvider, DailySessionProvider, MonthlySessionProvider, SessionBreakType,
    SessionProvider, WeeklySessionProvider,
};
use egui_charts::model::{clamp_visible_range, ColorType, Rgba};
use egui_charts::model::{
    detect_line_break_signal, AnnotationPos, DateRange, LineBreakConfig, LineBreakSignal,
    LineDirection, MarkerType, QuoteSourceError,
};

#[test]
fn line_break_test_config_creation() {
    let config = LineBreakConfig::new(5);
    assert_eq!(config.line_cnt, 5);
}

#[test]
fn line_break_default_config() {
    assert_eq!(LineBreakConfig::default().line_cnt, 3);
}

#[test]
fn line_break_signals() {
    assert_eq!(detect_line_break_signal(&[]), LineBreakSignal::NoSignal);
    assert_eq!(detect_line_break_signal(&[LineDirection::Up]), LineBreakSignal::NoSignal);
    assert_eq!(detect_line_break_signal(&[LineDirection::Up, LineDirection::Up]), LineBreakSignal::Bullish);
    assert_eq!(detect_line_break_signal(&[LineDirection::Up, LineDirection::Down, LineDirection::Down]), LineBreakSignal::Bearish);
    assert_eq!(detect_line_break_signal(&[LineDirection::Down, LineDirection::Up]), LineBreakSignal::BullishReversal);
    assert_eq!(detect_line_break_signal(&[LineDirection::Down, LineDirection::Down, LineDirection::Up, LineDirection::Down]), LineBreakSignal::BearishReversal);
}

#[test]
fn marker_types() {
    let all = MarkerType::all();
    assert_eq!(all.len(), 8);
    assert_eq!(MarkerType::TriangleUp.as_str(), "Triangle Up");
    assert_eq!(MarkerType::ArrowDown.to_string(), "Arrow Down");
    assert_eq!(MarkerType::default(), MarkerType::Circle);
    assert_eq!(AnnotationPos::default(), AnnotationPos::Above);
}

#[test]
fn date_range_labels_and_estimates() {
    assert_eq!(DateRange::default(), DateRange::Month1);
    assert_eq!(DateRange::YTD.label(), "YTD");
    assert_eq!(DateRange::Day5.tooltip(), "5 days in 5 minutes intervals");
    assert_eq!(DateRange::default_presets().len(), 9);
    assert_eq!(DateRange::Day1.estimated_bars(60), Some(1440));
    assert_eq!(DateRange::Day1.estimated_bars(0), Some(86400));
    assert_eq!(DateRange::Year1.estimated_bars(86400), Some(365));
    assert_eq!(DateRange::YTD.estimated_bars_on_day(86400, 40), 40);
    assert_eq!(DateRange::YTD.estimated_bars_on_day(3600, 1000), 24_000);
    let ytd = DateRange::YTD.estimated_bars(86400).unwrap();
    assert!((1..=366).contains(&ytd));
    assert_eq!(DateRange::All.to_string(), "All");
}

#[test]
fn quote_source_error_messages() {
    assert_eq!(
        QuoteSourceError::InvalidSymbol("XYZ".to_string()).to_string(),
        "Invalid symbol: XYZ"
    );
    assert_eq!(
        QuoteSourceError::SubscriptionLimitReached.to_string(),
        "Subscription limit reached"
    );
    assert_eq!(QuoteSourceError::Other("boom".to_string()).to_string(), "Error: boom");
}

fn ms(y: i32, mo: u32, d: u32, h: u32) -> i64 {
    chrono::Utc.with_ymd_and_hms(y, mo, d, h, 0, 0).unwrap().timestamp_millis()
}

fn create_test_times() -> Vec<i64> {
    vec![ms(2024, 1, 1, 12), ms(2024, 1, 2, 12), ms(2024, 2, 1, 12)]
}

#[test]
fn test_daily_session_break() {
    let provider = egui_charts::model::DailySessionProvider::default();
    let breaks = egui_charts::model::find_session_breaks(&create_test_times(), &provider);
    assert_eq!(breaks.len(), 2);
}

#[test]
fn test_monthly_session_break() {
    let provider = egui_charts::model::MonthlySessionProvider;
    let breaks = egui_charts::model::find_session_breaks(&create_test_times(), &provider);
    assert_eq!(breaks.len(), 1);
    assert_eq!(breaks[0].0, 2);
    assert_eq!(breaks[0].1.break_type, egui_charts::model::SessionBreakType::Monthly);
    assert_eq!(breaks[0].1.label.as_deref(), Some("February 2024"));
}

#[test]
fn session_labels_and_providers() {
    let daily = DailySessionProvider::default();
    let b = daily
        .session_break_between(ms(2024, 3, 9, 23), ms(2024, 3, 10, 1))
        .unwrap();
    assert_eq!(b.label.as_deref(), Some("2024-03-10"));
    assert_eq!(b.ts, ms(2024, 3, 10, 1));
    assert!(daily.session_break_between(ms(2024, 3, 9, 1), ms(2024, 3, 9, 23)).is_none());
    let weekly = WeeklySessionProvider::default();
    assert_eq!(weekly.break_day, chrono::Weekday::Fri);
    // The trading week ends with Friday: Friday -> Saturday breaks.
    let w = weekly
        .session_break_between(ms(2024, 1, 5, 12), ms(2024, 1, 6, 12))
        .unwrap();
    assert_eq!(w.label.as_deref(), Some("Week 1"));
    assert!(weekly.session_break_between(ms(2024, 1, 7, 12), ms(2024, 1, 8, 12)).is_none());
    assert_eq!(DailySessionProvider::nyse().break_hour, 21);
    assert_eq!(DailySessionProvider::new(30, 75).break_minute, 59);
    assert_eq!(daily.name(), "Daily Sessions");
}

#[test]
fn test_composite_provider() {
    let mut composite = CompositeSessionProvider::new();
    composite.add_provider(Box::new(DailySessionProvider::default()));
    composite.add_provider(Box::new(MonthlySessionProvider));

    let breaks = egui_charts::model::find_session_breaks(&create_test_times(), &composite);
    assert!(!breaks.is_empty());
}

#[test]
fn composite_first_provider_wins() {
    let standard = CompositeSessionProvider::standard();
    // Jan 31 -> Feb 1: daily and monthly both break; the daily provider comes first.
    let b = standard
        .session_break_between(ms(2024, 1, 31, 12), ms(2024, 2, 1, 12))
        .unwrap();
    assert_eq!(b.break_type, SessionBreakType::Daily);
    let mut monthly_first = CompositeSessionProvider::new();
    monthly_first.add_provider(Box::new(MonthlySessionProvider));
    monthly_first.add_provider(Box::new(DailySessionProvider::default()));
    let b = monthly_first
        .session_break_between(ms(2024, 1, 31, 12), ms(2024, 2, 1, 12))
        .unwrap();
    assert_eq!(b.break_type, SessionBreakType::Monthly);
    assert!(CompositeSessionProvider::default()
        .session_break_between(ms(2024, 1, 31, 12), ms(2024, 2, 1, 12))
        .is_none());
    assert_eq!(standard.name(), "Composite Sessions");
}

#[test]
fn breaks_in_range_probe_each_minute() {
    let daily = DailySessionProvider::default();
    let start = ms(2024, 3, 9, 23) + 58 * 60_000;
    let end = start + 5 * 60_000;
    let breaks = daily.session_breaks_in_range(start, end);
    assert_eq!(breaks.len(), 1);
    assert_eq!(breaks[0].ts, ms(2024, 3, 10, 0));
    assert!(daily.session_breaks_in_range(end, start).is_empty());
    let checked = session_breaks_in_range_checked(&daily, start, end).unwrap();
    assert_eq!(checked.len(), 1);
    assert!(session_breaks_in_range_checked(&daily, start, i64::MAX).is_none());
    assert!(session_breaks_in_range_checked(&daily, i64::MIN, i64::MIN + 1).is_none());
}

#[test]
fn date_range_start_instants() {
    let now = ms(2024, 6, 15, 12);
    assert_eq!(DateRange::Day1.start_timestamp_at(now), Some(ms(2024, 6, 14, 12)));
    assert_eq!(DateRange::Month1.start_timestamp_at(now), Some(ms(2024, 5, 16, 12)));
    assert_eq!(DateRange::Year1.start_timestamp_at(now), Some(ms(2023, 6, 16, 12)));
    assert_eq!(DateRange::YTD.start_timestamp_at(now), Some(ms(2024, 1, 1, 0)));
    assert_eq!(DateRange::All.start_timestamp_at(now), None);
    assert!(DateRange::All.start_timestamp().is_none());
    let (start, end) = DateRange::Day5.to_timestamps().unwrap();
    let start = start.unwrap();
    assert!(end - start == 5 * 86_400_000);
    assert!(DateRange::Day1.start_timestamp().is_some());
    assert!(end - start >= 5 * 86_400_000);
    assert!(end - start < 5 * 86_400_000 + 60_000);
}

#[test]
fn test_from_hex() {
    let color = ColorType::from_hex("#FF5733").unwrap();
    assert!(color.is_solid());
    assert_eq!(color.primary_color(), Rgba { r: 255, g: 87, b: 51, a: 255 });

    let color_no_hash = ColorType::from_hex("FF5733").unwrap();
    assert_eq!(color, color_no_hash);
}

#[test]
fn test_gradient() {
    let gradient = ColorType::vertical_gradient(
        Rgba { r: 255, g: 0, b: 0, a: 255 },
        Rgba { r: 0, g: 0, b: 255, a: 255 },
    );
    assert!(gradient.is_gradient());
    assert!(!gradient.is_solid());
    assert_eq!(gradient.primary_color(), Rgba { r: 255, g: 0, b: 0, a: 255 });
}

#[test]
fn hex_colors_and_their_errors() {
    assert_eq!(
        ColorType::from_hex("##26a69aCC"),
        Ok(ColorType::from_rgba(0x26, 0xa6, 0x9a, 0xcc))
    );
    assert_eq!(ColorType::from_hex("+F0000"), Ok(ColorType::from_rgb(15, 0, 0)));
    assert_eq!(ColorType::from_hex("#12345"), Err("Invalid hex color: 12345".to_string()));
    assert_eq!(ColorType::from_hex("#GG0000"), Err("Invalid red component: GG".to_string()));
    assert_eq!(ColorType::from_hex("00GG00"), Err("Invalid green component: GG".to_string()));
    assert_eq!(ColorType::from_hex("0000-1"), Err("Invalid blue component: -1".to_string()));
    assert_eq!(ColorType::from_hex("000000zz"), Err("Invalid alpha component: zz".to_string()));
    assert_eq!(ColorType::from_hex("é3456"), Err("Invalid red component: é".to_string()));
    assert_eq!(ColorType::from_hex("é12345"), Err("Invalid hex color: é12345".to_string()));
    assert_eq!(ColorType::default(), ColorType::from_rgb(255, 255, 255));
    assert_eq!(
        ColorType::horizontal_gradient(Rgba { r: 1, g: 2, b: 3, a: 4 }, Rgba { r: 5, g: 6, b: 7, a: 8 })
            .primary_color(),
        Rgba { r: 1, g: 2, b: 3, a: 4 }
    );
}

#[test]
fn visible_range_is_clamped_to_the_data() {
    // No data: nothing is visible.
    assert_eq!(clamp_visible_range(3, 10, 0, 5), (0, 0));
    // A range inside the data is kept.
    assert_eq!(clamp_visible_range(2, 7, 20, 5), (2, 7));
    // The end is cut to the data, the start to the end.
    assert_eq!(clamp_visible_range(15, 30, 20, 5), (15, 20));
    assert_eq!(clamp_visible_range(25, 30, 20, 5), (20, 20));
    // Scrolled past the first bar: widened to the bars that fit.
    assert_eq!(clamp_visible_range(0, 3, 20, 8), (0, 8));
    // ... but never past the data.
    assert_eq!(clamp_visible_range(0, 3, 6, 8), (0, 6));
    // A single bar is never widened.
    assert_eq!(clamp_visible_range(0, 0, 1, 8), (0, 0));
}

#[test]
fn daily_break_at_configured_time() {
    let nyse = DailySessionProvider::nyse();
    // 20:00 -> 22:00 on one day crosses the 21:00 UTC break.
    let b = nyse.session_break_between(ms(2024, 1, 2, 20), ms(2024, 1, 2, 22)).unwrap();
    assert_eq!(b.break_type, SessionBreakType::Daily);
    assert_eq!(b.ts, ms(2024, 1, 2, 22));
    assert_eq!(b.label.as_deref(), Some("2024-01-02"));
    // 22:00 -> next day 20:00 stays in one trading day.
    assert!(nyse.session_break_between(ms(2024, 1, 2, 22), ms(2024, 1, 3, 20)).is_none());
    // Exactly at the break time counts as the new trading day.
    assert!(nyse.session_break_between(ms(2024, 1, 2, 20), ms(2024, 1, 2, 21)).is_some());
    assert!(nyse.session_break_between(ms(2024, 1, 2, 21), ms(2024, 1, 2, 23)).is_none());
    let half_past = DailySessionProvider::new(9, 30);
    let at = |h: u32, m: u32| {
        chrono::Utc.with_ymd_and_hms(2024, 1, 2, h, m, 0).unwrap().timestamp_millis()
    };
    assert!(half_past.session_break_between(at(9, 29), at(9, 30)).is_some());
    assert!(half_past.session_break_between(at(9, 30), at(9, 31)).is_none());
    // A year apart on the same day of the year is still a break.
    let daily = DailySessionProvider::default();
    assert!(daily.session_break_between(ms(2023, 1, 1, 12), ms(2024, 1, 1, 12)).is_some());
}

#[test]
fn weekly_break_on_configured_day() {
    let sunday = WeeklySessionProvider::new(chrono::Weekday::Sun);
    // Weeks end with Sunday: Sunday -> Monday breaks, into ISO week 2.
    let b = sunday.session_break_between(ms(2024, 1, 7, 12), ms(2024, 1, 8, 12)).unwrap();
    assert_eq!(b.break_type, SessionBreakType::Weekly);
    assert_eq!(b.label.as_deref(), Some("Week 2"));
    assert!(sunday.session_break_between(ms(2024, 1, 5, 12), ms(2024, 1, 6, 12)).is_none());
    let wednesday = WeeklySessionProvider::new(chrono::Weekday::Wed);
    assert!(wednesday.session_break_between(ms(2024, 1, 3, 23), ms(2024, 1, 4, 1)).is_some());
    assert!(wednesday.session_break_between(ms(2024, 1, 4, 1), ms(2024, 1, 10, 23)).is_none());
}

#[test]
fn session_breaks_carry_type_and_label() {
    let breaks = egui_charts::model::find_session_breaks(
        &create_test_times(),
        &CompositeSessionProvider::standard(),
    );
    assert_eq!(breaks.len(), 2);
    assert_eq!(breaks[0].0, 1);
    assert_eq!(breaks[0].1.break_type, SessionBreakType::Daily);
    assert_eq!(breaks[0].1.label.as_deref(), Some("2024-01-02"));
    assert_eq!(breaks[1].0, 2);
    assert_eq!(breaks[1].1.label.as_deref(), Some("2024-02-01"));
}

#[test]
fn test_signal_detection() {
    // An up line (100 -> 105) followed by a down line (105 -> 98).
    let lines = vec![LineDirection::Up, LineDirection::Down];

    let signal = detect_line_break_signal(&lines);
    assert_eq!(signal, LineBreakSignal::BearishReversal);
}

#[test]
fn representable_instants_span_chrono_dates() {
    let daily = DailySessionProvider::default();
    let first = -8_334_601_228_800_000i64;
    let last = 8_210_266_876_799_999i64;
    assert!(egui_charts::model::find_session_breaks_checked(&[first, last], &daily).is_some());
    assert!(egui_charts::model::find_session_breaks_checked(&[first - 1], &daily).is_none());
    assert!(egui_charts::model::find_session_breaks_checked(&[last + 1], &daily).is_none());
    assert!(chrono::DateTime::from_timestamp_millis(first).is_some());
    assert!(chrono::DateTime::from_timestamp_millis(first - 1).is_none());
    assert!(chrono::DateTime::from_timestamp_millis(last).is_some());
    assert!(chrono::DateTime::from_timestamp_millis(last + 1).is_none());
}

fn civil_from_days(z: i64) -> (i64, i64, i64) {
    let z = z + 719_468;
    let era = z.div_euclid(146_097);
    let doe = z - era * 146_097;
    let yoe = (doe - doe / 1460 + doe / 36_524 - doe / 146_096) / 365;
    let doy = doe - (365 * yoe + yoe / 4 - yoe / 100);
    let mp = (5 * doy + 2) / 153;
    let d = doy - (153 * mp + 2) / 5 + 1;
    let m = if mp < 10 { mp + 3 } else { mp - 9 };
    let y = yoe + era * 400 + if m <= 2 { 1 } else { 0 };
    (y, m, d)
}

fn days_from_civil(y: i64, m: i64, d: i64) -> i64 {
    let y = if m <= 2 { y - 1 } else { y };
    let era = y.div_euclid(400);
    let yoe = y - era * 400;
    let doy = (153 * (if m > 2 { m - 3 } else { m + 9 }) + 2) / 5 + d - 1;
    let doe = yoe * 365 + yoe / 4 - yoe / 100 + doy;
    era * 146_097 + doe - 719_468
}

fn iso_weeks_in_year(y: i64) -> i64 {
    let end = |y: i64| (y + y.div_euclid(4) - y.div_euclid(100) + y.div_euclid(400)).rem_euclid(7);
    if end(y) == 4 || end(y - 1) == 3 {
        53
    } else {
        52
    }
}

#[test]
fn civil_dates_agree_with_chrono() {
    let first = -8_334_601_228_800_000i64;
    let last = 8_210_266_876_799_999i64;
    let step = (last - first) / 20_000;
    let mut ms = first;
    let mut probes: Vec<i64> = vec![0, -1, 86_399_999, -86_400_000, 951_782_400_000, last];
    while ms < last {
        probes.push(ms);
        ms += step;
    }
    for ms in probes {
        let dt = chrono::DateTime::from_timestamp_millis(ms).unwrap();
        let z = ms.div_euclid(86_400_000);
        let (y, m, d) = civil_from_days(z);
        assert_eq!(y, dt.year() as i64, "year at {ms}");
        assert_eq!(m, dt.month() as i64, "month at {ms}");
        assert_eq!(d, dt.day() as i64, "day at {ms}");
        assert_eq!(z - days_from_civil(y, 1, 1) + 1, dt.ordinal() as i64, "ordinal at {ms}");
        assert_eq!(((z + 3).rem_euclid(7)) as u32, dt.weekday().num_days_from_monday());
        let ordinal = z - days_from_civil(y, 1, 1) + 1;
        let weekday = (z + 3).rem_euclid(7);
        let w = (ordinal - (weekday + 1) + 10).div_euclid(7);
        let iso = if w < 1 {
            iso_weeks_in_year(y - 1)
        } else if w > iso_weeks_in_year(y) {
            1
        } else {
            w
        };
        assert_eq!(iso, dt.iso_week().week() as i64, "ISO week at {ms}");
        let start = chrono::NaiveDate::from_ymd_opt(y as i32, 1, 1)
            .unwrap()
            .and_hms_opt(0, 0, 0)
            .unwrap()
            .and_utc()
            .timestamp_millis();
        assert_eq!(start, days_from_civil(y, 1, 1) * 86_400_000, "year start {y}");
    }
    assert!(chrono::NaiveDate::from_ymd_opt(-262_144, 1, 1).is_none());
    assert!(chrono::NaiveDate::from_ymd_opt(262_143, 1, 1).is_none());
    assert!(chrono::NaiveDate::from_ymd_opt(-262_143, 1, 1).is_some());
    assert!(chrono::NaiveDate::from_ymd_opt(262_142, 1, 1).is_some());
}
