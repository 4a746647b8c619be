//! The usage segment: rate-limit windows (5 hours, 7 days, and the 7-day
//! Fable window when present) with their utilization and reset times.
//!
//! Utilizations are percentages the library never computes with; their type
//! is a parameter `U` here, so the decisions about where the data comes from
//! and what is cached hold for whatever stands for them. Rendering reads
//! three small numbers derived from a utilization (`Utilization`).
use vstd::prelude::*;
use crate::clock::{
    minutes_between, minutes_between_exec, parse_rfc3339, rfc3339_instant, seconds_between,
    seconds_between_exec, local_time_consistent, LocalTime, Timestamp,
};
use crate::config::{
    find_option, option_lookup, options_view, OptionValue, OptionValueModel, SegmentConfig,
    SegmentId,
};
use crate::model::opt_view;
use crate::segment::{
    circle_gauge, distinct_names, gauge_slices, pair, pairs_view, slice_glyph, weekday_name, weekday_zh, Segment,
    SegmentData,
};
use crate::text::{
    decimal, decimal_string, decode_lossy, pad2, pad2_string, push_char, push_chars, push_str,
    string_from, to_chars, trim, trim_bounds, utf8_lossy,
};

verus! {

/// The usage segment.
pub struct UsageSegment;

/// One usage window: its utilization and, when known, its reset time
/// (RFC 3339).
#[derive(Debug, Clone)]
pub struct UsageWindow<U> {
    pub util: U,
    pub reset: Option<String>,
}

/// The usage windows from either data source. A `None` window means the
/// source did not provide it, which is distinct from a freshly reset 0%
/// window.
#[derive(Debug, Clone)]
pub struct UsageData<U> {
    pub five_hour: Option<UsageWindow<U>>,
    pub seven_day: Option<UsageWindow<U>>,
    /// The 7-day Fable window; only the live data source has it.
    pub seven_day_fable: Option<UsageWindow<U>>,
}

/// The usage cache kept between runs. A window the data source omitted
/// stays absent instead of coming back as a fake 0%.
#[derive(Debug, Clone)]
pub struct ApiUsageCache<U> {
    pub five_hour_utilization: Option<U>,
    pub five_hour_resets_at: Option<String>,
    pub seven_day_utilization: Option<U>,
    /// The 7-day reset time (the name older caches used).
    pub resets_at: Option<String>,
    /// When the cache was written (RFC 3339).
    pub cached_at: String,
}

/// One window of the usage API's answer.
#[derive(Debug, Clone)]
pub struct UsagePeriod<U> {
    pub utilization: U,
    pub resets_at: Option<String>,
}

/// The part of the usage API's answer the segment renders.
#[derive(Debug, Clone)]
pub struct ApiUsageResponse<U> {
    pub five_hour: UsagePeriod<U>,
    pub seven_day: UsagePeriod<U>,
}

/// One rate-limit window as the host program reports it on its input: the used
/// percentage and the reset time in seconds since the epoch, each when
/// known.
#[derive(Debug, Clone)]
pub struct RateLimitWindow<U> {
    pub used_percentage: Option<U>,
    pub resets_at: Option<i64>,
}

/// The rate-limit windows the host program reports on its input.
#[derive(Debug, Clone)]
pub struct RateLimits<U> {
    pub five_hour: Option<RateLimitWindow<U>>,
    pub seven_day: Option<RateLimitWindow<U>>,
    pub seven_day_fable: Option<RateLimitWindow<U>>,
}

/// How the usage API is polled: where, how long an answer stays fresh
/// (seconds) and how long a request may take (seconds).
#[derive(Debug, Clone)]
pub struct UsageSettings {
    pub api_base_url: String,
    pub cache_duration: u64,
    pub timeout: u64,
}

// ---------------------------------------------------------------------------
// Plain models
// ---------------------------------------------------------------------------

/// Plain model of a usage window.
pub ghost struct WindowModel<U> {
    pub util: U,
    pub reset: Option<Seq<char>>,
}

/// Plain model of an optional usage window.
pub open spec fn window_view<U>(w: Option<UsageWindow<U>>) -> Option<WindowModel<U>> {
    match w {
        Some(w) => Some(WindowModel { util: w.util, reset: opt_view(w.reset) }),
        None => None,
    }
}

/// A window from a utilization and an optional reset time.
pub open spec fn window_of<U>(util: Option<U>, reset: Option<Seq<char>>) -> Option<WindowModel<U>> {
    match util {
        Some(u) => Some(WindowModel { util: u, reset }),
        None => None,
    }
}

// ---------------------------------------------------------------------------
// Where the data comes from
// ---------------------------------------------------------------------------

/// The RFC 3339 text chrono's `DateTime::<Utc>::from_timestamp(epoch, 0)`
/// followed by `to_rfc3339()` gives, or `None` when chrono cannot represent
/// the instant.
pub uninterp spec fn epoch_rfc3339(epoch: i64) -> Option<Seq<char>>;

/// Whether `epoch` (seconds, UTC) falls in years 0000 through 9999, which
/// RFC 3339 writes with four digits.
pub open spec fn four_digit_year(epoch: i64) -> bool {
    -62_167_219_200 <= epoch <= 253_402_300_799
}

/// Whether the reset text of usage window `u`, made from rate-limit window
/// `w`, reads back as `w`'s reset instant wherever RFC 3339 writes that
/// instant with a four-digit year.
pub open spec fn reset_reads_back<U>(w: Option<RateLimitWindow<U>>, u: Option<UsageWindow<U>>) -> bool {
    match (w, u) {
        (Some(w), Some(u)) => match w.resets_at {
            Some(e) => four_digit_year(e) ==> (u.reset matches Some(s) && rfc3339_instant(s@)
                == Some((e, 0u32))),
            None => true,
        },
        _ => true,
    }
}

/// A window's utilization when the input omits it.
pub open spec fn stdin_window<U>(w: RateLimitWindow<U>, absent: U) -> WindowModel<U> {
    WindowModel {
        util: match w.used_percentage {
            Some(u) => u,
            None => absent,
        },
        reset: match w.resets_at {
            Some(e) => epoch_rfc3339(e),
            None => None,
        },
    }
}

/// Plain model of an optional rate-limit window, as a usage window.
pub open spec fn stdin_window_opt<U>(w: Option<RateLimitWindow<U>>, absent: U) -> Option<
    WindowModel<U>,
> {
    match w {
        Some(w) => Some(stdin_window(w, absent)),
        None => None,
    }
}

/// Whether a cache written at `cached_at` is still fresh at `now` for
/// `cache_duration` seconds: its time parses and fewer whole seconds than
/// the duration have passed since.
pub open spec fn cache_fresh(cached_at: Seq<char>, cache_duration: u64, now: Timestamp) -> bool {
    match rfc3339_instant(cached_at) {
        Some((secs, nanos)) => seconds_between(now, Timestamp { secs, nanos }) < (
        cache_duration as i64),
        None => false,
    }
}

/// What a cache record holds.
pub ghost struct CacheModel<U> {
    pub five_hour_utilization: Option<U>,
    pub five_hour_resets_at: Option<Seq<char>>,
    pub seven_day_utilization: Option<U>,
    pub resets_at: Option<Seq<char>>,
    pub cached_at: Seq<char>,
}

/// Plain model of a cache record.
pub open spec fn cache_view<U>(c: ApiUsageCache<U>) -> CacheModel<U> {
    CacheModel {
        five_hour_utilization: c.five_hour_utilization,
        five_hour_resets_at: opt_view(c.five_hour_resets_at),
        seven_day_utilization: c.seven_day_utilization,
        resets_at: opt_view(c.resets_at),
        cached_at: c.cached_at@,
    }
}

/// The record of the 5-hour and 7-day windows written at `now_rfc`.
pub open spec fn cache_of_windows<U>(
    five_hour: Option<WindowModel<U>>,
    seven_day: Option<WindowModel<U>>,
    now_rfc: Seq<char>,
) -> CacheModel<U> {
    CacheModel {
        five_hour_utilization: match five_hour {
            Some(w) => Some(w.util),
            None => None,
        },
        five_hour_resets_at: match five_hour {
            Some(w) => w.reset,
            None => None,
        },
        seven_day_utilization: match seven_day {
            Some(w) => Some(w.util),
            None => None,
        },
        resets_at: match seven_day {
            Some(w) => w.reset,
            None => None,
        },
        cached_at: now_rfc,
    }
}

/// The usage a cache record stands for; it never has the Fable window.
pub open spec fn data_of_cache<U>(c: CacheModel<U>) -> (
    Option<WindowModel<U>>,
    Option<WindowModel<U>>,
    Option<WindowModel<U>>,
) {
    (
        window_of(c.five_hour_utilization, c.five_hour_resets_at),
        window_of(c.seven_day_utilization, c.resets_at),
        None,
    )
}

/// Plain model of usage data, as its three windows.
pub open spec fn data_view<U>(d: UsageData<U>) -> (
    Option<WindowModel<U>>,
    Option<WindowModel<U>>,
    Option<WindowModel<U>>,
) {
    (window_view(d.five_hour), window_view(d.seven_day), window_view(d.seven_day_fable))
}

/// What to do about the API fallback once the cache has been read.
pub enum FetchPlan<U> {
    /// The cache is fresh: render this.
    Serve(UsageData<U>),
    /// Ask the API; the cache read (if any) is handed on.
    Fetch(Option<ApiUsageCache<U>>),
}

/// What to do after asking the API: the record to write (if any) and the
/// usage to render (if any).
pub struct FetchOutcome<U> {
    pub save: Option<ApiUsageCache<U>>,
    pub data: Option<UsageData<U>>,
}

/// The text of an option value, if it is one.
pub open spec fn as_text(v: Option<OptionValueModel>) -> Option<Seq<char>> {
    match v {
        Some(OptionValueModel::Text(s)) => Some(s),
        _ => None,
    }
}

/// The whole number of an option value, if it is one.
pub open spec fn as_number(v: Option<OptionValueModel>) -> Option<u64> {
    match v {
        Some(OptionValueModel::Number(n)) => Some(n),
        _ => None,
    }
}

/// The position of the first segment configuration with id `Usage`.
pub open spec fn first_usage(segments: Seq<SegmentConfig>) -> Option<int> {
    if exists|i: int| 0 <= i < segments.len() && segments[i].id == SegmentId::Usage {
        Some(
            choose|i: int|
                0 <= i < segments.len() && segments[i].id == SegmentId::Usage && forall|j: int|
                    0 <= j < i ==> segments[j].id != SegmentId::Usage,
        )
    } else {
        None
    }
}

/// The option named `key` of the first usage segment configuration.
pub open spec fn usage_option(segments: Seq<SegmentConfig>, key: Seq<char>) -> Option<
    OptionValueModel,
> {
    match first_usage(segments) {
        Some(i) => option_lookup(options_view(segments[i].options@), key),
        None => None,
    }
}

impl UsageSegment {
    /// The usage segment.
    pub fn new() -> (r: Self) {
        Self
    }

    /// Unix epoch seconds (the input's `resets_at`) to RFC 3339, so both
    /// data sources feed the same rendering: chrono's
    /// `DateTime::<Utc>::from_timestamp(epoch, 0)` and `to_rfc3339()`. The
    /// text is named, not spelled out. Claimed besides: for an instant in
    /// years 0000 through 9999 there is a text, and `parse_from_rfc3339`
    /// reads it back as the same instant (chrono writes such a year with four
    /// digits, the offset as `+00:00` and no fraction for zero nanoseconds).
    #[verifier::external_body]
    fn epoch_to_rfc3339(epoch: i64) -> (r: Option<String>)
        ensures
            match r {
                Some(s) => epoch_rfc3339(epoch) == Some(s@),
                None => epoch_rfc3339(epoch) is None,
            },
            four_digit_year(epoch) ==> r is Some,
            r matches Some(s) ==> (four_digit_year(epoch) ==> rfc3339_instant(s@) == Some((epoch, 0u32))),
    {
        match chrono::DateTime::<chrono::Utc>::from_timestamp(epoch, 0) {
            Some(dt) => Some(dt.to_rfc3339()),
            None => None,
        }
    }

    /// Whether `cache` is still fresh at `now` for `cache_duration`
    /// seconds: its `cached_at` parses as RFC 3339 and fewer whole seconds
    /// than the duration have passed since.
    pub fn is_cache_valid<U>(&self, cache: &ApiUsageCache<U>, cache_duration: u64, now: Timestamp) -> (r:
        bool)
        ensures
            r == cache_fresh(cache.cached_at@, cache_duration, now),
    {
        match parse_rfc3339(cache.cached_at.as_str()) {
            Some(cached_at) => {
                let elapsed = seconds_between_exec(now, cached_at);
                elapsed < (cache_duration as i64) as i128
            },
            None => false,
        }
    }

    /// A usage window from one of the input's rate-limit windows: its used
    /// percentage (`absent` when it has none) and its reset time in
    /// RFC 3339.
    pub fn window_from_limit<U: Copy>(w: &RateLimitWindow<U>, absent: U) -> (r: UsageWindow<U>)
        ensures
            window_view(Some(r)) == Some(stdin_window(*w, absent)),
            w.resets_at matches Some(e) ==> (four_digit_year(e) ==> (r.reset matches Some(s)
                && rfc3339_instant(s@) == Some((e, 0u32)))),
    {
        let util = match w.used_percentage {
            Some(u) => u,
            None => absent,
        };
        let reset = match w.resets_at {
            Some(e) => Self::epoch_to_rfc3339(e),
            None => None,
        };
        UsageWindow { util, reset }
    }

    fn window_from_limit_opt<U: Copy>(w: &Option<RateLimitWindow<U>>, absent: U) -> (r: Option<
        UsageWindow<U>,
    >)
        ensures
            window_view(r) == stdin_window_opt(*w, absent),
            reset_reads_back(*w, r),
    {
        match w {
            Some(w) => Some(Self::window_from_limit(w, absent)),
            None => None,
        }
    }

    /// The usage the host program reports on its input (its newer versions do):
    /// real-time, no network. A window's utilization is `absent` where the
    /// input has the window but not its percentage.
    pub fn stdin_data<U: Copy>(limits: &RateLimits<U>, absent: U) -> (r: UsageData<U>)
        ensures
            data_view(r) == (
                stdin_window_opt(limits.five_hour, absent),
                stdin_window_opt(limits.seven_day, absent),
                stdin_window_opt(limits.seven_day_fable, absent),
            ),
            reset_reads_back(limits.five_hour, r.five_hour),
            reset_reads_back(limits.seven_day, r.seven_day),
            reset_reads_back(limits.seven_day_fable, r.seven_day_fable),
    {
        UsageData {
            five_hour: Self::window_from_limit_opt(&limits.five_hour, absent),
            seven_day: Self::window_from_limit_opt(&limits.seven_day, absent),
            seven_day_fable: Self::window_from_limit_opt(&limits.seven_day_fable, absent),
        }
    }

    /// The cache record of the 5-hour and 7-day windows of `data`, written
    /// at `now_rfc`.
    pub fn cache_of<U: Copy>(data: &UsageData<U>, now_rfc: String) -> (r: ApiUsageCache<U>)
        ensures
            cache_view(r) == cache_of_windows(
                window_view(data.five_hour),
                window_view(data.seven_day),
                now_rfc@,
            ),
    {
        let (five_util, five_reset) = match &data.five_hour {
            Some(w) => (Some(w.util), w.reset.clone()),
            None => (None, None),
        };
        let (seven_util, seven_reset) = match &data.seven_day {
            Some(w) => (Some(w.util), w.reset.clone()),
            None => (None, None),
        };
        ApiUsageCache {
            five_hour_utilization: five_util,
            five_hour_resets_at: five_reset,
            seven_day_utilization: seven_util,
            resets_at: seven_reset,
            cached_at: now_rfc,
        }
    }

    /// After reading usage from the input: the cache record to write so
    /// that a new session's first renders (before the input carries rate
    /// limits) need not ask the API. Nothing is written while the cache
    /// read (`cached`) is less than a minute old at `now`.
    pub fn stdin_cache_update<U: Copy>(
        &self,
        data: &UsageData<U>,
        cached: Option<&ApiUsageCache<U>>,
        now: Timestamp,
        now_rfc: String,
    ) -> (r: Option<ApiUsageCache<U>>)
        ensures
            match cached {
                Some(c) if cache_fresh(c.cached_at@, 60, now) => r is None,
                _ => r matches Some(rec) && cache_view(rec) == cache_of_windows(
                    window_view(data.five_hour),
                    window_view(data.seven_day),
                    now_rfc@,
                ),
            },
    {
        let fresh = match cached {
            Some(c) => self.is_cache_valid(c, 60, now),
            None => false,
        };
        if fresh {
            None
        } else {
            Some(Self::cache_of(data, now_rfc))
        }
    }

    /// The usage a cache record stands for (never the Fable window).
    pub fn from_cache<U: Copy>(c: &ApiUsageCache<U>) -> (r: UsageData<U>)
        ensures
            data_view(r) == data_of_cache(cache_view(*c)),
    {
        UsageData {
            five_hour: match c.five_hour_utilization {
                Some(util) => Some(UsageWindow { util, reset: c.five_hour_resets_at.clone() }),
                None => None,
            },
            seven_day: match c.seven_day_utilization {
                Some(util) => Some(UsageWindow { util, reset: c.resets_at.clone() }),
                None => None,
            },
            seven_day_fable: None,
        }
    }

    /// How the usage API is polled, from the first usage segment in the
    /// configuration: its `api_base_url` text (default
    /// `https://api.anthropic.com`), its `cache_duration` (default 300 s)
    /// and its `timeout` (default 2 s), each default taken where the option
    /// is missing or of another kind.
    pub fn settings(segments: &Vec<SegmentConfig>) -> (r: UsageSettings)
        ensures
            r.api_base_url@ == match as_text(usage_option(segments@, "api_base_url"@)) {
                Some(s) => s,
                None => "https://api.anthropic.com"@,
            },
            r.cache_duration == match as_number(usage_option(segments@, "cache_duration"@)) {
                Some(n) => n,
                None => 300,
            },
            r.timeout == match as_number(usage_option(segments@, "timeout"@)) {
                Some(n) => n,
                None => 2,
            },
    {
        let mut i: usize = 0;
        while i < segments.len() && segments[i].id != SegmentId::Usage
            invariant
                0 <= i <= segments.len(),
                forall|j: int| 0 <= j < i ==> segments@[j].id != SegmentId::Usage,
            decreases segments.len() - i,
        {
            i += 1;
        }
        if i == segments.len() {
            assert(first_usage(segments@) is None);
            return UsageSettings {
                api_base_url: string_from("https://api.anthropic.com"),
                cache_duration: 300,
                timeout: 2,
            };
        }
        proof {
            let k = choose|k: int|
                0 <= k < segments@.len() && segments@[k].id == SegmentId::Usage && forall|j: int|
                    0 <= j < k ==> segments@[j].id != SegmentId::Usage;
            assert(segments@[i as int].id == SegmentId::Usage);
            if k < i {
            } else if k > i {
                assert(segments@[i as int].id != SegmentId::Usage);
            }
            assert(first_usage(segments@) == Some(i as int));
        }
        let options = &segments[i].options;
        let api_base_url = match find_option(options, "api_base_url") {
            Some(OptionValue::Text(s)) => s.clone(),
            _ => string_from("https://api.anthropic.com"),
        };
        let cache_duration = match find_option(options, "cache_duration") {
            Some(OptionValue::Number(n)) => *n,
            _ => 300,
        };
        let timeout = match find_option(options, "timeout") {
            Some(OptionValue::Number(n)) => *n,
            _ => 2,
        };
        UsageSettings { api_base_url, cache_duration, timeout }
    }

    /// The first decision of the API fallback, once the cache has been read
    /// (`cached`): serve it when it is fresh for `cache_duration` seconds at
    /// `now`, else ask the API, handing the cache on.
    pub fn plan_fetch<U: Copy>(
        &self,
        cached: Option<ApiUsageCache<U>>,
        cache_duration: u64,
        now: Timestamp,
    ) -> (r: FetchPlan<U>)
        ensures
            match cached {
                Some(c) if cache_fresh(c.cached_at@, cache_duration, now) => r matches FetchPlan::Serve(
                    d,
                ) && data_view(d) == data_of_cache(cache_view(c)),
                _ => r matches FetchPlan::Fetch(handed) && handed == cached,
            },
    {
        match cached {
            Some(c) => {
                if self.is_cache_valid(&c, cache_duration, now) {
                    FetchPlan::Serve(Self::from_cache(&c))
                } else {
                    FetchPlan::Fetch(Some(c))
                }
            },
            None => FetchPlan::Fetch(None),
        }
    }

    /// The second decision of the API fallback, once the API answered
    /// (`response`) or failed (`None`). An answer is cached at `now_rfc` and
    /// rendered. After a failure (such as a 429) a cache read earlier is
    /// rendered and written again with `cached_at` set to `now_rfc`, so the
    /// next renders within the cache duration serve it instead of asking an
    /// endpoint that is limiting the rate again; with no cache there is
    /// nothing to render.
    pub fn after_fetch<U: Copy>(
        response: Option<ApiUsageResponse<U>>,
        cached: Option<ApiUsageCache<U>>,
        now_rfc: String,
    ) -> (r: FetchOutcome<U>)
        ensures
            match response {
                Some(resp) => {
                    &&& r.save matches Some(rec) && cache_view(rec) == cache_of_windows(
                        Some(
                            WindowModel {
                                util: resp.five_hour.utilization,
                                reset: opt_view(resp.five_hour.resets_at),
                            },
                        ),
                        Some(
                            WindowModel {
                                util: resp.seven_day.utilization,
                                reset: opt_view(resp.seven_day.resets_at),
                            },
                        ),
                        now_rfc@,
                    )
                    &&& r.data matches Some(d) && data_view(d) == (
                        Some(
                            WindowModel {
                                util: resp.five_hour.utilization,
                                reset: opt_view(resp.five_hour.resets_at),
                            },
                        ),
                        Some(
                            WindowModel {
                                util: resp.seven_day.utilization,
                                reset: opt_view(resp.seven_day.resets_at),
                            },
                        ),
                        None::<WindowModel<U>>,
                    )
                },
                None => match cached {
                    Some(c) => {
                        let refreshed = CacheModel { cached_at: now_rfc@, ..cache_view(c) };
                        &&& r.save matches Some(rec) && cache_view(rec) == refreshed
                        &&& r.data matches Some(d) && data_view(d) == data_of_cache(refreshed)
                    },
                    None => r.save is None && r.data is None,
                },
            },
    {
        match response {
            Some(resp) => {
                let data = UsageData {
                    five_hour: Some(
                        UsageWindow {
                            util: resp.five_hour.utilization,
                            reset: resp.five_hour.resets_at,
                        },
                    ),
                    seven_day: Some(
                        UsageWindow {
                            util: resp.seven_day.utilization,
                            reset: resp.seven_day.resets_at,
                        },
                    ),
                    seven_day_fable: None,
                };
                let save = Self::cache_of(&data, now_rfc);
                FetchOutcome { save: Some(save), data: Some(data) }
            },
            None => match cached {
                Some(c) => {
                    let mut c = c;
                    c.cached_at = now_rfc;
                    let data = Self::from_cache(&c);
                    FetchOutcome { save: Some(c), data: Some(data) }
                },
                None => FetchOutcome { save: None, data: None },
            },
        }
    }
}

// ---------------------------------------------------------------------------
// Rendering
// ---------------------------------------------------------------------------

/// What rendering reads of a utilization percentage: its 256-colour state
/// tone, its gauge level (the percentage clamped to 0..=100 and cut to a
/// whole number) and the percentage rounded to a whole number.
#[derive(Debug, Clone, Copy)]
pub struct Utilization {
    pub color: u8,
    pub gauge_level: u8,
    pub rounded: u8,
}

/// Minutes until the reset, never below zero.
pub open spec fn minutes_left(reset: Timestamp, now: Timestamp) -> nat {
    let m = minutes_between(reset, now);
    if m > 0 {
        m as nat
    } else {
        0
    }
}

/// The countdown, scaled to the horizon: `38m`, `4h12m` (minutes with two
/// digits), `3d15h`.
pub open spec fn countdown(mins: nat) -> Seq<char> {
    let d = mins / 1440;
    let h = (mins % 1440) / 60;
    let m = mins % 60;
    if d > 0 {
        decimal(d) + seq!['d'] + decimal(h) + seq!['h']
    } else if h > 0 {
        decimal(h) + seq!['h'] + pad2(m) + seq!['m']
    } else {
        decimal(m) + seq!['m']
    }
}

/// `HH:MM` of a local time.
pub open spec fn hour_minute(t: LocalTime) -> Seq<char> {
    pad2(t.hour as nat) + seq![':'] + pad2(t.minute as nat)
}

/// 今天 (today).
pub open spec fn today_word() -> Seq<char> {
    seq!['\u{4eca}', '\u{5929}']
}

/// 明天 (tomorrow).
pub open spec fn tomorrow_word() -> Seq<char> {
    seq!['\u{660e}', '\u{5929}']
}

/// The absolute reset time. Without a day word (the 5-hour window, where
/// `HH:MM` is unambiguous) just `HH:MM`; with one: `今天 HH:MM` today,
/// `明天 HH:MM` tomorrow, `周X HH:MM` within the week, else
/// `MM/DD 周X HH:MM`.
pub open spec fn absolute_time(reset: LocalTime, with_day_word: bool, now: LocalTime) -> Seq<char> {
    let hm = hour_minute(reset);
    if !with_day_word {
        hm
    } else {
        let days = reset.days_from_ce - now.days_from_ce;
        if days == 0 {
            today_word() + seq![' '] + hm
        } else if days == 1 {
            tomorrow_word() + seq![' '] + hm
        } else if 2 <= days <= 6 {
            weekday_name(reset.weekday) + seq![' '] + hm
        } else {
            pad2(reset.month as nat) + seq!['/'] + pad2(reset.day as nat) + seq![' ']
                + weekday_name(reset.weekday) + seq![' '] + hm
        }
    }
}

/// The (countdown, absolute time) pair for a reset at local time `reset`.
pub open spec fn reset_labels(reset: LocalTime, with_day_word: bool, now: LocalTime) -> (
    Seq<char>,
    Seq<char>,
) {
    (countdown(minutes_left(reset.at, now.at)), absolute_time(reset, with_day_word, now))
}

/// What `format_reset` gives for a reset time text: nothing without a text
/// or when it is not RFC 3339; otherwise the labels for a local time at the
/// instant the text names whose fields some time zone gives it (which one
/// depends on the machine's time zone).
pub open spec fn reset_outcome(
    reset: Option<Seq<char>>,
    with_day_word: bool,
    now: LocalTime,
    r: Option<(Seq<char>, Seq<char>)>,
) -> bool {
    match reset {
        None => r is None,
        Some(s) => match rfc3339_instant(s) {
            None => r is None,
            Some((secs, nanos)) => match r {
                None => false,
                Some(p) => exists|l: LocalTime|
                    l.at == (Timestamp { secs, nanos }) && local_time_consistent(l) && p
                        == reset_labels(l, with_day_word, now),
            },
        },
    }
}

/// Plain model of an optional pair of strings.
pub open spec fn labels_view(r: Option<(String, String)>) -> Option<(Seq<char>, Seq<char>)> {
    match r {
        Some(p) => Some((p.0@, p.1@)),
        None => None,
    }
}

/// Dim gray, as the default theme's muted labels.
pub open spec fn dim() -> Seq<char> {
    "\x1b[38;5;245m"@
}

/// Neutral light.
pub open spec fn light() -> Seq<char> {
    "\x1b[38;5;252m"@
}

/// Back to the terminal's colours.
pub open spec fn reset_code() -> Seq<char> {
    "\x1b[0m"@
}

/// The separator between windows.
pub open spec fn window_separator() -> Seq<char> {
    "\x1b[90m \u{b7} \x1b[0m"@
}

/// One window's text: the dim label, then the gauge and the rounded
/// percentage in the state colour, then the countdown in neutral light with
/// the absolute reset time dimmed in parentheses (a dim `?` when the reset
/// time is unknown); a dim `label -` when the data source omits the window.
pub open spec fn window_text(
    label: Seq<char>,
    w: Option<WindowModel<Utilization>>,
    labels: Option<(Seq<char>, Seq<char>)>,
) -> Seq<char> {
    match w {
        Some(w) => {
            let reset_part = match labels {
                Some((cd, abs)) => light() + cd + reset_code() + seq![' '] + dim() + seq!['('] + abs
                    + seq![')'] + reset_code(),
                None => dim() + seq!['?'] + reset_code(),
            };
            dim() + label + " \x1b[38;5;"@ + decimal(w.util.color as nat) + seq!['m'] + slice_glyph(
                gauge_slices(w.util.gauge_level),
            ) + seq![' '] + decimal(w.util.rounded as nat) + seq!['%'] + reset_code() + seq![' ']
                + reset_part
        },
        None => dim() + label + " -"@ + reset_code(),
    }
}

/// The highest gauge level of the windows present (0 when none is).
pub open spec fn max_level(d: (
    Option<WindowModel<Utilization>>,
    Option<WindowModel<Utilization>>,
    Option<WindowModel<Utilization>>,
)) -> u8 {
    let a: u8 = match d.0 {
        Some(w) => w.util.gauge_level,
        None => 0,
    };
    let b: u8 = match d.1 {
        Some(w) => if w.util.gauge_level > a {
            w.util.gauge_level
        } else {
            a
        },
        None => a,
    };
    match d.2 {
        Some(w) => if w.util.gauge_level > b {
            w.util.gauge_level
        } else {
            b
        },
        None => b,
    }
}

/// The segment's primary text given each window's reset labels: the 5-hour
/// window, the 7-day window, and the Fable window when present, separated
/// by a dim dot.
pub open spec fn usage_primary(
    d: (Option<WindowModel<Utilization>>, Option<WindowModel<Utilization>>, Option<WindowModel<Utilization>>),
    l5: Option<(Seq<char>, Seq<char>)>,
    l7: Option<(Seq<char>, Seq<char>)>,
    lf: Option<(Seq<char>, Seq<char>)>,
) -> Seq<char> {
    window_text("5h"@, d.0, l5) + window_separator() + window_text("7d"@, d.1, l7) + match d.2 {
        Some(_) => window_separator() + window_text("fable"@, d.2, lf),
        None => Seq::<char>::empty(),
    }
}

impl UsageSegment {
    /// The (countdown, absolute time) labels for a reset at local time
    /// `reset` seen at local time `now`.
    pub fn reset_labels(reset: &LocalTime, with_day_word: bool, now: &LocalTime) -> (r: (
        String,
        String,
    ))
        ensures
            (r.0@, r.1@) == reset_labels(*reset, with_day_word, *now),
    {
        let m = minutes_between_exec(reset.at, now.at);
        let mins: i128 = if m > 0 {
            m
        } else {
            0
        };
        assert(mins == minutes_left(reset.at, now.at));
        let d: i128 = mins / 1440;
        let h: i128 = (mins % 1440) / 60;
        let mm: i128 = mins % 60;
        assert(0 <= d <= mins);
        let countdown = if d > 0 {
            let mut s = decimal_string(d as u64);
            push_char(&mut s, 'd');
            let hs = decimal_string(h as u64);
            push_str(&mut s, hs.as_str());
            push_char(&mut s, 'h');
            s
        } else if h > 0 {
            let mut s = decimal_string(h as u64);
            push_char(&mut s, 'h');
            let ms = pad2_string(mm as u64);
            push_str(&mut s, ms.as_str());
            push_char(&mut s, 'm');
            s
        } else {
            let mut s = decimal_string(mm as u64);
            push_char(&mut s, 'm');
            s
        };
        let mut hm = pad2_string(reset.hour as u64);
        push_char(&mut hm, ':');
        let minute = pad2_string(reset.minute as u64);
        push_str(&mut hm, minute.as_str());
        let absolute = if !with_day_word {
            hm
        } else {
            let days: i64 = reset.days_from_ce as i64 - now.days_from_ce as i64;
            let mut s = String::new();
            if days == 0 {
                push_str(&mut s, "\u{4eca}\u{5929}");
                proof {
                    reveal_strlit("\u{4eca}\u{5929}");
                }
            } else if days == 1 {
                push_str(&mut s, "\u{660e}\u{5929}");
                proof {
                    reveal_strlit("\u{660e}\u{5929}");
                }
            } else if 2 <= days && days <= 6 {
                push_str(&mut s, weekday_zh(reset.weekday));
            } else {
                let month = pad2_string(reset.month as u64);
                push_str(&mut s, month.as_str());
                push_char(&mut s, '/');
                let day = pad2_string(reset.day as u64);
                push_str(&mut s, day.as_str());
                push_char(&mut s, ' ');
                push_str(&mut s, weekday_zh(reset.weekday));
            }
            push_char(&mut s, ' ');
            push_str(&mut s, hm.as_str());
            s
        };
        (countdown, absolute)
    }

    /// The humanized reset information for a reset time text (RFC 3339):
    /// the countdown and the absolute time in the local time zone, seen at
    /// local time `now`; nothing without a text or when it is not RFC 3339.
    pub fn format_reset(reset: Option<&str>, with_day_word: bool, now: &LocalTime) -> (r: Option<
        (String, String),
    >)
        ensures
            reset_outcome(
                match reset {
                    Some(s) => Some(s@),
                    None => None,
                },
                with_day_word,
                *now,
                labels_view(r),
            ),
    {
        let text = match reset {
            Some(t) => t,
            None => {
                return None;
            },
        };
        let at = match parse_rfc3339(text) {
            Some(at) => at,
            None => {
                return None;
            },
        };
        match LocalTime::at_instant(at) {
            Some(local) => {
                let r = Self::reset_labels(&local, with_day_word, now);
                assert(local.at == (Timestamp { secs: at.secs, nanos: at.nanos }));
                Some(r)
            },
            None => None,
        }
    }

    /// One window's text given its reset labels.
    pub fn window_text_with(
        label: &str,
        w: &Option<UsageWindow<Utilization>>,
        labels: Option<(String, String)>,
    ) -> (r: String)
        ensures
            r@ == window_text(label@, window_view(*w), labels_view(labels)),
    {
        let mut s = string_from("\x1b[38;5;245m");
        push_str(&mut s, label);
        match w {
            Some(w) => {
                push_str(&mut s, " \x1b[38;5;");
                let color = decimal_string(w.util.color as u64);
                push_str(&mut s, color.as_str());
                push_char(&mut s, 'm');
                push_str(&mut s, circle_gauge(w.util.gauge_level));
                push_char(&mut s, ' ');
                let pct = decimal_string(w.util.rounded as u64);
                push_str(&mut s, pct.as_str());
                push_char(&mut s, '%');
                push_str(&mut s, "\x1b[0m");
                push_char(&mut s, ' ');
                match labels {
                    Some((cd, abs)) => {
                        push_str(&mut s, "\x1b[38;5;252m");
                        push_str(&mut s, cd.as_str());
                        push_str(&mut s, "\x1b[0m");
                        push_char(&mut s, ' ');
                        push_str(&mut s, "\x1b[38;5;245m");
                        push_char(&mut s, '(');
                        push_str(&mut s, abs.as_str());
                        push_char(&mut s, ')');
                        push_str(&mut s, "\x1b[0m");
                    },
                    None => {
                        push_str(&mut s, "\x1b[38;5;245m");
                        push_char(&mut s, '?');
                        push_str(&mut s, "\x1b[0m");
                    },
                }
            },
            None => {
                push_str(&mut s, " -");
                push_str(&mut s, "\x1b[0m");
            },
        }
        s
    }

    fn window_text(
        label: &str,
        w: &Option<UsageWindow<Utilization>>,
        with_day_word: bool,
        now: &LocalTime,
    ) -> (r: String)
        ensures
            exists|l: Option<(Seq<char>, Seq<char>)>|
                reset_outcome(
                    match *w {
                        Some(w) => opt_view(w.reset),
                        None => None,
                    },
                    with_day_word,
                    *now,
                    l,
                ) && r@ == window_text(label@, window_view(*w), l),
    {
        let labels = match w {
            Some(w) => match &w.reset {
                Some(reset) => Self::format_reset(Some(reset.as_str()), with_day_word, now),
                None => Self::format_reset(None, with_day_word, now),
            },
            None => None,
        };
        Self::window_text_with(label, w, labels)
    }

    /// The segment's text for `data` at local time `now`: each window
    /// rendered, separated by a dim dot (the Fable window only when
    /// present), and, as `dynamic_icon`, the gauge for the highest level.
    pub fn render(&self, data: &UsageData<Utilization>, now: &LocalTime) -> (r: SegmentData)
        ensures
            exists|
                l5: Option<(Seq<char>, Seq<char>)>,
                l7: Option<(Seq<char>, Seq<char>)>,
                lf: Option<(Seq<char>, Seq<char>)>,
            |
                {
                    &&& reset_outcome(
                        match data.five_hour {
                            Some(w) => opt_view(w.reset),
                            None => None,
                        },
                        false,
                        *now,
                        l5,
                    )
                    &&& reset_outcome(
                        match data.seven_day {
                            Some(w) => opt_view(w.reset),
                            None => None,
                        },
                        true,
                        *now,
                        l7,
                    )
                    &&& reset_outcome(
                        match data.seven_day_fable {
                            Some(w) => opt_view(w.reset),
                            None => None,
                        },
                        true,
                        *now,
                        lf,
                    )
                    &&& r.primary@ == usage_primary(data_view(*data), l5, l7, lf)
                },
            r.secondary@ == Seq::<char>::empty(),
            pairs_view(r.metadata@) == seq![
                ("dynamic_icon"@, slice_glyph(gauge_slices(max_level(data_view(*data))))),
            ],
            distinct_names(pairs_view(r.metadata@)),
    {
        let mut level: u8 = match &data.five_hour {
            Some(w) => w.util.gauge_level,
            None => 0,
        };
        match &data.seven_day {
            Some(w) => if w.util.gauge_level > level {
                level = w.util.gauge_level;
            },
            None => {},
        }
        match &data.seven_day_fable {
            Some(w) => if w.util.gauge_level > level {
                level = w.util.gauge_level;
            },
            None => {},
        }
        let icon = string_from(circle_gauge(level));
        let five = Self::window_text("5h", &data.five_hour, false, now);
        let seven = Self::window_text("7d", &data.seven_day, true, now);
        let mut primary = five;
        push_str(&mut primary, "\x1b[90m \u{b7} \x1b[0m");
        push_str(&mut primary, seven.as_str());
        let ghost l5 = choose|l: Option<(Seq<char>, Seq<char>)>|
            reset_outcome(
                match data.five_hour {
                    Some(w) => opt_view(w.reset),
                    None => None,
                },
                false,
                *now,
                l,
            ) && five@ == window_text("5h"@, window_view(data.five_hour), l);
        let ghost l7 = choose|l: Option<(Seq<char>, Seq<char>)>|
            reset_outcome(
                match data.seven_day {
                    Some(w) => opt_view(w.reset),
                    None => None,
                },
                true,
                *now,
                l,
            ) && seven@ == window_text("7d"@, window_view(data.seven_day), l);
        let ghost mut lf: Option<(Seq<char>, Seq<char>)> = None;
        if data.seven_day_fable.is_some() {
            let fable = Self::window_text("fable", &data.seven_day_fable, true, now);
            push_str(&mut primary, "\x1b[90m \u{b7} \x1b[0m");
            push_str(&mut primary, fable.as_str());
            proof {
                lf = choose|l: Option<(Seq<char>, Seq<char>)>|
                    reset_outcome(
                        match data.seven_day_fable {
                            Some(w) => opt_view(w.reset),
                            None => None,
                        },
                        true,
                        *now,
                        l,
                    ) && fable@ == window_text("fable"@, window_view(data.seven_day_fable), l);
            }
        }
        assert(primary@ == usage_primary(data_view(*data), l5, l7, lf));
        let mut metadata: Vec<(String, String)> = Vec::new();
        metadata.push(pair("dynamic_icon", icon));
        assert(pairs_view(metadata@) =~= seq![
            ("dynamic_icon"@, slice_glyph(gauge_slices(max_level(data_view(*data))))),
        ]);
        SegmentData { primary, secondary: String::new(), metadata }
    }
}

// ---------------------------------------------------------------------------
// Choices around the API request
// ---------------------------------------------------------------------------

/// Where the usage comes from.
#[derive(Debug, Clone, Copy, PartialEq, Eq, Structural)]
pub enum DataSource {
    /// The rate limits on the host program's input (real-time, no network).
    Input,
    /// The usage API, through the cache (for versions of the host program
    /// without rate limits on the input, and a session's first renders).
    Api,
}

/// The proxy setting that wins: `HTTPS_PROXY` when the settings have it,
/// else `HTTP_PROXY`; a setting that is not a text gives no proxy.
pub open spec fn chosen_proxy(
    https: Option<OptionValueModel>,
    http: Option<OptionValueModel>,
) -> Option<Seq<char>> {
    match https {
        Some(v) => as_text(Some(v)),
        None => as_text(http),
    }
}

/// The user agent for the API request: the host program's product name,
/// then `/` and its version when npm reported a non-empty one (its output,
/// decoded as UTF-8 with invalid sequences replaced, trimmed of whitespace).
pub open spec fn user_agent_text(product: Seq<char>, npm_succeeded: bool, npm_output: Seq<char>) -> Seq<
    char,
> {
    let version = trim(npm_output);
    if npm_succeeded && version.len() > 0 {
        product + seq!['/'] + version
    } else {
        product
    }
}

/// What serde_json reads of the host program's settings text for its proxy:
/// `None` when the text is not JSON or its top level has no `env` entry;
/// otherwise the `HTTPS_PROXY` and `HTTP_PROXY` entries of `env`, each
/// absent, a text, or (for any other JSON value) `Other`.
pub uninterp spec fn settings_proxy_entries(settings_text: Seq<char>) -> Option<
    (Option<OptionValueModel>, Option<OptionValueModel>),
>;

/// Plain model of an optional option value.
pub open spec fn opt_value_view(o: Option<OptionValue>) -> Option<OptionValueModel> {
    match o {
        Some(v) => Some(v@),
        None => None,
    }
}

/// The proxy a settings text asks for: the one `chosen_proxy` picks from
/// its entries, none when the text has no `env` table.
pub open spec fn settings_proxy(settings_text: Seq<char>) -> Option<Seq<char>> {
    match settings_proxy_entries(settings_text) {
        Some((https, http)) => chosen_proxy(https, http),
        None => None,
    }
}

impl UsageSegment {
    /// serde_json's `from_str` into a `Value`, then `get("env")` and on it
    /// `get("HTTPS_PROXY")` and `get("HTTP_PROXY")`: the entries, a JSON
    /// string as its text and any other value as `Other`. Claimed: the
    /// result is the named reading of the text.
    #[verifier::external_body]
    fn proxy_entries(settings_text: &str) -> (r: Option<(Option<OptionValue>, Option<OptionValue>)>)
        ensures
            match r {
                Some((https, http)) => settings_proxy_entries(settings_text@) == Some(
                    (opt_value_view(https), opt_value_view(http)),
                ),
                None => settings_proxy_entries(settings_text@) is None,
            },
    {
        let settings: serde_json::Value = serde_json::from_str(settings_text).ok()?;
        let env = settings.get("env")?;
        let https = match env.get("HTTPS_PROXY") {
            Some(serde_json::Value::String(s)) => Some(OptionValue::Text(s.clone())),
            Some(_) => Some(OptionValue::Other),
            None => None,
        };
        let http = match env.get("HTTP_PROXY") {
            Some(serde_json::Value::String(s)) => Some(OptionValue::Text(s.clone())),
            Some(_) => Some(OptionValue::Other),
            None => None,
        };
        Some((https, http))
    }

    /// The proxy the host program's settings text asks for: `HTTPS_PROXY`
    /// of its `env` table when present, else `HTTP_PROXY`; none when the
    /// text is not JSON, has no `env` table, or the winning entry is not a
    /// text.
    pub fn proxy_from_settings(settings_text: &str) -> (r: Option<String>)
        ensures
            opt_view(r) == settings_proxy(settings_text@),
    {
        match Self::proxy_entries(settings_text) {
            Some((https, http)) => Self::pick_proxy(https.as_ref(), http.as_ref()),
            None => None,
        }
    }

    /// Where the usage comes from: the input's rate limits when it has
    /// them (the host program's newer versions do), else the API.
    pub fn data_source<U>(limits: &Option<RateLimits<U>>) -> (r: DataSource)
        ensures
            (r == DataSource::Input) <==> limits is Some,
    {
        match limits {
            Some(_) => DataSource::Input,
            None => DataSource::Api,
        }
    }

    /// The proxy from the `env` table of the host program's settings, given
    /// its `HTTPS_PROXY` and `HTTP_PROXY` entries: `HTTPS_PROXY` when
    /// present, else `HTTP_PROXY`; an entry that is not a text gives none.
    pub fn pick_proxy(https: Option<&OptionValue>, http: Option<&OptionValue>) -> (r: Option<
        String,
    >)
        ensures
            opt_view(r) == chosen_proxy(
                match https {
                    Some(v) => Some(v@),
                    None => None,
                },
                match http {
                    Some(v) => Some(v@),
                    None => None,
                },
            ),
    {
        let entry = match https {
            Some(v) => Some(v),
            None => http,
        };
        match entry {
            Some(OptionValue::Text(s)) => Some(s.clone()),
            _ => None,
        }
    }

    /// The user agent for the API request, from the product name and what
    /// `npm view <package> version` printed (`npm_succeeded` when it ran and
    /// succeeded): `product/version`, or the product alone when there is
    /// no version.
    pub fn user_agent(product: &str, npm_succeeded: bool, npm_stdout: &[u8]) -> (r: String)
        ensures
            r@ == user_agent_text(product@, npm_succeeded, utf8_lossy(npm_stdout@)),
    {
        let mut r = string_from(product);
        if npm_succeeded {
            let out = decode_lossy(npm_stdout);
            let cs = to_chars(out.as_str());
            let (lo, hi) = trim_bounds(&cs);
            if lo < hi {
                push_char(&mut r, '/');
                push_chars(&mut r, &cs, lo, hi);
            }
        }
        r
    }
}

// ---------------------------------------------------------------------------
// Laws
// ---------------------------------------------------------------------------

/// What is cached is what is served next time: reading back the record
/// written for two windows gives the same windows (a window the source
/// omitted stays absent instead of resurfacing as a fake 0%), without the
/// Fable window.
pub proof fn lemma_cache_round_trip<U>(
    five_hour: Option<WindowModel<U>>,
    seven_day: Option<WindowModel<U>>,
    now_rfc: Seq<char>,
)
    ensures
        data_of_cache(cache_of_windows(five_hour, seven_day, now_rfc)) == (
            five_hour,
            seven_day,
            None::<WindowModel<U>>,
        ),
{
}

/// Refreshing `cached_at` (after a failed request) leaves what the cache
/// serves unchanged.
pub proof fn lemma_refresh_keeps_data<U>(c: CacheModel<U>, now_rfc: Seq<char>)
    ensures
        data_of_cache(CacheModel { cached_at: now_rfc, ..c }) == data_of_cache(c),
{
}

/// A record written with the current time (a text that reads back as
/// `now`) is fresh at `now` for any positive duration: after a failed
/// request the next renders within the cache duration serve the cache.
pub proof fn lemma_written_now_is_fresh(now_rfc: Seq<char>, now: Timestamp, duration: u64)
    requires
        rfc3339_instant(now_rfc) == Some((now.secs, now.nanos)),
        1 <= duration <= i64::MAX,
    ensures
        cache_fresh(now_rfc, duration, now),
{
}

/// A cache fresh for some duration is fresh for any longer one; one whose
/// time does not parse is never fresh.
pub proof fn lemma_freshness_monotone(cached_at: Seq<char>, d1: u64, d2: u64, now: Timestamp)
    requires
        d1 <= d2 <= i64::MAX,
    ensures
        cache_fresh(cached_at, d1, now) ==> cache_fresh(cached_at, d2, now),
        rfc3339_instant(cached_at) is None ==> !cache_fresh(cached_at, d2, now),
{
}

/// The countdown depends on the reset instant alone, not on the machine's
/// time zone: whatever local fields `format_reset` picked, a reset text
/// that names instant (`secs`, `nanos`) counts down the whole minutes from
/// `now` to it.
pub proof fn lemma_countdown_from_instant(
    text: Seq<char>,
    secs: i64,
    nanos: u32,
    with_day_word: bool,
    now: LocalTime,
    r: Option<(Seq<char>, Seq<char>)>,
)
    requires
        rfc3339_instant(text) == Some((secs, nanos)),
        reset_outcome(Some(text), with_day_word, now, r),
    ensures
        r matches Some(p) && p.0 == countdown(minutes_left(Timestamp { secs, nanos }, now.at)),
{
}

/// The countdown's three scales: from a day up, whole days (`mins / 1440`)
/// and the hours past them; under a day but from an hour up, whole hours
/// and the minutes past them with two digits; under an hour, the minutes.
pub proof fn lemma_countdown_scales(mins: nat)
    ensures
        mins >= 1440 ==> countdown(mins) == decimal(mins / 1440) + seq!['d'] + decimal(
            (mins % 1440) / 60,
        ) + seq!['h'],
        60 <= mins < 1440 ==> countdown(mins) == decimal(mins / 60) + seq!['h'] + pad2(mins % 60)
            + seq!['m'],
        mins < 60 ==> countdown(mins) == decimal(mins) + seq!['m'],
{
}

/// The gauge icon follows the highest watermark: its level is at least the
/// gauge level of every window present (5-hour, 7-day and Fable) and is the
/// level of one of them, or 0 when none is present.
pub proof fn lemma_max_level_is_highest(
    d: (
        Option<WindowModel<Utilization>>,
        Option<WindowModel<Utilization>>,
        Option<WindowModel<Utilization>>,
    ),
)
    ensures
        d.0 matches Some(w) ==> w.util.gauge_level <= max_level(d),
        d.1 matches Some(w) ==> w.util.gauge_level <= max_level(d),
        d.2 matches Some(w) ==> w.util.gauge_level <= max_level(d),
        (d.0 is None && d.1 is None && d.2 is None) ==> max_level(d) == 0,
        max_level(d) == 0 || (d.0 matches Some(w) && w.util.gauge_level == max_level(d)) || (
        d.1 matches Some(w) && w.util.gauge_level == max_level(d)) || (d.2 matches Some(w)
            && w.util.gauge_level == max_level(d)),
{
}

/// A window the data source omitted never renders like one it reported,
/// not even one at 0%: the text after the label is ` -`.
pub proof fn lemma_absent_window_is_distinct(
    label: Seq<char>,
    w: WindowModel<Utilization>,
    l1: Option<(Seq<char>, Seq<char>)>,
    l2: Option<(Seq<char>, Seq<char>)>,
)
    ensures
        window_text(label, None, l1) != window_text(label, Some(w), l2),
{
    reveal_strlit("\x1b[38;5;245m");
    reveal_strlit(" -");
    reveal_strlit(" \x1b[38;5;");
    let k: int = (dim().len() + label.len() + 1) as int;
    let absent = window_text(label, None, l1);
    let present = window_text(label, Some(w), l2);
    assert(absent[k] == '-');
    assert(present[k] == '\x1b');
}

impl Default for UsageSegment {
    fn default() -> (r: Self) {
        Self::new()
    }
}

impl Segment for UsageSegment {
    fn id(&self) -> (r: SegmentId)
        ensures
            r == SegmentId::Usage,
    {
        SegmentId::Usage
    }
}

} // verus!
