//! The notifier: which events go out, how they are rendered, and the
//! cooldown that keeps one key from alerting again too soon.
//!
//! The notifier decides and renders; it does not deliver. [`NotificationManager::send`]
//! hands back what is to be delivered, the caller hands it to the transport,
//! and [`NotificationManager::confirm`] records the outcome. The cache is
//! touched only after a confirmed delivery.

use crate::config::types::{NotificationConfig, NotificationConfigView, NotifyEvent};
use crate::name_map::{
    lemma_position_from, lemma_position_is, lemma_with_entry_lookup, lookup, position_of,
    with_entry, NameMap,
};
use crate::text::{concat2, concat3, decimal, decimal_text};
use crate::utils::host::cache_dir;
use vstd::prelude::*;

verus! {

/// Entries older than this many seconds leave the cache on every write.
pub const CACHE_RETENTION_SECS: u64 = 86400;

/// The longest error text that is rendered in full, in characters.
pub const ERROR_LIMIT: usize = 500;

/// The colour of a rendered event.
#[derive(Debug, Clone, Copy, PartialEq, Eq, Structural)]
pub enum NotificationColor {
    /// Red.
    Failure,
    /// Orange.
    Warning,
    /// Yellow.
    LongRunning,
    /// Green.
    Success,
    /// Blue.
    Info,
}

/// The colour as the decimal form of its RGB value.
pub open spec fn color_code(c: NotificationColor) -> u32 {
    match c {
        NotificationColor::Failure => 15158332,
        NotificationColor::Warning => 15105570,
        NotificationColor::LongRunning => 16776960,
        NotificationColor::Success => 3066993,
        NotificationColor::Info => 3447003,
    }
}

impl NotificationColor {
    /// The colour as the decimal form of its RGB value.
    pub fn as_decimal(&self) -> (r: u32)
        ensures
            r == color_code(*self),
    {
        match self {
            NotificationColor::Failure => 15158332,
            NotificationColor::Warning => 15105570,
            NotificationColor::LongRunning => 16776960,
            NotificationColor::Success => 3066993,
            NotificationColor::Info => 3447003,
        }
    }
}

/// An event to report.
#[derive(Debug)]
pub struct Notification {
    pub event_type: NotifyEvent,
    pub service_name: String,
    pub destination: Option<String>,
    pub message: String,
    pub error: Option<String>,
    pub duration_secs: Option<u64>,
}

/// What a [`Notification`] holds, as a value of specifications.
pub struct NotificationView {
    pub event_type: NotifyEvent,
    pub service_name: Seq<char>,
    pub destination: Option<Seq<char>>,
    pub message: Seq<char>,
    pub error: Option<Seq<char>>,
    pub duration_secs: Option<u64>,
}

impl View for Notification {
    type V = NotificationView;

    open spec fn view(&self) -> NotificationView {
        NotificationView {
            event_type: self.event_type,
            service_name: self.service_name@,
            destination: self.destination.deep_view(),
            message: self.message@,
            error: self.error.deep_view(),
            duration_secs: self.duration_secs,
        }
    }
}

impl DeepView for Notification {
    type V = NotificationView;

    open spec fn deep_view(&self) -> NotificationView {
        self@
    }
}

/// One labelled value of a rendered event.
#[derive(Debug)]
pub struct DiscordField {
    pub name: String,
    pub value: String,
    pub inline: bool,
}

/// What a [`DiscordField`] holds, as a value of specifications.
pub struct DiscordFieldView {
    pub name: Seq<char>,
    pub value: Seq<char>,
    pub inline: bool,
}

impl View for DiscordField {
    type V = DiscordFieldView;

    open spec fn view(&self) -> DiscordFieldView {
        DiscordFieldView { name: self.name@, value: self.value@, inline: self.inline }
    }
}

impl DeepView for DiscordField {
    type V = DiscordFieldView;

    open spec fn deep_view(&self) -> DiscordFieldView {
        self@
    }
}

/// A rendered event.
#[derive(Debug)]
pub struct DiscordEmbed {
    pub title: String,
    pub description: Option<String>,
    pub color: u32,
    pub fields: Vec<DiscordField>,
    pub footer: Option<String>,
    pub timestamp: Option<String>,
}

/// What a [`DiscordEmbed`] holds, as a value of specifications.
pub struct DiscordEmbedView {
    pub title: Seq<char>,
    pub description: Option<Seq<char>>,
    pub color: u32,
    pub fields: Seq<DiscordFieldView>,
    pub footer: Option<Seq<char>>,
    pub timestamp: Option<Seq<char>>,
}

impl View for DiscordEmbed {
    type V = DiscordEmbedView;

    open spec fn view(&self) -> DiscordEmbedView {
        DiscordEmbedView {
            title: self.title@,
            description: self.description.deep_view(),
            color: self.color,
            fields: self.fields.deep_view(),
            footer: self.footer.deep_view(),
            timestamp: self.timestamp.deep_view(),
        }
    }
}

impl DeepView for DiscordEmbed {
    type V = DiscordEmbedView;

    open spec fn deep_view(&self) -> DiscordEmbedView {
        self@
    }
}

/// What is handed to the transport.
#[derive(Debug)]
pub struct DiscordPayload {
    pub username: Option<String>,
    pub avatar_url: Option<String>,
    pub content: Option<String>,
    pub embeds: Vec<DiscordEmbed>,
}

/// What a [`DiscordPayload`] holds, as a value of specifications.
pub struct DiscordPayloadView {
    pub username: Option<Seq<char>>,
    pub avatar_url: Option<Seq<char>>,
    pub content: Option<Seq<char>>,
    pub embeds: Seq<DiscordEmbedView>,
}

impl View for DiscordPayload {
    type V = DiscordPayloadView;

    open spec fn view(&self) -> DiscordPayloadView {
        DiscordPayloadView {
            username: self.username.deep_view(),
            avatar_url: self.avatar_url.deep_view(),
            content: self.content.deep_view(),
            embeds: self.embeds.deep_view(),
        }
    }
}

impl DeepView for DiscordPayload {
    type V = DiscordPayloadView;

    open spec fn deep_view(&self) -> DiscordPayloadView {
        self@
    }
}

/// When a key last alerted, and how often.
#[derive(Debug, Clone, Copy, PartialEq, Eq, Structural)]
pub struct CacheEntry {
    /// Seconds since the epoch of the last confirmed delivery.
    pub last_sent: u64,
    /// The number of confirmed deliveries.
    pub count: u32,
}

/// The cooldown cache: one entry for each key that alerted of late.
pub struct NotificationCache {
    pub entries: NameMap<CacheEntry>,
}

impl View for NotificationCache {
    type V = Seq<(Seq<char>, CacheEntry)>;

    open spec fn view(&self) -> Seq<(Seq<char>, CacheEntry)> {
        self.entries@
    }
}

/// Why an event did not go out.
#[derive(Debug)]
pub enum NotificationError {
    /// The transport refused or could not be reached.
    DeliveryFailed(String),
}

/// What the notifier decided about an event.
#[derive(Debug)]
pub enum Delivery {
    /// No endpoint is configured, or this kind of event is not reported.
    Disabled,
    /// The key alerted less than a cooldown ago.
    Suppressed,
    /// The payload is to be delivered; `key` is to be confirmed afterwards.
    Deliver { key: String, payload: DiscordPayload },
}

/// What a [`Delivery`] holds, as a value of specifications.
pub enum DeliveryView {
    Disabled,
    Suppressed,
    Deliver { key: Seq<char>, payload: DiscordPayloadView },
}

impl View for Delivery {
    type V = DeliveryView;

    open spec fn view(&self) -> DeliveryView {
        match self {
            Delivery::Disabled => DeliveryView::Disabled,
            Delivery::Suppressed => DeliveryView::Suppressed,
            Delivery::Deliver { key, payload } => DeliveryView::Deliver {
                key: key@,
                payload: payload@,
            },
        }
    }
}

/// The name of a kind of event.
pub open spec fn event_name(e: NotifyEvent) -> Seq<char> {
    match e {
        NotifyEvent::Failure => "Failure"@,
        NotifyEvent::Warning => "Warning"@,
        NotifyEvent::LongRunning => "LongRunning"@,
        NotifyEvent::Success => "Success"@,
    }
}

/// The sign that opens the title of a kind of event.
pub open spec fn event_sign(e: NotifyEvent) -> Seq<char> {
    match e {
        NotifyEvent::Failure => "\u{274C}"@,
        NotifyEvent::Warning => "\u{26A0}\u{FE0F}"@,
        NotifyEvent::LongRunning => "\u{23F0}"@,
        NotifyEvent::Success => "\u{2705}"@,
    }
}

/// The colour of a kind of event.
pub open spec fn event_color(e: NotifyEvent) -> NotificationColor {
    match e {
        NotifyEvent::Failure => NotificationColor::Failure,
        NotifyEvent::Warning => NotificationColor::Warning,
        NotifyEvent::LongRunning => NotificationColor::LongRunning,
        NotifyEvent::Success => NotificationColor::Success,
    }
}

/// The key under which an event is rate-limited: service, destination (or
/// `all`) and kind, with colons between.
pub open spec fn cache_key_spec(n: NotificationView) -> Seq<char> {
    n.service_name + ":"@ + (match n.destination {
        Some(d) => d,
        None => "all"@,
    }) + ":"@ + event_name(n.event_type)
}

/// A duration for the reader: seconds under a minute, minutes and seconds
/// under an hour, hours and minutes from there; a part that is zero is left
/// out.
pub open spec fn duration_text(seconds: nat) -> Seq<char> {
    if seconds < 60 {
        decimal(seconds) + "s"@
    } else if seconds < 3600 {
        if seconds % 60 == 0 {
            decimal(seconds / 60) + "m"@
        } else {
            decimal(seconds / 60) + "m "@ + decimal(seconds % 60) + "s"@
        }
    } else {
        if (seconds % 3600) / 60 == 0 {
            decimal(seconds / 3600) + "h"@
        } else {
            decimal(seconds / 3600) + "h "@ + decimal((seconds % 3600) / 60) + "m"@
        }
    }
}

/// An error text cut to [`ERROR_LIMIT`] characters: a longer one keeps its
/// first 497 characters, followed by three dots.
pub open spec fn truncated(error: Seq<char>) -> Seq<char> {
    if error.len() > ERROR_LIMIT {
        error.subrange(0, ERROR_LIMIT - 3) + "..."@
    } else {
        error
    }
}

/// The fields of a rendered event: the service; then the destination, the
/// duration and the error, each where the event has one.
pub open spec fn fields_spec(n: NotificationView) -> Seq<DiscordFieldView> {
    let service = seq![DiscordFieldView { name: "Service"@, value: n.service_name, inline: true }];
    let destination = match n.destination {
        Some(d) => seq![DiscordFieldView { name: "Destination"@, value: d, inline: true }],
        None => Seq::empty(),
    };
    let duration = match n.duration_secs {
        Some(d) => seq![
            DiscordFieldView { name: "Duration"@, value: duration_text(d as nat), inline: true },
        ],
        None => Seq::empty(),
    };
    let error = match n.error {
        Some(e) => seq![
            DiscordFieldView {
                name: "Error"@,
                value: "```\n"@ + truncated(e) + "\n```"@,
                inline: false,
            },
        ],
        None => Seq::empty(),
    };
    service + destination + duration + error
}

/// The rendered form of an event, stamped with `timestamp`.
pub open spec fn payload_spec(n: NotificationView, timestamp: Option<Seq<char>>) -> DiscordPayloadView {
    DiscordPayloadView {
        username: Some("Restic Manager"@),
        avatar_url: None,
        content: None,
        embeds: seq![
            DiscordEmbedView {
                title: event_sign(n.event_type) + " Restic Manager: "@ + event_name(n.event_type),
                description: Some(n.message),
                color: color_code(event_color(n.event_type)),
                fields: fields_spec(n),
                footer: Some("restic-manager"@),
                timestamp: timestamp,
            },
        ],
    }
}

/// Whether events of kind `event` go out at all: an endpoint is configured
/// and the kind is among those reported.
pub open spec fn enabled_spec(config: NotificationConfigView, event: NotifyEvent) -> bool {
    config.discord_webhook_url.len() > 0 && config.notify_on.contains(event)
}

/// The age of an entry at time `now`; zero where the clock went backwards.
pub open spec fn age(now: u64, last_sent: u64) -> nat {
    if now >= last_sent {
        (now - last_sent) as nat
    } else {
        0
    }
}

/// Whether `key` alerted less than `minutes` minutes before `now`.
pub open spec fn rate_limited_spec(
    cache: Seq<(Seq<char>, CacheEntry)>,
    key: Seq<char>,
    now: u64,
    minutes: u64,
) -> bool {
    match lookup(cache, key) {
        Some(e) => age(now, e.last_sent) < minutes * 60,
        None => false,
    }
}

/// The entry of `key` after a delivery at `now`: the count goes up by one,
/// and stays at the largest value once it is there.
pub open spec fn next_entry(cache: Seq<(Seq<char>, CacheEntry)>, key: Seq<char>, now: u64) -> CacheEntry {
    CacheEntry {
        last_sent: now,
        count: match lookup(cache, key) {
            Some(e) => if e.count < u32::MAX {
                (e.count + 1) as u32
            } else {
                u32::MAX
            },
            None => 1,
        },
    }
}

/// The time before which entries are dropped at `now`.
pub open spec fn cutoff(now: u64) -> u64 {
    if now >= CACHE_RETENTION_SECS {
        (now - CACHE_RETENTION_SECS) as u64
    } else {
        0
    }
}

/// The first `n` entries of `cache` without those last sent at or before
/// `limit`.
pub open spec fn kept_before(cache: Seq<(Seq<char>, CacheEntry)>, limit: u64, n: int) -> Seq<
    (Seq<char>, CacheEntry),
>
    decreases n,
{
    if n <= 0 || n > cache.len() {
        Seq::empty()
    } else if cache[n - 1].1.last_sent > limit {
        kept_before(cache, limit, n - 1).push(cache[n - 1])
    } else {
        kept_before(cache, limit, n - 1)
    }
}

/// The cache after a confirmed delivery under `key` at `now`: the key's
/// entry is renewed, and every entry older than the retention window is
/// dropped.
pub open spec fn recorded_spec(cache: Seq<(Seq<char>, CacheEntry)>, key: Seq<char>, now: u64) -> Seq<
    (Seq<char>, CacheEntry),
> {
    let renewed = with_entry(cache, key, next_entry(cache, key, now));
    kept_before(renewed, cutoff(now), renewed.len() as int)
}

/// What the notifier decides about an event at `now`, given the cache and the
/// time stamp to render.
pub open spec fn send_spec(
    config: NotificationConfigView,
    n: NotificationView,
    cache: Seq<(Seq<char>, CacheEntry)>,
    now: u64,
    timestamp: Option<Seq<char>>,
) -> DeliveryView {
    if !enabled_spec(config, n.event_type) {
        DeliveryView::Disabled
    } else if rate_limited_spec(cache, cache_key_spec(n), now, config.rate_limit_minutes) {
        DeliveryView::Suppressed
    } else {
        DeliveryView::Deliver { key: cache_key_spec(n), payload: payload_spec(n, timestamp) }
    }
}

/// The text that `chrono` gives for the moment `secs` seconds after the
/// epoch, in UTC, under the format `%Y-%m-%dT%H:%M:%SZ`; `None` where
/// `chrono` cannot represent the moment.
pub uninterp spec fn utc_timestamp_text(secs: i64) -> Option<Seq<char>>;

/// Renders a moment with `chrono::DateTime::from_timestamp` and
/// `DateTime::format`. The result is a function of `secs` alone, and is
/// known to the library only by the name [`utc_timestamp_text`].
#[verifier::external_body]
fn format_timestamp(secs: i64) -> (r: Option<String>)
    ensures
        r.deep_view() == utc_timestamp_text(secs),
{
    match chrono::DateTime::from_timestamp(secs, 0) {
        Some(moment) => Some(moment.format("%Y-%m-%dT%H:%M:%SZ").to_string()),
        None => None,
    }
}

/// The time stamp of an event raised at `now`.
pub open spec fn stamp_spec(now: u64) -> Option<Seq<char>> {
    if now <= i64::MAX {
        utc_timestamp_text(now as i64)
    } else {
        None
    }
}

/// The time stamp of an event raised at `now`.
pub fn stamp(now: u64) -> (r: Option<String>)
    ensures
        r.deep_view() == stamp_spec(now),
{
    if now <= 9223372036854775807 {
        format_timestamp(now as i64)
    } else {
        None
    }
}

/// A duration for the reader.
pub fn format_duration(seconds: u64) -> (r: String)
    ensures
        r@ == duration_text(seconds as nat),
{
    if seconds < 60 {
        let mut r = decimal_text(seconds);
        r.append("s");
        r
    } else if seconds < 3600 {
        let minutes: u64 = seconds / 60;
        let secs: u64 = seconds % 60;
        let mut r = decimal_text(minutes);
        if secs == 0 {
            r.append("m");
        } else {
            r.append("m ");
            r.append(decimal_text(secs).as_str());
            r.append("s");
        }
        r
    } else {
        let hours: u64 = seconds / 3600;
        let minutes: u64 = (seconds % 3600) / 60;
        let mut r = decimal_text(hours);
        if minutes == 0 {
            r.append("h");
        } else {
            r.append("h ");
            r.append(decimal_text(minutes).as_str());
            r.append("m");
        }
        r
    }
}

/// The name of a kind of event.
pub fn event_label(e: NotifyEvent) -> (r: &'static str)
    ensures
        r@ == event_name(e),
{
    match e {
        NotifyEvent::Failure => "Failure",
        NotifyEvent::Warning => "Warning",
        NotifyEvent::LongRunning => "LongRunning",
        NotifyEvent::Success => "Success",
    }
}

/// The key under which an event is rate-limited.
pub fn cache_key(n: &Notification) -> (r: String)
    ensures
        r@ == cache_key_spec(n@),
{
    let mut r = concat2(n.service_name.as_str(), ":");
    match &n.destination {
        Some(d) => r.append(d.as_str()),
        None => r.append("all"),
    }
    r.append(":");
    r.append(event_label(n.event_type));
    r
}

/// An error text cut to [`ERROR_LIMIT`] characters.
pub fn truncate_error(error: &str) -> (r: String)
    ensures
        r@ == truncated(error@),
{
    if error.unicode_len() > ERROR_LIMIT {
        concat2(error.substring_char(0, ERROR_LIMIT - 3), "...")
    } else {
        error.to_owned()
    }
}

/// Renders an event, stamped with `timestamp`.
pub fn render(n: &Notification, timestamp: Option<String>) -> (r: DiscordPayload)
    ensures
        r@ == payload_spec(n@, timestamp.deep_view()),
{
    let (color, sign) = match n.event_type {
        NotifyEvent::Failure => (NotificationColor::Failure, "\u{274C}"),
        NotifyEvent::Warning => (NotificationColor::Warning, "\u{26A0}\u{FE0F}"),
        NotifyEvent::LongRunning => (NotificationColor::LongRunning, "\u{23F0}"),
        NotifyEvent::Success => (NotificationColor::Success, "\u{2705}"),
    };
    let title = concat3(sign, " Restic Manager: ", event_label(n.event_type));
    let mut fields: Vec<DiscordField> = Vec::new();
    fields.push(
        DiscordField {
            name: "Service".to_owned(),
            value: n.service_name.clone(),
            inline: true,
        },
    );
    if let Some(d) = &n.destination {
        fields.push(DiscordField { name: "Destination".to_owned(), value: d.clone(), inline: true });
    }
    if let Some(d) = n.duration_secs {
        fields.push(
            DiscordField { name: "Duration".to_owned(), value: format_duration(d), inline: true },
        );
    }
    if let Some(e) = &n.error {
        let shown = truncate_error(e.as_str());
        fields.push(
            DiscordField {
                name: "Error".to_owned(),
                value: concat3("```\n", shown.as_str(), "\n```"),
                inline: false,
            },
        );
    }
    assert(fields.deep_view() =~= fields_spec(n@));
    let embed = DiscordEmbed {
        title,
        description: Some(n.message.clone()),
        color: color.as_decimal(),
        fields,
        footer: Some("restic-manager".to_owned()),
        timestamp,
    };
    let mut embeds: Vec<DiscordEmbed> = Vec::new();
    embeds.push(embed);
    let r = DiscordPayload {
        username: Some("Restic Manager".to_owned()),
        avatar_url: None,
        content: None,
        embeds,
    };
    assert(r@.embeds =~= payload_spec(n@, timestamp.deep_view()).embeds);
    r
}

/// A copy of `v`.
pub fn copy_text(v: Option<&str>) -> (r: Option<String>)
    ensures
        r.deep_view() == v.deep_view(),
{
    match v {
        Some(s) => Some(s.to_owned()),
        None => None,
    }
}

/// The event that reports a failed backup.
pub open spec fn failure_event(
    service: Seq<char>,
    destination: Option<Seq<char>>,
    error: Seq<char>,
    duration_secs: Option<u64>,
) -> NotificationView {
    NotificationView {
        event_type: NotifyEvent::Failure,
        service_name: service,
        destination: destination,
        message: "Backup failed for service '"@ + service + "'"@,
        error: Some(error),
        duration_secs: duration_secs,
    }
}

/// The event that carries a warning.
pub open spec fn warning_event(
    service: Seq<char>,
    destination: Option<Seq<char>>,
    message: Seq<char>,
) -> NotificationView {
    NotificationView {
        event_type: NotifyEvent::Warning,
        service_name: service,
        destination: destination,
        message: message,
        error: None,
        duration_secs: None,
    }
}

/// The event that reports a backup running past the threshold.
pub open spec fn long_running_event(
    service: Seq<char>,
    destination: Option<Seq<char>>,
    duration_secs: u64,
    threshold_minutes: u64,
) -> NotificationView {
    NotificationView {
        event_type: NotifyEvent::LongRunning,
        service_name: service,
        destination: destination,
        message: "Backup is taking longer than expected (>"@ + decimal(threshold_minutes as nat)
            + " minutes)"@,
        error: None,
        duration_secs: Some(duration_secs),
    }
}

/// The event that reports a completed backup.
pub open spec fn success_event(
    service: Seq<char>,
    destination: Option<Seq<char>>,
    duration_secs: u64,
) -> NotificationView {
    NotificationView {
        event_type: NotifyEvent::Success,
        service_name: service,
        destination: destination,
        message: "Backup completed successfully for service '"@ + service + "'"@,
        error: None,
        duration_secs: Some(duration_secs),
    }
}

impl Notification {
    /// The event that reports a failed backup.
    pub fn failure(
        service_name: &str,
        destination: Option<&str>,
        error: &str,
        duration_secs: Option<u64>,
    ) -> (r: Self)
        ensures
            r@ == failure_event(service_name@, destination.deep_view(), error@, duration_secs),
    {
        Notification {
            event_type: NotifyEvent::Failure,
            service_name: service_name.to_owned(),
            destination: copy_text(destination),
            message: concat3("Backup failed for service '", service_name, "'"),
            error: Some(error.to_owned()),
            duration_secs,
        }
    }

    /// The event that carries a warning.
    pub fn warning(service_name: &str, destination: Option<&str>, message: &str) -> (r: Self)
        ensures
            r@ == warning_event(service_name@, destination.deep_view(), message@),
    {
        Notification {
            event_type: NotifyEvent::Warning,
            service_name: service_name.to_owned(),
            destination: copy_text(destination),
            message: message.to_owned(),
            error: None,
            duration_secs: None,
        }
    }

    /// The event that reports a backup running past the threshold.
    pub fn long_running(
        service_name: &str,
        destination: Option<&str>,
        duration_secs: u64,
        threshold_minutes: u64,
    ) -> (r: Self)
        ensures
            r@ == long_running_event(
                service_name@,
                destination.deep_view(),
                duration_secs,
                threshold_minutes,
            ),
    {
        Notification {
            event_type: NotifyEvent::LongRunning,
            service_name: service_name.to_owned(),
            destination: copy_text(destination),
            message: concat3(
                "Backup is taking longer than expected (>",
                decimal_text(threshold_minutes).as_str(),
                " minutes)",
            ),
            error: None,
            duration_secs: Some(duration_secs),
        }
    }

    /// The event that reports a completed backup.
    pub fn success(service_name: &str, destination: Option<&str>, duration_secs: u64) -> (r: Self)
        ensures
            r@ == success_event(service_name@, destination.deep_view(), duration_secs),
    {
        Notification {
            event_type: NotifyEvent::Success,
            service_name: service_name.to_owned(),
            destination: copy_text(destination),
            message: concat3("Backup completed successfully for service '", service_name, "'"),
            error: None,
            duration_secs: Some(duration_secs),
        }
    }
}

impl Clone for Notification {
    fn clone(&self) -> (r: Self)
        ensures
            r@ == self@,
    {
        Notification {
            event_type: self.event_type,
            service_name: self.service_name.clone(),
            destination: match &self.destination {
                Some(d) => Some(d.clone()),
                None => None,
            },
            message: self.message.clone(),
            error: match &self.error {
                Some(e) => Some(e.clone()),
                None => None,
            },
            duration_secs: self.duration_secs,
        }
    }
}

impl NotificationCache {
    /// A cache without entries.
    pub fn new() -> (r: Self)
        ensures
            r@ == Seq::<(Seq<char>, CacheEntry)>::empty(),
    {
        NotificationCache { entries: NameMap::new() }
    }

    /// Whether `key` alerted less than `minutes` minutes before `now`.
    pub fn is_rate_limited(&self, key: &str, now: u64, minutes: u64) -> (r: bool)
        ensures
            r == rate_limited_spec(self@, key@, now, minutes),
    {
        match self.entries.get(key) {
            Some(e) => {
                let age: u64 = if now >= e.last_sent {
                    now - e.last_sent
                } else {
                    0
                };
                (age as u128) < (minutes as u128) * 60
            },
            None => false,
        }
    }

    /// Records a confirmed delivery under `key` at `now`, and drops every
    /// entry older than the retention window.
    pub fn update(&mut self, key: &str, now: u64)
        ensures
            final(self)@ == recorded_spec(old(self)@, key@, now),
    {
        let count: u32 = match self.entries.get(key) {
            Some(e) => if e.count < u32::MAX {
                e.count + 1
            } else {
                u32::MAX
            },
            None => 1,
        };
        self.entries.insert(key.to_owned(), CacheEntry { last_sent: now, count });
        let limit: u64 = if now >= CACHE_RETENTION_SECS {
            now - CACHE_RETENTION_SECS
        } else {
            0
        };
        let mut kept: NameMap<CacheEntry> = NameMap::new();
        let mut i: usize = 0;
        while i < self.entries.len()
            invariant
                i <= self.entries@.len(),
                kept@ == kept_before(self.entries@, limit, i as int),
            decreases self.entries@.len() - i,
        {
            let entry = *self.entries.value_at(i);
            if entry.last_sent > limit {
                kept.push_entry(self.entries.name_at(i).clone(), entry);
            }
            i = i + 1;
        }
        self.entries = kept;
    }
}

/// The notifier: the settings, and where the cache is kept.
pub struct NotificationManager {
    pub config: NotificationConfig,
    pub cache_path: String,
}

/// The cache file under `dir`, or the fallback where there is no such
/// directory.
pub open spec fn cache_path_spec(dir: Option<Seq<char>>) -> Seq<char> {
    match dir {
        Some(d) => d + "/restic-manager-notifications.json"@,
        None => "/tmp/restic-manager-notifications.json"@,
    }
}

/// The cache file under `dir`, or the fallback where there is no such
/// directory.
pub fn cache_path_in(dir: Option<String>) -> (r: String)
    ensures
        r@ == cache_path_spec(dir.deep_view()),
{
    match dir {
        Some(d) => concat2(d.as_str(), "/restic-manager-notifications.json"),
        None => "/tmp/restic-manager-notifications.json".to_owned(),
    }
}

impl NotificationManager {
    /// A notifier with the given settings, its cache under the user's cache
    /// directory as the machine reports it.
    pub fn new(config: NotificationConfig) -> (r: Self)
        ensures
            r.config@ == config@,
            exists|dir: Option<Seq<char>>| r.cache_path@ == cache_path_spec(dir),
    {
        let dir = cache_dir();
        let ghost d = dir.deep_view();
        let cache_path = cache_path_in(dir);
        assert(cache_path@ == cache_path_spec(d));
        NotificationManager { config, cache_path }
    }

    /// A notifier with the given settings and cache file.
    pub fn with_cache_path(config: NotificationConfig, cache_path: String) -> (r: Self)
        ensures
            r.config@ == config@,
            r.cache_path@ == cache_path@,
    {
        NotificationManager { config, cache_path }
    }

    /// Whether events of kind `event` go out at all.
    pub fn is_enabled(&self, event: &NotifyEvent) -> (r: bool)
        ensures
            r == enabled_spec(self.config@, *event),
    {
        if self.config.discord_webhook_url.as_str().unicode_len() == 0 {
            return false;
        }
        let mut i: usize = 0;
        while i < self.config.notify_on.len()
            invariant
                i <= self.config.notify_on@.len(),
                self.config@.discord_webhook_url.len() > 0,
                forall|j: int| 0 <= j < i ==> self.config.notify_on@[j] != *event,
            decreases self.config.notify_on@.len() - i,
        {
            if self.config.notify_on[i] == *event {
                assert(self.config@.notify_on[i as int] == *event);
                return true;
            }
            i = i + 1;
        }
        false
    }

    /// Renders an event raised at `now`.
    pub fn build_payload(&self, notification: &Notification, now: u64) -> (r: DiscordPayload)
        ensures
            r@ == payload_spec(notification@, stamp_spec(now)),
    {
        render(notification, stamp(now))
    }

    /// Decides whether an event raised at `now` goes out: not where its kind
    /// is disabled, not where its key alerted within the cooldown; else it
    /// is rendered for delivery. The cache is only read.
    pub fn send(&self, notification: &Notification, cache: &NotificationCache, now: u64) -> (r:
        Delivery)
        ensures
            r@ == send_spec(self.config@, notification@, cache@, now, stamp_spec(now)),
    {
        if !self.is_enabled(&notification.event_type) {
            return Delivery::Disabled;
        }
        let key = cache_key(notification);
        if cache.is_rate_limited(key.as_str(), now, self.config.rate_limit_minutes) {
            return Delivery::Suppressed;
        }
        Delivery::Deliver { key, payload: self.build_payload(notification, now) }
    }

    /// Decides on the report of a failed backup, as [`NotificationManager::send`]
    /// does.
    pub fn send_failure(
        &self,
        service_name: &str,
        destination: Option<&str>,
        error: &str,
        duration_secs: Option<u64>,
        cache: &NotificationCache,
        now: u64,
    ) -> (r: Delivery)
        ensures
            r@ == send_spec(
                self.config@,
                failure_event(service_name@, destination.deep_view(), error@, duration_secs),
                cache@,
                now,
                stamp_spec(now),
            ),
    {
        let n = Notification::failure(service_name, destination, error, duration_secs);
        self.send(&n, cache, now)
    }

    /// Decides on a warning, as [`NotificationManager::send`] does.
    pub fn send_warning(
        &self,
        service_name: &str,
        destination: Option<&str>,
        message: &str,
        cache: &NotificationCache,
        now: u64,
    ) -> (r: Delivery)
        ensures
            r@ == send_spec(
                self.config@,
                warning_event(service_name@, destination.deep_view(), message@),
                cache@,
                now,
                stamp_spec(now),
            ),
    {
        let n = Notification::warning(service_name, destination, message);
        self.send(&n, cache, now)
    }

    /// Decides on the report of a backup running past the threshold, as
    /// [`NotificationManager::send`] does.
    pub fn send_long_running(
        &self,
        service_name: &str,
        destination: Option<&str>,
        duration_secs: u64,
        threshold_minutes: u64,
        cache: &NotificationCache,
        now: u64,
    ) -> (r: Delivery)
        ensures
            r@ == send_spec(
                self.config@,
                long_running_event(
                    service_name@,
                    destination.deep_view(),
                    duration_secs,
                    threshold_minutes,
                ),
                cache@,
                now,
                stamp_spec(now),
            ),
    {
        let n = Notification::long_running(
            service_name,
            destination,
            duration_secs,
            threshold_minutes,
        );
        self.send(&n, cache, now)
    }

    /// Decides on the report of a completed backup, as
    /// [`NotificationManager::send`] does.
    pub fn send_success(
        &self,
        service_name: &str,
        destination: Option<&str>,
        duration_secs: u64,
        cache: &NotificationCache,
        now: u64,
    ) -> (r: Delivery)
        ensures
            r@ == send_spec(
                self.config@,
                success_event(service_name@, destination.deep_view(), duration_secs),
                cache@,
                now,
                stamp_spec(now),
            ),
    {
        let n = Notification::success(service_name, destination, duration_secs);
        self.send(&n, cache, now)
    }

    /// Takes the transport's answer for the event that was handed out under
    /// `key`. A confirmed delivery is recorded in the cache; a failed one
    /// leaves the cache as it was and comes back as the error, so that the
    /// next event under the key is tried again.
    pub fn confirm(
        &self,
        cache: &mut NotificationCache,
        key: &str,
        now: u64,
        outcome: Result<(), String>,
    ) -> (r: Result<(), NotificationError>)
        ensures
            match outcome {
                Ok(_) => r is Ok && final(cache)@ == recorded_spec(old(cache)@, key@, now),
                Err(cause) => final(cache)@ == old(cache)@ && (r matches Err(
                    NotificationError::DeliveryFailed(m),
                ) && m@ == cause@),
            },
    {
        match outcome {
            Ok(_) => {
                cache.update(key, now);
                Ok(())
            },
            Err(cause) => Err(NotificationError::DeliveryFailed(cause)),
        }
    }
}

/// None of the first `n` entries that are kept is called `key`, where none
/// of the first `n` entries is.
pub proof fn lemma_kept_names(cache: Seq<(Seq<char>, CacheEntry)>, limit: u64, n: int, key: Seq<char>)
    requires
        0 <= n <= cache.len(),
        forall|j: int| 0 <= j < n ==> (#[trigger] cache[j]).0 != key,
    ensures
        forall|j: int|
            0 <= j < kept_before(cache, limit, n).len() ==> (#[trigger] kept_before(
                cache,
                limit,
                n,
            )[j]).0 != key,
    decreases n,
{
    if n > 0 {
        lemma_kept_names(cache, limit, n - 1, key);
        let before = kept_before(cache, limit, n - 1);
        let now = kept_before(cache, limit, n);
        assert forall|j: int| 0 <= j < now.len() implies (#[trigger] now[j]).0 != key by {
            if j < before.len() {
                assert(now[j] == before[j]);
            } else {
                assert(now[j] == cache[n - 1]);
            }
        }
    }
}

/// An entry that is young enough stays: the first entry called `key`, at
/// position `i`, is still the first entry called `key` after the old
/// entries have gone.
pub proof fn lemma_kept_entry(
    cache: Seq<(Seq<char>, CacheEntry)>,
    limit: u64,
    key: Seq<char>,
    i: int,
    n: int,
)
    requires
        0 <= i < n <= cache.len(),
        cache[i].0 == key,
        cache[i].1.last_sent > limit,
        forall|j: int| 0 <= j < i ==> (#[trigger] cache[j]).0 != key,
    ensures
        kept_before(cache, limit, i).len() < kept_before(cache, limit, n).len(),
        kept_before(cache, limit, n)[kept_before(cache, limit, i).len() as int] == cache[i],
        forall|j: int|
            0 <= j < kept_before(cache, limit, i).len() ==> (#[trigger] kept_before(
                cache,
                limit,
                n,
            )[j]).0 != key,
        lookup(kept_before(cache, limit, n), key) == Some(cache[i].1),
    decreases n - i,
{
    lemma_kept_names(cache, limit, i, key);
    if n > i + 1 {
        lemma_kept_entry(cache, limit, key, i, n - 1);
    }
    let at = kept_before(cache, limit, i).len() as int;
    lemma_position_is(kept_before(cache, limit, n), key, 0, at);
}

/// The cooldown. Once a delivery under `key` is confirmed at `sent`, the
/// key is rate-limited at any later time that is less than the cooldown
/// after `sent`, and at no time from the cooldown on.
pub proof fn lemma_cooldown(
    cache: Seq<(Seq<char>, CacheEntry)>,
    key: Seq<char>,
    sent: u64,
    later: u64,
    minutes: u64,
)
    requires
        sent > 0,
    ensures
        lookup(recorded_spec(cache, key, sent), key) == Some(next_entry(cache, key, sent)),
        rate_limited_spec(recorded_spec(cache, key, sent), key, later, minutes) <==> age(
            later,
            sent,
        ) < minutes * 60,
{
    let entry = next_entry(cache, key, sent);
    let renewed = with_entry(cache, key, entry);
    lemma_with_entry_lookup(cache, key, entry);
    lemma_position_from(renewed, key, 0);
    let i = position_of(renewed, key)->0;
    lemma_kept_entry(renewed, cutoff(sent), key, i, renewed.len() as int);
}

/// A second event within the cooldown is suppressed, and one after it goes
/// out: once the delivery of `n` is confirmed at `sent`, the notifier
/// suppresses the same event at `later` exactly when `later` is less than
/// the cooldown after `sent`.
pub proof fn lemma_second_event_is_suppressed(
    config: NotificationConfigView,
    n: NotificationView,
    cache: Seq<(Seq<char>, CacheEntry)>,
    sent: u64,
    later: u64,
    timestamp: Option<Seq<char>>,
)
    requires
        sent > 0,
        enabled_spec(config, n.event_type),
    ensures
        send_spec(config, n, recorded_spec(cache, cache_key_spec(n), sent), later, timestamp)
            is Suppressed <==> age(later, sent) < config.rate_limit_minutes * 60,
        !(send_spec(config, n, recorded_spec(cache, cache_key_spec(n), sent), later, timestamp)
            is Disabled),
{
    lemma_cooldown(cache, cache_key_spec(n), sent, later, config.rate_limit_minutes);
}

} // verus!
