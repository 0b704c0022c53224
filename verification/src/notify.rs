//! The incident notifier's payloads: the structured Slack-style attachment
//! and Discord-style embed built from an incident report. Delivery is the
//! transport's business; a notification failure never alters health state.

use vstd::prelude::*;
use vstd::string::StringSliceAdditionalSpecFns;
use crate::health::{IncidentKind, IncidentReport};
use crate::text::bytes_eq;

verus! {

/// Which webhook payload shape to produce.
#[derive(Clone, Copy, Debug, PartialEq, Eq)]
pub enum WebhookFormat {
    Slack,
    Discord,
}

impl WebhookFormat {
    /// The format named by the configuration: `discord` selects the Discord
    /// shape, anything else falls back to the Slack default.
    pub fn from_config(name: &str) -> (r: WebhookFormat)
        ensures
            r is Discord <==> name.spec_bytes() == "discord".spec_bytes(),
    {
        if bytes_eq(name.as_bytes(), "discord".as_bytes()) {
            WebhookFormat::Discord
        } else {
            WebhookFormat::Slack
        }
    }
}

/// One titled field of a webhook payload; `prominent` maps to Slack's
/// `short` and Discord's `inline` flag.
#[derive(Clone, Debug)]
pub struct PayloadField {
    pub title: String,
    pub value: String,
    pub prominent: bool,
}

/// A Slack-style attachment.
#[derive(Clone, Debug)]
pub struct SlackMessage {
    pub color: String,
    pub title: String,
    pub fields: Vec<PayloadField>,
    pub footer: String,
    pub ts: u64,
}

/// A Discord-style embed.
#[derive(Clone, Debug)]
pub struct DiscordMessage {
    pub color: u32,
    pub title: String,
    pub fields: Vec<PayloadField>,
    pub footer_text: String,
}

/// The payload posted to the webhook, in the configured shape.
#[derive(Clone, Debug)]
pub enum WebhookPayload {
    Slack(SlackMessage),
    Discord(DiscordMessage),
}

/// The event name carried in the payload, upper-cased.
pub open spec fn event_name(kind: IncidentKind) -> Seq<char> {
    if kind is Failover {
        "FAILOVER"@
    } else {
        "RECOVERY"@
    }
}

/// The title of either payload: a red-alert or all-clear emoji before the
/// fixed report name.
pub open spec fn payload_title(kind: IncidentKind) -> Seq<char> {
    (if kind is Failover {
        "🚨"@
    } else {
        "✅"@
    }) + " Failover Incident Report"@
}

/// What the five fields of either payload must hold: the event, the
/// timestamp, both upstream URLs, and the human message; the first two are
/// prominent, the details never are.
pub open spec fn fields_describe(
    fields: Seq<PayloadField>,
    report: IncidentReport,
    ts: Seq<char>,
    urls_prominent: bool,
) -> bool {
    &&& fields.len() == 5
    &&& fields[0].title@ == "Event"@ && fields[0].value@ == event_name(report.kind)
        && fields[0].prominent
    &&& fields[1].title@ == "Timestamp"@ && fields[1].value@ == ts && fields[1].prominent
    &&& fields[2].title@ == "Primary"@ && fields[2].value@ == report.primary_url@
        && fields[2].prominent == urls_prominent
    &&& fields[3].title@ == "Backup"@ && fields[3].value@ == report.backup_url@
        && fields[3].prominent == urls_prominent
    &&& fields[4].title@ == "Details"@ && fields[4].value@ == report.message@
        && !fields[4].prominent
}

/// What the Slack attachment for a report must hold: red for a failover,
/// green for a recovery, and the five fields with the URLs shown short.
pub open spec fn is_slack_message_for(
    m: SlackMessage,
    report: IncidentReport,
    ts: Seq<char>,
    now: u64,
) -> bool {
    &&& m.color@ == (if report.kind is Failover {
        "#ff0000"@
    } else {
        "#00ff00"@
    })
    &&& m.title@ == payload_title(report.kind)
    &&& fields_describe(m.fields@, report, ts, true)
    &&& m.footer@ == "Failover Proxy"@
    &&& m.ts == now
}

/// What the Discord embed for a report must hold: red for a failover, green
/// for a recovery, and the five fields with the URLs on lines of their own.
pub open spec fn is_discord_message_for(
    m: DiscordMessage,
    report: IncidentReport,
    ts: Seq<char>,
) -> bool {
    &&& m.color == (if report.kind is Failover {
        16711680u32
    } else {
        65280u32
    })
    &&& m.title@ == payload_title(report.kind)
    &&& fields_describe(m.fields@, report, ts, false)
    &&& m.footer_text@ == "Failover Proxy"@
}

fn render_title(kind: &IncidentKind) -> (r: String)
    ensures
        r@ == payload_title(*kind),
{
    let emoji = match kind {
        IncidentKind::Failover => "🚨",
        IncidentKind::Recovery => "✅",
    };
    let r = String::from_str(emoji).concat(" Failover Incident Report");
    r
}

fn render_fields(report: &IncidentReport, timestamp_rfc3339: &str, urls_prominent: bool) -> (r:
    Vec<PayloadField>)
    ensures
        fields_describe(r@, *report, timestamp_rfc3339@, urls_prominent),
{
    let event_value = match &report.kind {
        IncidentKind::Failover => "FAILOVER",
        IncidentKind::Recovery => "RECOVERY",
    };
    let mut fields: Vec<PayloadField> = Vec::new();
    fields.push(
        PayloadField {
            title: String::from_str("Event"),
            value: String::from_str(event_value),
            prominent: true,
        },
    );
    fields.push(
        PayloadField {
            title: String::from_str("Timestamp"),
            value: String::from_str(timestamp_rfc3339),
            prominent: true,
        },
    );
    fields.push(
        PayloadField {
            title: String::from_str("Primary"),
            value: report.primary_url.clone(),
            prominent: urls_prominent,
        },
    );
    fields.push(
        PayloadField {
            title: String::from_str("Backup"),
            value: report.backup_url.clone(),
            prominent: urls_prominent,
        },
    );
    fields.push(
        PayloadField {
            title: String::from_str("Details"),
            value: report.message.clone(),
            prominent: false,
        },
    );
    fields
}

/// Builds the Slack-style attachment for a report; `now_unix` becomes the
/// attachment's own timestamp.
pub fn format_slack_message(report: &IncidentReport, timestamp_rfc3339: &str, now_unix: u64) -> (r:
    SlackMessage)
    ensures
        is_slack_message_for(r, *report, timestamp_rfc3339@, now_unix),
{
    let color = match &report.kind {
        IncidentKind::Failover => "#ff0000",
        IncidentKind::Recovery => "#00ff00",
    };
    SlackMessage {
        color: String::from_str(color),
        title: render_title(&report.kind),
        fields: render_fields(report, timestamp_rfc3339, true),
        footer: String::from_str("Failover Proxy"),
        ts: now_unix,
    }
}

/// Builds the Discord-style embed for a report.
pub fn format_discord_message(report: &IncidentReport, timestamp_rfc3339: &str) -> (r:
    DiscordMessage)
    ensures
        is_discord_message_for(r, *report, timestamp_rfc3339@),
{
    let color: u32 = match &report.kind {
        IncidentKind::Failover => 16711680,
        IncidentKind::Recovery => 65280,
    };
    DiscordMessage {
        color,
        title: render_title(&report.kind),
        fields: render_fields(report, timestamp_rfc3339, false),
        footer_text: String::from_str("Failover Proxy"),
    }
}

/// Builds the payload for a report in the configured format.
pub fn format_webhook_payload(
    report: &IncidentReport,
    timestamp_rfc3339: &str,
    format: &WebhookFormat,
    now_unix: u64,
) -> (r: WebhookPayload)
    ensures
        *format is Slack ==> (r matches WebhookPayload::Slack(m) && is_slack_message_for(
            m,
            *report,
            timestamp_rfc3339@,
            now_unix,
        )),
        *format is Discord ==> (r matches WebhookPayload::Discord(m) && is_discord_message_for(
            m,
            *report,
            timestamp_rfc3339@,
        )),
{
    match format {
        WebhookFormat::Slack => WebhookPayload::Slack(
            format_slack_message(report, timestamp_rfc3339, now_unix),
        ),
        WebhookFormat::Discord => WebhookPayload::Discord(
            format_discord_message(report, timestamp_rfc3339),
        ),
    }
}

} // verus!
