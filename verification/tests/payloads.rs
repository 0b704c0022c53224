use failover_proxy::health::{IncidentKind, IncidentReport};
use failover_proxy::notify::{
    format_discord_message, format_slack_message, format_webhook_payload, WebhookFormat,
    WebhookPayload,
};

fn failover_report() -> IncidentReport {
    IncidentReport {
        kind: IncidentKind::Failover,
        at_unix: 1700000000,
        primary_url: String::from("http://primary.example:9000"),
        backup_url: String::from("http://backup.example:9001"),
        fail_count: 3,
        downtime: None,
        message: String::from("primary went down"),
    }
}

fn recovery_report() -> IncidentReport {
    IncidentReport {
        kind: IncidentKind::Recovery,
        at_unix: 1700000060,
        primary_url: String::from("http://primary.example:9000"),
        backup_url: String::from("http://backup.example:9001"),
        fail_count: 0,
        downtime: Some(60),
        message: String::from("primary came back"),
    }
}

#[test]
fn format_names_from_config() {
    assert_eq!(WebhookFormat::from_config("discord"), WebhookFormat::Discord);
    assert_eq!(WebhookFormat::from_config("slack"), WebhookFormat::Slack);
    assert_eq!(WebhookFormat::from_config("Discord"), WebhookFormat::Slack);
    assert_eq!(WebhookFormat::from_config(""), WebhookFormat::Slack);
}

#[test]
fn slack_failover_attachment_is_red_with_alert_emoji() {
    let m = format_slack_message(&failover_report(), "2023-11-14T22:13:20+00:00", 1700000001);
    assert_eq!(m.color, "#ff0000");
    assert_eq!(m.title, "🚨 Failover Incident Report");
    assert_eq!(m.footer, "Failover Proxy");
    assert_eq!(m.ts, 1700000001);
    assert_eq!(m.fields.len(), 5);
    assert_eq!(m.fields[0].title, "Event");
    assert_eq!(m.fields[0].value, "FAILOVER");
    assert!(m.fields[0].prominent);
    assert_eq!(m.fields[1].title, "Timestamp");
    assert_eq!(m.fields[1].value, "2023-11-14T22:13:20+00:00");
    assert_eq!(m.fields[2].title, "Primary");
    assert_eq!(m.fields[2].value, "http://primary.example:9000");
    assert!(m.fields[2].prominent);
    assert_eq!(m.fields[3].title, "Backup");
    assert_eq!(m.fields[3].value, "http://backup.example:9001");
    assert_eq!(m.fields[4].title, "Details");
    assert_eq!(m.fields[4].value, "primary went down");
    assert!(!m.fields[4].prominent);
}

#[test]
fn slack_recovery_attachment_is_green_with_all_clear_emoji() {
    let m = format_slack_message(&recovery_report(), "2023-11-14T22:14:20+00:00", 1700000061);
    assert_eq!(m.color, "#00ff00");
    assert_eq!(m.title, "✅ Failover Incident Report");
    assert_eq!(m.fields[0].value, "RECOVERY");
}

#[test]
fn discord_embed_uses_numeric_colors_and_block_urls() {
    let m = format_discord_message(&failover_report(), "2023-11-14T22:13:20+00:00");
    assert_eq!(m.color, 16711680);
    assert_eq!(m.title, "🚨 Failover Incident Report");
    assert_eq!(m.footer_text, "Failover Proxy");
    assert_eq!(m.fields.len(), 5);
    assert!(m.fields[0].prominent, "event stays inline");
    assert!(!m.fields[2].prominent, "primary URL on its own line");
    assert!(!m.fields[3].prominent, "backup URL on its own line");

    let m = format_discord_message(&recovery_report(), "2023-11-14T22:14:20+00:00");
    assert_eq!(m.color, 65280);
    assert_eq!(m.fields[0].value, "RECOVERY");
}

#[test]
fn payload_shape_follows_the_configured_format() {
    let r = failover_report();
    match format_webhook_payload(&r, "ts", &WebhookFormat::Slack, 7) {
        WebhookPayload::Slack(m) => assert_eq!(m.ts, 7),
        WebhookPayload::Discord(_) => panic!("expected the Slack shape"),
    }
    match format_webhook_payload(&r, "ts", &WebhookFormat::Discord, 7) {
        WebhookPayload::Discord(m) => assert_eq!(m.color, 16711680),
        WebhookPayload::Slack(_) => panic!("expected the Discord shape"),
    }
}
