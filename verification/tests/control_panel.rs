use asynqmon::decimal::decimal_text;
use asynqmon::panel::{
    queue_card, queue_control, queue_status_label, queues_note, server_card, server_subtitle,
    servers_note, strict_priority_label, ControlPanel, QueueControl, QueueSummary, Screen,
    ServerInfo,
};
use asynqmon::text::same_text;

fn server(host: &str, pid: i32, strict: bool) -> ServerInfo {
    ServerInfo {
        server_id: "srv".to_string(),
        host: host.to_string(),
        pid,
        concurrency: 4,
        status: "active".to_string(),
        active_worker_count: 1,
        strict_priority: strict,
    }
}

#[test]
fn panel_opens_on_connection_dialog() {
    let panel = ControlPanel::new();
    assert_eq!(panel.screen(), Screen::ConnectionDialog);
    assert_eq!(panel.redis_url(), "redis://127.0.0.1:6379");
    assert!(!panel.shows_error());
    assert!(panel.queues().is_empty());
    assert!(panel.servers().is_empty());
}

#[test]
fn panel_switches_to_dashboard_once_connected() {
    let mut panel = ControlPanel::new();
    panel.edit_redis_url("redis://cache:6379".to_string());
    assert_eq!(panel.screen(), Screen::ConnectionDialog);
    assert_eq!(panel.redis_url(), "redis://cache:6379");
    panel.connected();
    assert_eq!(panel.screen(), Screen::Dashboard);
    assert_eq!(panel.redis_url(), "redis://cache:6379");
}

#[test]
fn empty_sections_show_notes() {
    assert_eq!(servers_note(&Vec::new()), Some("No servers found"));
    assert_eq!(queues_note(&Vec::new()), Some("No queues found"));
    assert_eq!(servers_note(&vec![server("h", 1, false)]), None);
    assert_eq!(queues_note(&vec!["default".to_string()]), None);
}

#[test]
fn server_subtitle_is_host_and_pid() {
    assert_eq!(server_subtitle(&server("worker-a", 4242, false)), "worker-a:4242");
    assert_eq!(server_subtitle(&server("", 0, false)), ":0");
    assert_eq!(server_subtitle(&server("h", -7, false)), "h:-7");
}

#[test]
fn strict_priority_labels() {
    assert_eq!(strict_priority_label(true), "✓ Yes");
    assert_eq!(strict_priority_label(false), "✗ No");
}

#[test]
fn decimal_text_matches_display() {
    for n in [0, 1, 9, 10, 99, 100, 4242, -1, -10, -120, i32::MAX, i32::MIN] {
        assert_eq!(decimal_text(n), n.to_string());
    }
}

#[test]
fn same_text_compares_characters() {
    assert!(same_text("pending", "pending"));
    assert!(!same_text("pending", "Pending"));
    assert!(same_text("", ""));
    assert!(!same_text("a", "ab"));
}

#[test]
fn failed_connection_shows_its_message_in_the_dialog() {
    let mut panel = ControlPanel::new();
    panel.connection_result(Err("Failed to create Inspector: connection refused".to_string()));
    assert_eq!(panel.screen(), Screen::ConnectionDialog);
    assert!(panel.shows_error());
    assert_eq!(panel.error_message(), "Failed to create Inspector: connection refused");
}

#[test]
fn successful_connection_opens_the_dashboard_for_good() {
    let mut panel = ControlPanel::new();
    panel.connection_result(Err("timeout".to_string()));
    panel.connection_result(Ok(()));
    assert_eq!(panel.screen(), Screen::Dashboard);
    panel.connection_result(Err("later failure".to_string()));
    panel.edit_redis_url("redis://other:6379".to_string());
    assert_eq!(panel.screen(), Screen::Dashboard);
}

#[test]
fn loaded_queues_and_servers_replace_the_notes() {
    let mut panel = ControlPanel::new();
    panel.connected();
    panel.show_queues(vec!["default".to_string(), "critical".to_string()]);
    panel.show_servers(vec![server("worker-a", 12, true)]);
    assert_eq!(panel.queues().len(), 2);
    assert_eq!(panel.servers()[0].host, "worker-a");
    assert_eq!(queues_note(panel.queues()), None);
    assert_eq!(servers_note(panel.servers()), None);
    panel.show_queues(Vec::new());
    assert_eq!(queues_note(panel.queues()), Some("No queues found"));
}

#[test]
fn queue_cards_offer_pause_or_resume() {
    assert_eq!(queue_control(false), QueueControl::Pause);
    assert_eq!(queue_control(true), QueueControl::Resume);
    assert_eq!(QueueControl::Pause.label(), "⏸️ Pause");
    assert_eq!(QueueControl::Resume.label(), "▶️ Resume");
    assert_eq!(queue_status_label(true), "Paused");
    assert_eq!(queue_status_label(false), "Active");
}

fn summary(queue: &str, paused: bool) -> QueueSummary {
    QueueSummary { queue: queue.to_string(), paused, pending: 12, active: 3, scheduled: 0 }
}

#[test]
fn queue_card_shows_title_counts_status_and_control() {
    let card = queue_card(&summary("critical", false));
    assert_eq!(card.title, "📋 critical");
    assert_eq!(card.status, "Active");
    assert_eq!(card.pending, "12");
    assert_eq!(card.active, "3");
    assert_eq!(card.scheduled, "0");
    assert_eq!(card.control, QueueControl::Pause);

    let paused = queue_card(&summary("low", true));
    assert_eq!(paused.status, "Paused");
    assert_eq!(paused.control, QueueControl::Resume);
    assert_eq!(paused.control.label(), "▶️ Resume");
}

#[test]
fn server_card_shows_title_and_stats() {
    let card = server_card(&server("worker-a", 4242, true));
    assert_eq!(card.title, "🖥️ srv");
    assert_eq!(card.subtitle, "worker-a:4242");
    assert_eq!(card.status, "active");
    assert_eq!(card.concurrency, "4");
    assert_eq!(card.active_workers, "1");
    assert_eq!(card.strict_priority, "✓ Yes");
}

#[test]
fn loaded_queue_statistics_feed_the_cards() {
    let mut panel = ControlPanel::new();
    assert!(panel.queue_stats().is_empty());
    panel.show_queue_stats(vec![summary("default", false), summary("low", true)]);
    let cards: Vec<_> = panel.queue_stats().iter().map(queue_card).collect();
    assert_eq!(cards.len(), 2);
    assert_eq!(cards[1].title, "📋 low");
    assert_eq!(cards[1].control, QueueControl::Resume);
}
