use aether_shell::capture::{
    json_escape, offline_entry, payload_json, CaptureOutcome, CaptureService, CaptureStep,
    FallbackReason, RemoteOutcome,
};

#[test]
fn payload_exact_simple() {
    let p = payload_json("hello", "2025-01-01T00:00:00+00:00");
    assert_eq!(
        p,
        "{\"content\":\"hello\",\"source\":\"desktop_app\",\"timestamp\":\"2025-01-01T00:00:00+00:00\"}"
    );
}

#[test]
fn payload_escapes_content() {
    let p = payload_json("say \"hi\"\n", "t");
    assert_eq!(
        p,
        "{\"content\":\"say \\\"hi\\\"\\n\",\"source\":\"desktop_app\",\"timestamp\":\"t\"}"
    );
}

#[test]
fn escape_specials() {
    assert_eq!(json_escape("a\"b\\c\nd\re\tf"), "a\\\"b\\\\c\\nd\\re\\tf");
}

#[test]
fn escape_control_chars() {
    assert_eq!(json_escape("\u{01}"), "\\u0001");
    assert_eq!(json_escape("\u{1f}"), "\\u001f");
    assert_eq!(json_escape("\u{00}x"), "\\u0000x");
}

#[test]
fn escape_empty_and_plain() {
    assert_eq!(json_escape(""), "");
    assert_eq!(json_escape("plain text"), "plain text");
}

#[test]
fn escape_unicode_passthrough() {
    assert_eq!(json_escape("idée ✨"), "idée ✨");
}

#[test]
fn entry_exact() {
    assert_eq!(
        offline_entry("2025-01-01T00:00:00+00:00", "idea A"),
        "[2025-01-01T00:00:00+00:00] idea A\n"
    );
}

#[test]
fn remote_accepted_returns_body_verbatim() {
    let mut svc = CaptureService::new();
    let step = svc.capture_idea("my idea", &RemoteOutcome::Accepted("ok: stored".to_string()));
    match step {
        CaptureStep::Done(CaptureOutcome::Remote(body)) => assert_eq!(body, "ok: stored"),
        other => panic!("expected a finished remote capture, got {:?}", other),
    }
    assert_eq!(svc.acknowledged, vec!["my idea".to_string()]);
    assert!(svc.offline_log.is_empty());
}

#[test]
fn remote_rejected_falls_back_with_reason() {
    let mut svc = CaptureService::new();
    let step = svc.capture_idea("my idea", &RemoteOutcome::Rejected(503));
    match step {
        CaptureStep::StoreLocally { entry, timestamp, reason } => {
            assert_eq!(reason, FallbackReason::RemoteRejected(503));
            assert_eq!(entry, format!("[{}] my idea\n", timestamp));
            // the timestamp the service stamped must be a real RFC 3339 instant
            assert!(chrono::DateTime::parse_from_rfc3339(&timestamp).is_ok());
        }
        other => panic!("expected a local fallback, got {:?}", other),
    }
    assert!(svc.acknowledged.is_empty());
    assert!(svc.offline_log.is_empty());
}

#[test]
fn local_append_success_is_stored_offline() {
    let mut svc = CaptureService::new();
    let step = svc.capture_idea("my idea", &RemoteOutcome::Unreachable);
    let (entry, reason) = match step {
        CaptureStep::StoreLocally { entry, reason, .. } => (entry, reason),
        other => panic!("expected a local fallback, got {:?}", other),
    };
    assert_eq!(reason, FallbackReason::RemoteUnreachable);
    let outcome = svc.local_append_result(entry.clone(), reason, true);
    assert_eq!(outcome, CaptureOutcome::StoredOffline(FallbackReason::RemoteUnreachable));
    assert_eq!(svc.offline_log, vec![entry]);
}

#[test]
fn local_append_failure_is_the_only_hard_error() {
    let mut svc = CaptureService::new();
    let step = svc.capture_idea("my idea", &RemoteOutcome::Unreachable);
    let (entry, reason) = match step {
        CaptureStep::StoreLocally { entry, reason, .. } => (entry, reason),
        other => panic!("expected a local fallback, got {:?}", other),
    };
    let outcome = svc.local_append_result(entry, reason, false);
    assert_eq!(outcome, CaptureOutcome::LocalStoreFailed);
    assert!(svc.offline_log.is_empty());
    assert!(svc.acknowledged.is_empty());
}

#[test]
fn offline_durability_two_ideas_in_order() {
    let mut svc = CaptureService::new();
    let mut timestamps = Vec::new();
    for content in ["idea A", "idea B"] {
        let step = svc.capture_idea(content, &RemoteOutcome::Unreachable);
        match step {
            CaptureStep::StoreLocally { entry, timestamp, reason } => {
                let outcome = svc.local_append_result(entry, reason, true);
                assert_eq!(
                    outcome,
                    CaptureOutcome::StoredOffline(FallbackReason::RemoteUnreachable)
                );
                timestamps.push(timestamp);
            }
            other => panic!("expected a local fallback, got {:?}", other),
        }
    }
    assert_eq!(svc.offline_log.len(), 2);
    assert_eq!(svc.offline_log[0], format!("[{}] idea A\n", timestamps[0]));
    assert_eq!(svc.offline_log[1], format!("[{}] idea B\n", timestamps[1]));
    // each entry is one whole line, correctly timestamped
    for (entry, ts) in svc.offline_log.iter().zip(&timestamps) {
        assert_eq!(entry.matches('\n').count(), 1);
        assert!(entry.ends_with('\n'));
        assert!(chrono::DateTime::parse_from_rfc3339(ts).is_ok());
    }
    assert!(svc.acknowledged.is_empty());
}

#[test]
fn capture_never_loses_content() {
    // remote path: the content is acknowledged
    let mut svc = CaptureService::new();
    svc.capture_idea("kept", &RemoteOutcome::Accepted(String::new()));
    assert!(svc.acknowledged.iter().any(|c| c == "kept"));

    // offline path: the content is embedded in a logged line
    let mut svc = CaptureService::new();
    if let CaptureStep::StoreLocally { entry, reason, .. } =
        svc.capture_idea("kept", &RemoteOutcome::Rejected(500))
    {
        svc.local_append_result(entry, reason, true);
    }
    assert!(svc.offline_log.iter().any(|line| line.contains("kept")));
}
