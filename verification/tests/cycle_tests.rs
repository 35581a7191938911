use rusty_dns::config::ProviderConfig;
use rusty_dns::detect::{accept_family, interpret_service_response};
use rusty_dns::history::History;
use rusty_dns::ip::IpAddress;
use rusty_dns::providers::UpdateResult;
use rusty_dns::reconcile::{
    daemon_step, find_provider_config, ip_changed, record_outcome, should_update, CycleOutcome,
};

fn sample_result(tag: &str, success: bool) -> UpdateResult {
    if success {
        UpdateResult::made(
            "duckdns".to_string(),
            tag.to_string(),
            IpAddress::V4(1, 2, 3, 4),
            None,
            7,
        )
    } else {
        UpdateResult::refused(
            "duckdns".to_string(),
            tag.to_string(),
            "refused".to_string(),
            None,
            7,
        )
    }
}

#[test]
fn test_should_update_skips_unchanged() {
    let detected = IpAddress::V4(1, 2, 3, 4);
    assert!(!should_update(false, Some(detected), &detected));
    assert!(should_update(false, Some(IpAddress::V4(9, 9, 9, 9)), &detected));
    assert!(should_update(false, None, &detected));
}

#[test]
fn test_should_update_force_overrides() {
    let detected = IpAddress::V4(1, 2, 3, 4);
    assert!(should_update(true, Some(detected), &detected));
    assert!(should_update(true, None, &detected));
}

#[test]
fn test_ip_changed() {
    let current = IpAddress::V4(1, 2, 3, 4);
    assert!(ip_changed(None, &current));
    assert!(ip_changed(Some(IpAddress::V4(5, 6, 7, 8)), &current));
    assert!(!ip_changed(Some(current), &current));
}

#[test]
fn test_daemon_step() {
    let a = IpAddress::V4(1, 2, 3, 4);
    let b = IpAddress::V4(5, 6, 7, 8);
    assert_eq!(daemon_step(None, Some(a)), (true, Some(a)));
    assert_eq!(daemon_step(Some(a), Some(a)), (false, Some(a)));
    assert_eq!(daemon_step(Some(a), Some(b)), (true, Some(b)));
    assert_eq!(daemon_step(Some(a), None), (false, Some(a)));
    assert_eq!(daemon_step(None, None), (false, None));
}

#[test]
fn test_update_result_invariant_fields() {
    let ok = sample_result("a.example.com", true);
    assert!(ok.success);
    assert_eq!(ok.ip, Some(IpAddress::V4(1, 2, 3, 4)));
    assert_eq!(ok.error, None);
    let bad = sample_result("a.example.com", false);
    assert!(!bad.success);
    assert_eq!(bad.ip, None);
    assert_eq!(bad.error, Some("refused".to_string()));
}

#[test]
fn test_history_fifo_eviction() {
    let mut history = History::new(3);
    for i in 0..7u8 {
        history.push(sample_result(&format!("d{}.example.com", i), true));
    }
    assert_eq!(history.len(), 3);
    let domains: Vec<String> = history.entries.iter().map(|r| r.domain.clone()).collect();
    assert_eq!(
        domains,
        vec![
            "d4.example.com".to_string(),
            "d5.example.com".to_string(),
            "d6.example.com".to_string(),
        ]
    );
}

#[test]
fn test_history_zero_bound_keeps_nothing() {
    let mut history = History::new(0);
    history.push(sample_result("a.example.com", true));
    assert_eq!(history.len(), 0);
    assert!(history.last().is_none());
}

#[test]
fn test_history_recent_newest_first() {
    let mut history = History::new(10);
    for i in 0..4u8 {
        history.push(sample_result(&format!("d{}.example.com", i), true));
    }
    let recent = history.recent(2);
    assert_eq!(recent.len(), 2);
    assert_eq!(recent[0].domain, "d3.example.com");
    assert_eq!(recent[1].domain, "d2.example.com");
    let all = history.recent(99);
    assert_eq!(all.len(), 4);
    assert_eq!(history.last().unwrap().domain, "d3.example.com");
}

#[test]
fn test_record_outcome() {
    let mut history = History::new(5);
    record_outcome(
        &mut history,
        &CycleOutcome::Skipped {
            provider: "duckdns".to_string(),
            domain: "d.duckdns.org".to_string(),
        },
    );
    assert_eq!(history.len(), 0);
    record_outcome(&mut history, &CycleOutcome::Completed(sample_result("x.example.com", false)));
    assert_eq!(history.len(), 1);
    record_outcome(
        &mut history,
        &CycleOutcome::HardError {
            provider: "cloudflare".to_string(),
            domain: "x.example.com".to_string(),
            message: "Network error: timed out".to_string(),
        },
    );
    assert_eq!(history.len(), 1);
}

#[test]
fn test_find_provider_config() {
    let providers = vec![
        ProviderConfig::DuckDns { domains: "d".to_string(), token: "t".to_string() },
        ProviderConfig::Namecheap {
            domain: "example.com".to_string(),
            host: "@".to_string(),
            password: "p".to_string(),
        },
    ];
    assert_eq!(find_provider_config(&providers, "namecheap"), Some(1));
    assert_eq!(find_provider_config(&providers, "duckdns"), Some(0));
    assert_eq!(find_provider_config(&providers, "godaddy"), None);
}

#[test]
fn test_interpret_service_response() {
    let ok = interpret_service_response(200, "https://api.ipify.org", " 1.2.3.4\n");
    assert_eq!(ok.unwrap(), IpAddress::V4(1, 2, 3, 4));

    let err = interpret_service_response(404, "https://api.ipify.org", "1.2.3.4");
    assert_eq!(
        err.unwrap_err().message(),
        "IP detection failed: HTTP 404 from https://api.ipify.org"
    );

    let garbage = interpret_service_response(200, "https://api.ipify.org", "<html></html>");
    assert_eq!(
        garbage.unwrap_err().message(),
        "IP detection failed: Invalid IP response: <html></html>"
    );
}

#[test]
fn test_accept_family() {
    assert!(accept_family(&IpAddress::V4(1, 2, 3, 4), true));
    assert!(!accept_family(&IpAddress::V4(1, 2, 3, 4), false));
    assert!(accept_family(&IpAddress::V6(0, 0, 0, 0, 0, 0, 0, 1), false));
    assert!(!accept_family(&IpAddress::V6(0, 0, 0, 0, 0, 0, 0, 1), true));
}
