use rusty_dns::config::{Config, HistoryConfig, ProviderConfig};
use rusty_dns::config::{
    default_interval, default_ip_services, default_max_entries, default_true, default_ttl,
};

#[test]
fn test_default_config() {
    let config = Config::default();
    assert_eq!(config.check_interval_secs, 300);
    assert!(!config.ip_services.is_empty());
}

#[test]
fn test_example_config() {
    let config = Config::example();
    assert_eq!(config.providers.len(), 2);
}

#[test]
fn test_provider_names() {
    let cf = ProviderConfig::Cloudflare {
        api_token: "test".to_string(),
        zone_id: "test".to_string(),
        record_name: "vpn.example.com".to_string(),
        proxied: false,
    };
    assert_eq!(cf.name(), "cloudflare");
    assert_eq!(cf.display_name(), "vpn.example.com");
}

#[test]
fn test_default_helpers() {
    assert_eq!(default_interval(), 300);
    assert_eq!(default_ttl(), 600);
    assert!(default_true());
    assert_eq!(default_max_entries(), 100);
    let services = default_ip_services();
    assert_eq!(
        services,
        vec![
            "https://api.ipify.org".to_string(),
            "https://icanhazip.com".to_string(),
            "https://ifconfig.me/ip".to_string(),
            "https://ipecho.net/plain".to_string(),
        ]
    );
}

#[test]
fn test_history_config_default() {
    let h = HistoryConfig::default();
    assert!(h.enabled);
    assert_eq!(h.max_entries, 100);
}

#[test]
fn test_display_names_all_variants() {
    let nc = ProviderConfig::Namecheap {
        domain: "example.com".to_string(),
        host: "@".to_string(),
        password: "p".to_string(),
    };
    assert_eq!(nc.name(), "namecheap");
    assert_eq!(nc.display_name(), "example.com");

    let nc2 = ProviderConfig::Namecheap {
        domain: "example.com".to_string(),
        host: "www".to_string(),
        password: "p".to_string(),
    };
    assert_eq!(nc2.display_name(), "www.example.com");

    let duck = ProviderConfig::DuckDns {
        domains: "mine".to_string(),
        token: "t".to_string(),
    };
    assert_eq!(duck.name(), "duckdns");
    assert_eq!(duck.display_name(), "mine.duckdns.org");

    let duck2 = ProviderConfig::DuckDns {
        domains: "a,b".to_string(),
        token: "t".to_string(),
    };
    assert_eq!(duck2.display_name(), "a.duckdns.org");

    let gd = ProviderConfig::GoDaddy {
        api_key: "k".to_string(),
        api_secret: "s".to_string(),
        domain: "example.com".to_string(),
        name: "@".to_string(),
        ttl: 600,
    };
    assert_eq!(gd.name(), "godaddy");
    assert_eq!(gd.display_name(), "example.com");
}

#[test]
fn test_example_config_entries() {
    let config = Config::example();
    match &config.providers[0] {
        ProviderConfig::Cloudflare { api_token, zone_id, record_name, proxied } => {
            assert_eq!(api_token, "$CF_API_TOKEN");
            assert_eq!(zone_id, "your-zone-id");
            assert_eq!(record_name, "vpn.example.com");
            assert!(!proxied);
        }
        _ => panic!("first example entry should be Cloudflare"),
    }
    match &config.providers[1] {
        ProviderConfig::DuckDns { domains, token } => {
            assert_eq!(domains, "mysubdomain");
            assert_eq!(token, "$DUCKDNS_TOKEN");
        }
        _ => panic!("second example entry should be DuckDNS"),
    }
}
