use rusty_dns::config::ProviderConfig;
use rusty_dns::error::DdnsError;
use rusty_dns::ip::IpAddress;
use rusty_dns::providers::cloudflare::DnsRecordInfo;
use rusty_dns::providers::{
    create_provider, lookup_env, resolve_env, CloudflareProvider, DuckDnsProvider,
    GoDaddyProvider, NamecheapProvider, Provider,
};

#[test]
fn test_namecheap_update_success() {
    let provider = NamecheapProvider::new(
        "example.com".to_string(),
        "vpn".to_string(),
        "secret123".to_string(),
    );
    let ip = IpAddress::V4(1, 2, 3, 4);
    let body = r#"<?xml version="1.0"?>
                <interface-response>
                    <Command>SETDNSHOST</Command>
                    <IP>1.2.3.4</IP>
                    <ErrCount>0</ErrCount>
                    <Done>true</Done>
                </interface-response>"#;
    let result = provider.interpret_update(&ip, body);
    assert!(result.success);
    assert_eq!(result.ip, Some(ip));
    assert_eq!(result.domain, "vpn.example.com");
}

#[test]
fn test_namecheap_update_password_mismatch() {
    let provider = NamecheapProvider::new(
        "example.com".to_string(),
        "vpn".to_string(),
        "wrong".to_string(),
    );
    let ip = IpAddress::V4(1, 2, 3, 4);
    let body = r#"<?xml version="1.0"?>
                <interface-response>
                    <ErrCount>1</ErrCount>
                    <Err1>Passwords do not match</Err1>
                </interface-response>"#;
    let result = provider.interpret_update(&ip, body);
    assert!(!result.success);
    assert_eq!(result.error, Some("Passwords do not match".to_string()));
}

#[test]
fn test_namecheap_root_domain() {
    let provider = NamecheapProvider::new(
        "example.com".to_string(),
        "@".to_string(),
        "secret".to_string(),
    );
    assert_eq!(provider.domain(), "example.com");
}

#[test]
fn test_namecheap_subdomain() {
    let provider = NamecheapProvider::new(
        "example.com".to_string(),
        "vpn".to_string(),
        "secret".to_string(),
    );
    assert_eq!(provider.domain(), "vpn.example.com");
}

#[test]
fn test_namecheap_update_url() {
    let provider = NamecheapProvider::new(
        "example.com".to_string(),
        "vpn".to_string(),
        "secret123".to_string(),
    );
    let ip = IpAddress::V4(1, 2, 3, 4);
    assert_eq!(
        provider.update_url(&ip),
        "https://dynamicdns.park-your-domain.com/update?host=vpn&domain=example.com&password=secret123&ip=1.2.3.4"
    );
}

#[test]
fn test_namecheap_unknown_error_without_tag() {
    let provider = NamecheapProvider::new(
        "example.com".to_string(),
        "vpn".to_string(),
        "secret".to_string(),
    );
    let ip = IpAddress::V4(1, 2, 3, 4);
    let result = provider.interpret_update(&ip, "<ErrCount>1</ErrCount>");
    assert!(!result.success);
    assert_eq!(result.error, Some("Unknown error".to_string()));
    assert_eq!(result.ip, None);
}

#[test]
fn test_namecheap_validate_empty_password() {
    let provider =
        NamecheapProvider::new("example.com".to_string(), "vpn".to_string(), "".to_string());
    assert!(provider.validate().is_err());
    let provider2 = NamecheapProvider::new(
        "example.com".to_string(),
        "vpn".to_string(),
        "secret".to_string(),
    );
    assert!(provider2.validate().is_ok());
}

#[test]
fn test_duckdns_update_success() {
    let provider = DuckDnsProvider::new("mysubdomain".to_string(), "mytoken".to_string());
    let ip = IpAddress::V4(5, 6, 7, 8);
    let result = provider.interpret_update(&ip, "OK");
    assert!(result.success);
    assert_eq!(result.ip, Some(ip));
}

#[test]
fn test_duckdns_update_failure() {
    let provider = DuckDnsProvider::new("mysubdomain".to_string(), "badtoken".to_string());
    let ip = IpAddress::V4(5, 6, 7, 8);
    let result = provider.interpret_update(&ip, "KO");
    assert!(!result.success);
    assert_eq!(result.error, Some("DuckDNS returned: KO".to_string()));
    assert_eq!(result.ip, None);
}

#[test]
fn test_duckdns_trims_body() {
    let provider = DuckDnsProvider::new("mysubdomain".to_string(), "mytoken".to_string());
    let ip = IpAddress::V4(5, 6, 7, 8);
    let result = provider.interpret_update(&ip, "  OK\n");
    assert!(result.success);
    let result2 = provider.interpret_update(&ip, "OKAY");
    assert!(!result2.success);
}

#[test]
fn test_duckdns_domain_format() {
    let provider = DuckDnsProvider::new("test".to_string(), "token".to_string());
    assert_eq!(provider.domain(), "test.duckdns.org");
}

#[test]
fn test_duckdns_domain_first_segment() {
    let provider = DuckDnsProvider::new("a,b".to_string(), "token".to_string());
    assert_eq!(provider.domain(), "a.duckdns.org");
}

#[test]
fn test_duckdns_update_url() {
    let provider = DuckDnsProvider::new("mysubdomain".to_string(), "mytoken".to_string());
    let ip = IpAddress::V4(5, 6, 7, 8);
    assert_eq!(
        provider.update_url(&ip),
        "https://www.duckdns.org/update?domains=mysubdomain&token=mytoken&ip=5.6.7.8"
    );
}

#[test]
fn test_duckdns_validate_empty_token() {
    let provider = DuckDnsProvider::new("test".to_string(), "".to_string());
    assert!(provider.validate().is_err());
}

#[test]
fn test_duckdns_validate_empty_domains() {
    let provider = DuckDnsProvider::new("".to_string(), "token".to_string());
    assert!(provider.validate().is_err());
}

#[test]
fn test_cloudflare_update_success() {
    let provider = CloudflareProvider::new(
        "test-token".to_string(),
        "zone-123".to_string(),
        "vpn.example.com".to_string(),
        false,
    );
    let records = vec![DnsRecordInfo { id: "record-123".to_string(), content: "1.1.1.1".to_string() }];
    let lookup = provider.interpret_lookup(true, &Vec::new(), &records);
    let (id, content) = lookup.unwrap();
    assert_eq!(id, "record-123");
    assert_eq!(content, "1.1.1.1");

    let ip = IpAddress::V4(2, 2, 2, 2);
    let previous = rusty_dns::ip::parse_ip(&content);
    let result = provider.interpret_update(&ip, true, &Vec::new(), previous);
    assert!(result.success);
    assert_eq!(result.ip, Some(ip));
    assert_eq!(result.previous_ip, Some(IpAddress::V4(1, 1, 1, 1)));
}

#[test]
fn test_cloudflare_record_not_found() {
    let provider = CloudflareProvider::new(
        "test-token".to_string(),
        "zone-123".to_string(),
        "nonexistent.example.com".to_string(),
        false,
    );
    let lookup = provider.interpret_lookup(true, &Vec::new(), &Vec::new());
    assert!(lookup.is_err());
    let e = lookup.unwrap_err();
    assert_eq!(
        e.message(),
        "Provider error (cloudflare): DNS record nonexistent.example.com not found"
    );
}

#[test]
fn test_cloudflare_auth_error() {
    let provider = CloudflareProvider::new(
        "bad-token".to_string(),
        "zone-123".to_string(),
        "vpn.example.com".to_string(),
        false,
    );
    let errors = vec!["Invalid API token".to_string()];
    let lookup = provider.interpret_lookup(false, &errors, &Vec::new());
    assert!(lookup.is_err());
    let e = lookup.unwrap_err();
    assert_eq!(e.message(), "Provider error (cloudflare): Invalid API token");
}

#[test]
fn test_cloudflare_urls_and_request() {
    let provider = CloudflareProvider::new(
        "test-token".to_string(),
        "zone-123".to_string(),
        "vpn.example.com".to_string(),
        true,
    );
    assert_eq!(provider.auth_header(), "Bearer test-token");
    assert_eq!(
        provider.records_url(),
        "https://api.cloudflare.com/client/v4/zones/zone-123/dns_records?name=vpn.example.com"
    );
    assert_eq!(
        provider.record_url("record-123"),
        "https://api.cloudflare.com/client/v4/zones/zone-123/dns_records/record-123"
    );
    let req = provider.update_request(&IpAddress::V4(2, 2, 2, 2));
    assert_eq!(req.record_type, "A");
    assert_eq!(req.name, "vpn.example.com");
    assert_eq!(req.content, "2.2.2.2");
    assert!(req.proxied);
    let req6 = provider.update_request(&IpAddress::V6(0x2001, 0xdb8, 0, 0, 0, 0, 0, 1));
    assert_eq!(req6.record_type, "AAAA");
    assert_eq!(req6.content, "2001:db8::1");
}

#[test]
fn test_cloudflare_soft_failure_message() {
    let provider = CloudflareProvider::new(
        "test-token".to_string(),
        "zone-123".to_string(),
        "vpn.example.com".to_string(),
        false,
    );
    let ip = IpAddress::V4(2, 2, 2, 2);
    let result = provider.interpret_update(&ip, false, &Vec::new(), None);
    assert!(!result.success);
    assert_eq!(result.error, Some("Unknown error".to_string()));
}

#[test]
fn test_godaddy_update_success() {
    let provider = GoDaddyProvider::new(
        "api-key".to_string(),
        "api-secret".to_string(),
        "example.com".to_string(),
        "vpn".to_string(),
        600,
    );
    assert_eq!(provider.auth_header(), "sso-key api-key:api-secret");
    let ip = IpAddress::V4(3, 3, 3, 3);
    let previous = Some(IpAddress::V4(1, 1, 1, 1));
    let result = provider.interpret_update(&ip, 200, None, previous);
    assert!(result.success);
    assert_eq!(result.ip, Some(ip));
}

#[test]
fn test_godaddy_success_ignores_body() {
    let provider = GoDaddyProvider::new(
        "k".to_string(),
        "s".to_string(),
        "example.com".to_string(),
        "vpn".to_string(),
        600,
    );
    let ip = IpAddress::V4(3, 3, 3, 3);
    let ok = provider.interpret_update(&ip, 204, Some("ignored".to_string()), None);
    assert!(ok.success);
    assert_eq!(ok.error, None);
    let bad = provider.interpret_update(&ip, 401, Some("bad creds".to_string()), None);
    assert!(!bad.success);
    assert_eq!(bad.error, Some("bad creds".to_string()));
    let bad2 = provider.interpret_update(&ip, 500, None, None);
    assert_eq!(bad2.error, Some("Unknown error".to_string()));
}

#[test]
fn test_godaddy_domain_format() {
    let provider = GoDaddyProvider::new(
        "key".to_string(),
        "secret".to_string(),
        "example.com".to_string(),
        "vpn".to_string(),
        600,
    );
    assert_eq!(provider.domain(), "vpn.example.com");
}

#[test]
fn test_godaddy_root_domain() {
    let provider = GoDaddyProvider::new(
        "key".to_string(),
        "secret".to_string(),
        "example.com".to_string(),
        "@".to_string(),
        600,
    );
    assert_eq!(provider.domain(), "example.com");
}

#[test]
fn test_godaddy_urls_and_records() {
    let provider = GoDaddyProvider::new(
        "key".to_string(),
        "secret".to_string(),
        "example.com".to_string(),
        "vpn".to_string(),
        600,
    );
    assert_eq!(
        provider.record_url("A"),
        "https://api.godaddy.com/v1/domains/example.com/records/A/vpn"
    );
    let records = provider.update_records(&IpAddress::V4(3, 3, 3, 3));
    assert_eq!(records.len(), 1);
    assert_eq!(records[0].data, "3.3.3.3");
    assert_eq!(records[0].ttl, 600);
}

#[test]
fn test_godaddy_current_and_validate() {
    let provider = GoDaddyProvider::new(
        "key".to_string(),
        "secret".to_string(),
        "example.com".to_string(),
        "vpn".to_string(),
        600,
    );
    let data = "1.1.1.1".to_string();
    assert_eq!(
        provider.interpret_current(200, Some(&data)),
        Some(IpAddress::V4(1, 1, 1, 1))
    );
    assert_eq!(provider.interpret_current(404, Some(&data)), None);
    assert_eq!(provider.interpret_current(200, None), None);
    assert!(provider.interpret_validate(200, None).is_ok());
    let err = provider.interpret_validate(403, None).unwrap_err();
    assert_eq!(err.message(), "Provider error (godaddy): Authentication failed");
}

#[test]
fn test_resolve_env_with_value() {
    let env: Vec<(String, String)> = Vec::new();
    assert_eq!(resolve_env("plain_value", &env), "plain_value");
}

#[test]
fn test_resolve_env_with_existing_var() {
    let env = vec![("TEST_RUSTY_DNS_VAR".to_string(), "resolved_value".to_string())];
    assert_eq!(resolve_env("$TEST_RUSTY_DNS_VAR", &env), "resolved_value");
}

#[test]
fn test_resolve_env_with_missing_var() {
    let env: Vec<(String, String)> = Vec::new();
    let result = resolve_env("$NONEXISTENT_VAR_12345", &env);
    assert_eq!(result, "$NONEXISTENT_VAR_12345");
}

#[test]
fn test_lookup_env_first_binding_wins() {
    let env = vec![
        ("A".to_string(), "first".to_string()),
        ("A".to_string(), "second".to_string()),
        ("B".to_string(), "b".to_string()),
    ];
    assert_eq!(lookup_env(&env, "A"), Some("first".to_string()));
    assert_eq!(lookup_env(&env, "B"), Some("b".to_string()));
    assert_eq!(lookup_env(&env, "C"), None);
}

#[test]
fn test_create_provider_resolves_credentials() {
    let env = vec![("CF_TOKEN".to_string(), "tok-123".to_string())];
    let config = ProviderConfig::Cloudflare {
        api_token: "$CF_TOKEN".to_string(),
        zone_id: "zone-1".to_string(),
        record_name: "vpn.example.com".to_string(),
        proxied: false,
    };
    match create_provider(&config, &env) {
        Provider::Cloudflare(p) => {
            assert_eq!(p.api_token, "tok-123");
            assert_eq!(p.zone_id, "zone-1");
            assert_eq!(p.record_name, "vpn.example.com");
            assert!(!p.proxied);
        }
        _ => panic!("expected a Cloudflare provider"),
    }
}

#[test]
fn test_create_provider_all_variants() {
    let env: Vec<(String, String)> = Vec::new();
    let duck = create_provider(
        &ProviderConfig::DuckDns { domains: "d".to_string(), token: "t".to_string() },
        &env,
    );
    assert_eq!(duck.name(), "duckdns");
    assert_eq!(duck.domain(), "d.duckdns.org");
    assert!(!duck.supports_read());

    let nc = create_provider(
        &ProviderConfig::Namecheap {
            domain: "example.com".to_string(),
            host: "@".to_string(),
            password: "p".to_string(),
        },
        &env,
    );
    assert_eq!(nc.name(), "namecheap");
    assert_eq!(nc.domain(), "example.com");
    assert!(!nc.supports_read());

    let gd = create_provider(
        &ProviderConfig::GoDaddy {
            api_key: "k".to_string(),
            api_secret: "s".to_string(),
            domain: "example.com".to_string(),
            name: "vpn".to_string(),
            ttl: 300,
        },
        &env,
    );
    assert_eq!(gd.name(), "godaddy");
    assert_eq!(gd.domain(), "vpn.example.com");
    assert!(gd.supports_read());

    let cf = create_provider(
        &ProviderConfig::Cloudflare {
            api_token: "t".to_string(),
            zone_id: "z".to_string(),
            record_name: "r.example.com".to_string(),
            proxied: true,
        },
        &env,
    );
    assert_eq!(cf.name(), "cloudflare");
    assert_eq!(cf.domain(), "r.example.com");
    assert!(cf.supports_read());
}

#[test]
fn test_error_messages() {
    assert_eq!(
        DdnsError::Config("bad".to_string()).message(),
        "Configuration error: bad"
    );
    assert_eq!(
        DdnsError::Network("down".to_string()).message(),
        "Network error: down"
    );
    assert_eq!(
        DdnsError::Provider { provider: "duckdns".to_string(), message: "m".to_string() }.message(),
        "Provider error (duckdns): m"
    );
    assert_eq!(
        DdnsError::IpDetection("none".to_string()).message(),
        "IP detection failed: none"
    );
    assert_eq!(DdnsError::Io("gone".to_string()).message(), "IO error: gone");
    assert_eq!(
        DdnsError::Serialization("broken".to_string()).message(),
        "Serialization error: broken"
    );
}
