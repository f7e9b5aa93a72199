use signaling::config::{ConfigSources, SignalingClientConfigDto, SignalingServerConfig};
use signaling::keys::{list_key, meta_key, rendezvous_key};
use signaling::text::decimal_text;
use signaling::textops::parse_u64;

fn some(x: &str) -> Option<String> {
    Some(x.to_string())
}

#[test]
fn defaults_apply_when_unset() {
    let c = SignalingServerConfig::from_sources(ConfigSources::default());
    assert_eq!(c.listen_port, 8080);
    assert_eq!(c.listen_addr_text, None);
    assert_eq!(c.public_base_url, "http://127.0.0.1:8080");
    assert_eq!(c.session_ttl_secs, 300);
    assert_eq!(c.heartbeat_interval_secs, 30);
    assert_eq!(c.redis_url, "redis://127.0.0.1/");
    assert_eq!(c.room_ttl_secs, 30);
    assert_eq!(c.mailbox_ttl_secs, 300);
    assert!(c.redis_require_tls);
    assert_eq!(c.redis_key_prefix, "sig");
    assert_eq!(c.joined_flag_ttl_secs, 60);
    assert!(!c.redis_encrypt_payloads);
    assert_eq!(c.redis_encryption_key, None);
    assert!(!c.redis_url_allowed());
}

#[test]
fn settings_override_defaults() {
    let src = ConfigSources {
        port: some("9000"),
        addr: some("0.0.0.0"),
        public_url: some("https://sig.example"),
        session_ttl_secs: some("+42"),
        heartbeat_secs: some("abc"),
        redis_url: some("rediss://store:6380/"),
        mailbox_ttl_secs: some("120"),
        redis_require_tls: some("TRUE"),
        redis_key_prefix: some("p"),
        redis_encrypt: some("Yes"),
        redis_enc_key_b64: some("AQEBAQEBAQEBAQEBAQEBAQEBAQEBAQEBAQEBAQEBAQE="),
        ..ConfigSources::default()
    };
    let c = SignalingServerConfig::from_sources(src);
    assert_eq!(c.listen_port, 9000);
    assert_eq!(c.listen_addr_text, some("0.0.0.0"));
    assert_eq!(c.session_ttl_secs, 42);
    assert_eq!(c.heartbeat_interval_secs, 30);
    assert_eq!(c.mailbox_ttl_secs, 120);
    assert!(c.redis_require_tls);
    assert!(c.redis_url_allowed());
    assert_eq!(c.redis_key_prefix, "p");
    assert!(c.redis_encrypt_payloads);
    assert_eq!(c.redis_encryption_key, Some([1u8; 32]));
    let client = c.client_config();
    assert_eq!(client.base_url, "https://sig.example");
    assert_eq!(client.heartbeat_interval_secs, 30);
}

#[test]
fn unreadable_settings_fall_back() {
    let src = ConfigSources {
        port: some("70000"),
        redis_require_tls: some("maybe"),
        redis_encrypt: some("0"),
        redis_enc_key_b64: some("AQID"),
        redis_url: some("redis://x/"),
        ..ConfigSources::default()
    };
    let c = SignalingServerConfig::from_sources(src);
    assert_eq!(c.listen_port, 8080);
    assert!(c.redis_require_tls);
    assert!(!c.redis_encrypt_payloads);
    assert_eq!(c.redis_encryption_key, None);
    assert!(!c.redis_url_allowed());
    let relaxed = SignalingServerConfig::from_sources(ConfigSources {
        redis_require_tls: some("false"),
        ..ConfigSources::default()
    });
    assert!(relaxed.redis_url_allowed());
}

#[test]
fn client_config_dto() {
    let mut d = SignalingClientConfigDto::default_client();
    assert_eq!(d.base_url, "http://127.0.0.1:8080");
    assert_eq!(d.heartbeat_interval_secs, 30);
    d.override_base_url("https://x".to_string());
    assert_eq!(d, SignalingClientConfigDto::new("https://x".to_string(), 30));
}

#[test]
fn store_key_layout() {
    assert_eq!(meta_key("sig", "abc"), "sig:mailbox_meta:abc");
    assert_eq!(list_key("sig", "abc"), "sig:mailbox_msgs:abc");
    assert_eq!(rendezvous_key("p", "tok"), "p:rendezvous:tok");
}

#[test]
fn numbers_in_text() {
    assert_eq!(decimal_text(0), "0");
    assert_eq!(decimal_text(1234), "1234");
    assert_eq!(parse_u64("18446744073709551615"), Some(u64::MAX));
    assert_eq!(parse_u64("18446744073709551616"), None);
    assert_eq!(parse_u64("+7"), Some(7));
    assert_eq!(parse_u64("+"), None);
    assert_eq!(parse_u64(""), None);
    assert_eq!(parse_u64("-1"), None);
    assert_eq!(parse_u64("1 "), None);
}

#[test]
fn defaults_match_empty_sources() {
    let d = SignalingServerConfig::defaults();
    let e = SignalingServerConfig::from_sources(ConfigSources::none());
    assert_eq!(d.listen_port, e.listen_port);
    assert_eq!(d.public_base_url, "http://127.0.0.1:8080");
    assert_eq!(d.redis_key_prefix, "sig");
    assert_eq!(d.mailbox_ttl_secs, 300);
    assert_eq!(d.client_config(), SignalingClientConfigDto::default_client());
}

#[test]
fn mailbox_ttl_has_a_floor() {
    let short = SignalingServerConfig::from_sources(ConfigSources { mailbox_ttl_secs: some("1"), ..ConfigSources::none() });
    assert_eq!(short.mailbox_ttl_secs, 300);
    let two = SignalingServerConfig::from_sources(ConfigSources { mailbox_ttl_secs: some("2"), ..ConfigSources::none() });
    assert_eq!(two.mailbox_ttl_secs, 2);
}
