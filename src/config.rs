//! Server configuration, read from optional settings with defaults.
use vstd::prelude::*;
use crate::encoding::{base64_standard_decoded, from_base64};
use crate::textops::{lower_of, lowercase, parse_u64, starts_with, text_eq, unsigned_value};

verus! {

pub const DEFAULT_LISTEN_PORT: u16 = 8080;

pub const DEFAULT_SESSION_TTL_SECS: u64 = 300;

pub const DEFAULT_HEARTBEAT_INTERVAL_SECS: u64 = 30;

pub const DEFAULT_ROOM_TTL_SECS: u64 = 30;

pub const DEFAULT_MAILBOX_TTL_SECS: u64 = 300;

/// The shortest mailbox lifetime that leaves a rendezvous mapping at least
/// a second to live.
pub const MIN_MAILBOX_TTL_SECS: u64 = 2;

pub const DEFAULT_REDIS_REQUIRE_TLS: bool = true;

pub const DEFAULT_JOINED_FLAG_TTL_SECS: u64 = 60;

pub const DEFAULT_REDIS_ENCRYPT: bool = false;

pub fn default_public_url() -> (r: String)
    ensures
        r@ == "http://127.0.0.1:8080"@,
{
    String::from_str("http://127.0.0.1:8080")
}

pub fn default_redis_url() -> (r: String)
    ensures
        r@ == "redis://127.0.0.1/"@,
{
    String::from_str("redis://127.0.0.1/")
}

pub fn default_key_prefix() -> (r: String)
    ensures
        r@ == "sig"@,
{
    String::from_str("sig")
}

/// What a client needs to know of the signaling server.
#[derive(Debug, Clone, PartialEq, Eq)]
pub struct SignalingClientConfigDto {
    pub base_url: String,
    pub heartbeat_interval_secs: u64,
}

impl SignalingClientConfigDto {
    pub fn new(base_url: String, heartbeat_interval_secs: u64) -> (r: Self)
        ensures
            r.base_url == base_url,
            r.heartbeat_interval_secs == heartbeat_interval_secs,
    {
        SignalingClientConfigDto { base_url, heartbeat_interval_secs }
    }

    /// The configuration a client starts from: the default public URL and
    /// heartbeat interval.
    pub fn default_client() -> (r: Self)
        ensures
            r.base_url@ == "http://127.0.0.1:8080"@,
            r.heartbeat_interval_secs == DEFAULT_HEARTBEAT_INTERVAL_SECS,
    {
        SignalingClientConfigDto::new(default_public_url(), DEFAULT_HEARTBEAT_INTERVAL_SECS)
    }

    /// Points the client at another server.
    pub fn override_base_url(&mut self, url: String)
        ensures
            final(self).base_url == url,
            final(self).heartbeat_interval_secs == old(self).heartbeat_interval_secs,
    {
        self.base_url = url;
    }

    /// A field-by-field copy with the same value.
    pub fn copy(&self) -> (r: Self)
        ensures
            r.base_url@ == self.base_url@,
            r.heartbeat_interval_secs == self.heartbeat_interval_secs,
    {
        SignalingClientConfigDto { base_url: self.base_url.clone(), heartbeat_interval_secs: self.heartbeat_interval_secs }
    }
}

/// The raw text of each setting, absent where it is not set.
#[derive(Debug, Clone, Default)]
pub struct ConfigSources {
    pub port: Option<String>,
    pub addr: Option<String>,
    pub public_url: Option<String>,
    pub session_ttl_secs: Option<String>,
    pub heartbeat_secs: Option<String>,
    pub redis_url: Option<String>,
    pub room_ttl_secs: Option<String>,
    pub mailbox_ttl_secs: Option<String>,
    pub redis_require_tls: Option<String>,
    pub redis_key_prefix: Option<String>,
    pub joined_flag_ttl_secs: Option<String>,
    pub redis_encrypt: Option<String>,
    pub redis_enc_key_b64: Option<String>,
}

impl ConfigSources {
    /// No setting given.
    pub fn none() -> (r: Self)
        ensures
            r.port is None && r.addr is None && r.public_url is None && r.session_ttl_secs is None,
            r.heartbeat_secs is None && r.redis_url is None && r.room_ttl_secs is None,
            r.mailbox_ttl_secs is None && r.redis_require_tls is None && r.redis_key_prefix is None,
            r.joined_flag_ttl_secs is None && r.redis_encrypt is None && r.redis_enc_key_b64 is None,
    {
        ConfigSources {
            port: None,
            addr: None,
            public_url: None,
            session_ttl_secs: None,
            heartbeat_secs: None,
            redis_url: None,
            room_ttl_secs: None,
            mailbox_ttl_secs: None,
            redis_require_tls: None,
            redis_key_prefix: None,
            joined_flag_ttl_secs: None,
            redis_encrypt: None,
            redis_enc_key_b64: None,
        }
    }
}

/// The server's configuration.
#[derive(Debug, Clone)]
pub struct SignalingServerConfig {
    pub listen_port: u16,
    /// The address to listen on, as given; the loopback address where it is
    /// absent or not an IP address.
    pub listen_addr_text: Option<String>,
    pub public_base_url: String,
    pub session_ttl_secs: u64,
    pub heartbeat_interval_secs: u64,
    pub redis_url: String,
    pub room_ttl_secs: u64,
    pub mailbox_ttl_secs: u64,
    pub redis_require_tls: bool,
    pub redis_key_prefix: String,
    pub joined_flag_ttl_secs: u64,
    pub redis_encrypt_payloads: bool,
    pub redis_encryption_key: Option<[u8; 32]>,
}

/// A number setting: its value where it reads as an unsigned number that
/// fits, else the default.
pub open spec fn number_setting(raw: Option<Seq<char>>, default: u64) -> u64 {
    match raw {
        Some(s) => match unsigned_value(s) {
            Some(v) => if v <= u64::MAX {
                v as u64
            } else {
                default
            },
            None => default,
        },
        None => default,
    }
}

/// The mailbox lifetime: a number setting, where one below the minimum
/// takes the default.
pub open spec fn mailbox_ttl_setting(raw: Option<Seq<char>>) -> u64 {
    let v = number_setting(raw, DEFAULT_MAILBOX_TTL_SECS);
    if v < MIN_MAILBOX_TTL_SECS {
        DEFAULT_MAILBOX_TTL_SECS
    } else {
        v
    }
}

/// A switch setting: "1", "true" or "yes" turn it on and "0", "false" or
/// "no" off, in any case; anything else leaves the default.
pub open spec fn flag_setting(raw: Option<Seq<char>>, default: bool) -> bool {
    match raw {
        Some(s) => {
            let l = lower_of(s);
            if l == "1"@ || l == "true"@ || l == "yes"@ {
                true
            } else if l == "0"@ || l == "false"@ || l == "no"@ {
                false
            } else {
                default
            }
        },
        None => default,
    }
}

pub open spec fn opt_text(o: Option<String>) -> Option<Seq<char>> {
    match o {
        Some(s) => Some(s@),
        None => None,
    }
}

pub fn read_number(raw: &Option<String>, default: u64) -> (r: u64)
    ensures
        r == number_setting(opt_text(*raw), default),
{
    match raw {
        Some(s) => match parse_u64(s.as_str()) {
            Some(v) => v,
            None => default,
        },
        None => default,
    }
}

pub fn read_flag(raw: &Option<String>, default: bool) -> (r: bool)
    ensures
        r == flag_setting(opt_text(*raw), default),
{
    match raw {
        Some(s) => {
            let l = lowercase(s.as_str());
            let t = l.as_str();
            if text_eq(t, "1") || text_eq(t, "true") || text_eq(t, "yes") {
                true
            } else if text_eq(t, "0") || text_eq(t, "false") || text_eq(t, "no") {
                false
            } else {
                default
            }
        },
        None => default,
    }
}

/// A text setting, or its default.
pub fn read_text(raw: Option<String>, default: String) -> (r: String)
    ensures
        r@ == match raw {
            Some(s) => s@,
            None => default@,
        },
{
    match raw {
        Some(s) => s,
        None => default,
    }
}

/// The listening port: the setting where it reads as a number below 65536.
pub open spec fn port_setting(raw: Option<Seq<char>>) -> u16 {
    match raw {
        Some(s) => match unsigned_value(s) {
            Some(v) => if v <= u16::MAX {
                v as u16
            } else {
                DEFAULT_LISTEN_PORT
            },
            None => DEFAULT_LISTEN_PORT,
        },
        None => DEFAULT_LISTEN_PORT,
    }
}

pub fn read_port(raw: &Option<String>) -> (r: u16)
    ensures
        r == port_setting(opt_text(*raw)),
{
    match raw {
        Some(s) => match parse_u64(s.as_str()) {
            Some(v) => if v <= 65535 {
                v as u16
            } else {
                DEFAULT_LISTEN_PORT
            },
            None => {
                proof {
                    let u = unsigned_value(s@);
                    if u is Some {
                        assert(u->Some_0 > u16::MAX);
                    }
                }
                DEFAULT_LISTEN_PORT
            },
        },
        None => DEFAULT_LISTEN_PORT,
    }
}

/// The store encryption key: the setting where it is standard base64 of
/// exactly 32 bytes.
pub open spec fn key_setting(raw: Option<Seq<char>>) -> Option<Seq<u8>> {
    match raw {
        Some(s) => match base64_standard_decoded(s) {
            Some(b) => if b.len() == 32 {
                Some(b)
            } else {
                None
            },
            None => None,
        },
        None => None,
    }
}

pub open spec fn opt_key_view(k: Option<[u8; 32]>) -> Option<Seq<u8>> {
    match k {
        Some(a) => Some(a@),
        None => None,
    }
}

pub fn read_key(raw: &Option<String>) -> (r: Option<[u8; 32]>)
    ensures
        opt_key_view(r) == key_setting(opt_text(*raw)),
{
    let bytes = match raw {
        Some(s) => match from_base64(s.as_str()) {
            Some(b) => b,
            None => {
                return None;
            },
        },
        None => {
            return None;
        },
    };
    if bytes.len() != 32 {
        return None;
    }
    let mut key = [0u8; 32];
    let mut i: usize = 0;
    while i < 32
        invariant
            i <= 32,
            bytes@.len() == 32,
            forall|j: int| 0 <= j < i ==> key@[j] == bytes@[j],
        decreases 32 - i,
    {
        key[i] = bytes[i];
        i = i + 1;
    }
    assert(key@ =~= bytes@);
    Some(key)
}

impl SignalingServerConfig {
    /// Builds the configuration from the raw settings; every absent or
    /// unreadable setting takes its default.
    pub fn from_sources(src: ConfigSources) -> (r: Self)
        ensures
            r.listen_port == port_setting(opt_text(src.port)),
            r.listen_addr_text == src.addr,
            r.public_base_url@ == match src.public_url {
                Some(s) => s@,
                None => "http://127.0.0.1:8080"@,
            },
            r.session_ttl_secs == number_setting(opt_text(src.session_ttl_secs), DEFAULT_SESSION_TTL_SECS),
            r.heartbeat_interval_secs == number_setting(
                opt_text(src.heartbeat_secs),
                DEFAULT_HEARTBEAT_INTERVAL_SECS,
            ),
            r.redis_url@ == match src.redis_url {
                Some(s) => s@,
                None => "redis://127.0.0.1/"@,
            },
            r.room_ttl_secs == number_setting(opt_text(src.room_ttl_secs), DEFAULT_ROOM_TTL_SECS),
            r.mailbox_ttl_secs == mailbox_ttl_setting(opt_text(src.mailbox_ttl_secs)),
            r.mailbox_ttl_secs >= MIN_MAILBOX_TTL_SECS,
            r.redis_require_tls == flag_setting(opt_text(src.redis_require_tls), DEFAULT_REDIS_REQUIRE_TLS),
            r.redis_key_prefix@ == match src.redis_key_prefix {
                Some(s) => s@,
                None => "sig"@,
            },
            r.joined_flag_ttl_secs == number_setting(
                opt_text(src.joined_flag_ttl_secs),
                DEFAULT_JOINED_FLAG_TTL_SECS,
            ),
            r.redis_encrypt_payloads == flag_setting(opt_text(src.redis_encrypt), DEFAULT_REDIS_ENCRYPT),
            opt_key_view(r.redis_encryption_key) == key_setting(opt_text(src.redis_enc_key_b64)),
    {
        let listen_port = read_port(&src.port);
        let session_ttl_secs = read_number(&src.session_ttl_secs, DEFAULT_SESSION_TTL_SECS);
        let heartbeat_interval_secs = read_number(&src.heartbeat_secs, DEFAULT_HEARTBEAT_INTERVAL_SECS);
        let room_ttl_secs = read_number(&src.room_ttl_secs, DEFAULT_ROOM_TTL_SECS);
        let given_mailbox_ttl = read_number(&src.mailbox_ttl_secs, DEFAULT_MAILBOX_TTL_SECS);
        let mailbox_ttl_secs = if given_mailbox_ttl < MIN_MAILBOX_TTL_SECS {
            DEFAULT_MAILBOX_TTL_SECS
        } else {
            given_mailbox_ttl
        };
        let redis_require_tls = read_flag(&src.redis_require_tls, DEFAULT_REDIS_REQUIRE_TLS);
        let joined_flag_ttl_secs = read_number(&src.joined_flag_ttl_secs, DEFAULT_JOINED_FLAG_TTL_SECS);
        let redis_encrypt_payloads = read_flag(&src.redis_encrypt, DEFAULT_REDIS_ENCRYPT);
        let redis_encryption_key = read_key(&src.redis_enc_key_b64);
        SignalingServerConfig {
            listen_port,
            listen_addr_text: src.addr,
            public_base_url: read_text(src.public_url, default_public_url()),
            session_ttl_secs,
            heartbeat_interval_secs,
            redis_url: read_text(src.redis_url, default_redis_url()),
            room_ttl_secs,
            mailbox_ttl_secs,
            redis_require_tls,
            redis_key_prefix: read_text(src.redis_key_prefix, default_key_prefix()),
            joined_flag_ttl_secs,
            redis_encrypt_payloads,
            redis_encryption_key,
        }
    }

    /// The configuration with every setting at its default.
    pub fn defaults() -> (r: Self)
        ensures
            r.listen_port == DEFAULT_LISTEN_PORT,
            r.listen_addr_text is None,
            r.public_base_url@ == "http://127.0.0.1:8080"@,
            r.session_ttl_secs == DEFAULT_SESSION_TTL_SECS,
            r.heartbeat_interval_secs == DEFAULT_HEARTBEAT_INTERVAL_SECS,
            r.redis_url@ == "redis://127.0.0.1/"@,
            r.room_ttl_secs == DEFAULT_ROOM_TTL_SECS,
            r.mailbox_ttl_secs == DEFAULT_MAILBOX_TTL_SECS,
            r.redis_require_tls == DEFAULT_REDIS_REQUIRE_TLS,
            r.redis_key_prefix@ == "sig"@,
            r.joined_flag_ttl_secs == DEFAULT_JOINED_FLAG_TTL_SECS,
            r.redis_encrypt_payloads == DEFAULT_REDIS_ENCRYPT,
            r.redis_encryption_key is None,
    {
        SignalingServerConfig::from_sources(ConfigSources::none())
    }

    /// What clients are told: the public URL and the heartbeat interval.
    pub fn client_config(&self) -> (r: SignalingClientConfigDto)
        ensures
            r.base_url@ == self.public_base_url@,
            r.heartbeat_interval_secs == self.heartbeat_interval_secs,
    {
        SignalingClientConfigDto::new(self.public_base_url.clone(), self.heartbeat_interval_secs)
    }

    /// Whether the store URL may be used: any URL where TLS is not
    /// required, else only a `rediss://` one.
    pub fn redis_url_allowed(&self) -> (r: bool)
        ensures
            r == (!self.redis_require_tls || (self.redis_url@.len() >= 9 && self.redis_url@.subrange(0, 9)
                == "rediss://"@)),
    {
        proof {
            reveal_strlit("rediss://");
        }
        !self.redis_require_tls || starts_with(self.redis_url.as_str(), "rediss://")
    }
}

} // verus!
