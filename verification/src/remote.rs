//! Which addresses this server will contact as a federation partner, and the
//! normal form it stores them in. A partner is reached over HTTPS unless the
//! configuration explicitly allows plain HTTP on a private network; it is
//! never a metadata service, and a private or special-use address needs
//! explicit allowance too.
use crate::crypto::{hex_lower, sha256_hex, sha256_of};
use crate::numeric::{format_i64, int_text};
use crate::security::{FederationSettings, SettingsView};
use crate::text::{
    ascii_lower, eq_ignore_ascii_case, is_ascii_hexdigit, spec_is_ascii_hexdigit, str_eq,
    to_ascii_lowercase, trim_end_char, trim_end_matches_char,
};
use url::Url;
use vstd::prelude::*;

verus! {

/// The parts of a URL that the rules here read.
#[derive(Debug)]
pub struct ParsedUrl {
    pub scheme: String,
    pub username: String,
    pub password: Option<String>,
    pub host: Option<String>,
    pub port: Option<u16>,
    pub path: String,
    pub query: Option<String>,
    /// The whole URL as `Url` serializes it once its query and fragment are
    /// removed.
    pub without_query_and_fragment: String,
    /// The whole URL as `Url` serializes it.
    pub href: String,
}

pub struct UrlView {
    pub scheme: Seq<char>,
    pub username: Seq<char>,
    pub password: Option<Seq<char>>,
    pub host: Option<Seq<char>>,
    pub port: Option<u16>,
    pub path: Seq<char>,
    pub query: Option<Seq<char>>,
    pub without_query_and_fragment: Seq<char>,
    pub href: Seq<char>,
}

pub open spec fn opt_view(o: Option<String>) -> Option<Seq<char>> {
    match o {
        Some(s) => Some(s@),
        None => None,
    }
}

impl View for ParsedUrl {
    type V = UrlView;

    open spec fn view(&self) -> UrlView {
        UrlView {
            scheme: self.scheme@,
            username: self.username@,
            password: opt_view(self.password),
            host: opt_view(self.host),
            port: self.port,
            path: self.path@,
            query: opt_view(self.query),
            without_query_and_fragment: self.without_query_and_fragment@,
            href: self.href@,
        }
    }
}

/// What `url::Url::parse` makes of a text, if it is a URL.
pub uninterp spec fn url_from_text(text: Seq<char>) -> Option<UrlView>;

/// `url::Url::parse`, with the result read through `scheme`, `username`,
/// `password`, `host_str`, `port`, `path`, `query` and `as_str`, and
/// serialized again with `as_str` after `set_query(None)` and
/// `set_fragment(None)`: the contract says the parts are the named parse of
/// the text, `None` where the crate reports an error.
#[verifier::external_body]
pub(crate) fn parse_url(text: &str) -> (url: Option<ParsedUrl>)
    ensures
        url matches Some(u) ==> url_from_text(text@) == Some(u@),
        url is None ==> url_from_text(text@) is None,
{
    let Ok(url) = Url::parse(text) else { return None };
    let mut bare = url.clone();
    bare.set_query(None);
    bare.set_fragment(None);
    Some(ParsedUrl {
        scheme: url.scheme().to_string(),
        username: url.username().to_string(),
        password: url.password().map(ToString::to_string),
        host: url.host_str().map(ToString::to_string),
        port: url.port(),
        path: url.path().to_string(),
        query: url.query().map(ToString::to_string),
        without_query_and_fragment: bare.as_str().to_string(),
        href: url.as_str().to_string(),
    })
}

/// An IP address by its octets or segments.
#[derive(Debug)]
pub enum IpAddress {
    V4(u8, u8, u8, u8),
    V6(u16, u16, u16, u16, u16, u16, u16, u16),
}

/// What `str::parse::<IpAddr>` makes of a text, if it is an address.
pub uninterp spec fn ip_from_text(text: Seq<char>) -> Option<IpAddress>;

/// `str::parse::<std::net::IpAddr>`, read through `octets` and `segments`: the
/// contract says the address is the named parse of the text.
#[verifier::external_body]
fn parse_ip(text: &str) -> (ip: Option<IpAddress>)
    ensures
        ip == ip_from_text(text@),
{
    match text.parse::<core::net::IpAddr>() {
        Ok(core::net::IpAddr::V4(v4)) => {
            let [a, b, c, d] = v4.octets();
            Some(IpAddress::V4(a, b, c, d))
        },
        Ok(core::net::IpAddr::V6(v6)) => {
            let [a, b, c, d, e, f, g, h] = v6.segments();
            Some(IpAddress::V6(a, b, c, d, e, f, g, h))
        },
        Err(_) => None,
    }
}

/// The cloud metadata service, 169.254.169.254.
pub open spec fn spec_is_metadata_ip(ip: IpAddress) -> bool {
    ip == IpAddress::V4(169, 254, 169, 254)
}

/// Loopback, link-local, multicast, unspecified, broadcast, documentation or
/// private IPv4 addresses, as `Ipv4Addr` documents each class.
pub open spec fn spec_is_special_v4(a: u8, b: u8, c: u8, d: u8) -> bool {
    ||| a == 127
    ||| (a == 169 && b == 254)
    ||| (224 <= a && a <= 239)
    ||| (a == 0 && b == 0 && c == 0 && d == 0)
    ||| (a == 255 && b == 255 && c == 255 && d == 255)
    ||| (a == 192 && b == 0 && c == 2)
    ||| (a == 198 && b == 51 && c == 100)
    ||| (a == 203 && b == 0 && c == 113)
    ||| a == 10
    ||| (a == 172 && 16 <= b && b <= 31)
    ||| (a == 192 && b == 168)
}

/// Loopback, multicast, unspecified, unique-local (fc00::/7) or link-local
/// (fe80::/10) IPv6 addresses.
pub open spec fn spec_is_special_v6(s0: u16, s1: u16, s2: u16, s3: u16, s4: u16, s5: u16, s6: u16, s7: u16) -> bool {
    let zero_prefix = s0 == 0 && s1 == 0 && s2 == 0 && s3 == 0 && s4 == 0 && s5 == 0 && s6 == 0;
    ||| (zero_prefix && s7 == 1)
    ||| s0 & 0xff00 == 0xff00
    ||| (zero_prefix && s7 == 0)
    ||| s0 & 0xfe00 == 0xfc00
    ||| s0 & 0xffc0 == 0xfe80
}

pub open spec fn spec_is_special(ip: IpAddress) -> bool {
    match ip {
        IpAddress::V4(a, b, c, d) => spec_is_special_v4(a, b, c, d),
        IpAddress::V6(s0, s1, s2, s3, s4, s5, s6, s7) => spec_is_special_v6(
            s0,
            s1,
            s2,
            s3,
            s4,
            s5,
            s6,
            s7,
        ),
    }
}

pub fn is_metadata_ip(ip: &IpAddress) -> (r: bool)
    ensures
        r == spec_is_metadata_ip(*ip),
{
    match ip {
        IpAddress::V4(a, b, c, d) => *a == 169 && *b == 254 && *c == 169 && *d == 254,
        IpAddress::V6(..) => false,
    }
}

/// The fc00::/7 block.
pub fn is_ipv6_unique_local(first_segment: u16) -> (r: bool)
    ensures
        r == (first_segment & 0xfe00 == 0xfc00),
{
    (first_segment & 0xfe00) == 0xfc00
}

/// The fe80::/10 block.
pub fn is_ipv6_link_local(first_segment: u16) -> (r: bool)
    ensures
        r == (first_segment & 0xffc0 == 0xfe80),
{
    (first_segment & 0xffc0) == 0xfe80
}

fn is_special(ip: &IpAddress) -> (r: bool)
    ensures
        r == spec_is_special(*ip),
{
    match ip {
        IpAddress::V4(a, b, c, d) => {
            let (a, b, c, d) = (*a, *b, *c, *d);
            a == 127 || (a == 169 && b == 254) || (224 <= a && a <= 239) || (a == 0 && b == 0 && c
                == 0 && d == 0) || (a == 255 && b == 255 && c == 255 && d == 255) || (a == 192 && b
                == 0 && c == 2) || (a == 198 && b == 51 && c == 100) || (a == 203 && b == 0 && c
                == 113) || a == 10 || (a == 172 && 16 <= b && b <= 31) || (a == 192 && b == 168)
        },
        IpAddress::V6(s0, s1, s2, s3, s4, s5, s6, s7) => {
            let zero_prefix = *s0 == 0 && *s1 == 0 && *s2 == 0 && *s3 == 0 && *s4 == 0 && *s5 == 0
                && *s6 == 0;
            (zero_prefix && *s7 == 1) || (*s0 & 0xff00) == 0xff00 || (zero_prefix && *s7 == 0)
                || is_ipv6_unique_local(*s0) || is_ipv6_link_local(*s0)
        },
    }
}

pub open spec fn spec_validate_remote_ip(ip: IpAddress, settings: SettingsView, allowlisted: bool) -> Result<(), Seq<char>> {
    if spec_is_metadata_ip(ip) {
        Err("Metadata service IPs are not allowed as federation targets"@)
    } else if spec_is_special(ip) && !(settings.allow_insecure_private_network || allowlisted) {
        Err("Private or special-use federation target IPs require explicit allowance"@)
    } else {
        Ok(())
    }
}

/// A literal IP target must not be the metadata service, and a private or
/// special-use one needs private networks allowed or the host allowlisted.
pub fn validate_remote_ip(ip: &IpAddress, settings: &FederationSettings, allowlisted: bool) -> (r: Result<(), String>)
    ensures
        match spec_validate_remote_ip(*ip, settings@, allowlisted) {
            Ok(()) => r is Ok,
            Err(m) => r matches Err(e) && e@ == m,
        },
{
    if is_metadata_ip(ip) {
        return Err(String::from_str("Metadata service IPs are not allowed as federation targets"));
    }
    if is_special(ip) && !(settings.allow_insecure_private_network || allowlisted) {
        return Err(
            String::from_str("Private or special-use federation target IPs require explicit allowance"),
        );
    }
    Ok(())
}

/// The host as the allowlist is matched against it: with `:port` when the
/// URL names a port.
pub open spec fn host_with_port(host: Seq<char>, port: Option<u16>) -> Seq<char> {
    match port {
        Some(p) => host + ":"@ + int_text(p as int),
        None => host,
    }
}

/// Some entry of the allowlist, lowercased, is the host or the host with its
/// port.
pub open spec fn spec_allowlisted(allowed: Seq<Seq<char>>, host: Seq<char>, with_port: Seq<char>) -> bool {
    exists|i: int|
        0 <= i < allowed.len() && (ascii_lower(#[trigger] allowed[i]) == host || ascii_lower(
            allowed[i],
        ) == with_port)
}

/// Whether a parsed URL may be contacted as a federation partner, and if not
/// the reason given.
pub open spec fn spec_validate_remote_url(url: UrlView, settings: SettingsView) -> Result<(), Seq<char>> {
    let http_allowed = !settings.require_https && settings.allow_insecure_private_network;
    if url.scheme == "http"@ && !http_allowed {
        Err("HTTP federation URLs are not allowed by this configuration"@)
    } else if url.scheme != "https"@ && url.scheme != "http"@ {
        Err("Federation URL must use http or https"@)
    } else if url.username.len() > 0 || url.password is Some {
        Err("Federation URL cannot contain credentials"@)
    } else {
        match url.host {
            None => Err("Federation URL must include a host"@),
            Some(h) => {
                let host = ascii_lower(h);
                let allowlisted = spec_allowlisted(
                    settings.allowed_remote_hosts,
                    host,
                    host_with_port(host, url.port),
                );
                if settings.allowed_remote_hosts.len() > 0 && !allowlisted {
                    Err("Remote host is not in federation allowed_remote_hosts"@)
                } else if host == "localhost"@ {
                    if settings.allow_insecure_private_network || allowlisted {
                        Ok(())
                    } else {
                        Err("Localhost federation URLs are not allowed"@)
                    }
                } else {
                    let ip_check = match ip_from_text(host) {
                        Some(ip) => spec_validate_remote_ip(ip, settings, allowlisted),
                        None => Ok(()),
                    };
                    if ip_check is Err {
                        ip_check
                    } else if url.scheme == "http"@ && !settings.allow_insecure_private_network
                        && !allowlisted {
                        Err("HTTP federation URLs require explicit private-network allowance"@)
                    } else {
                        Ok(())
                    }
                }
            },
        }
    }
}

pub open spec fn text_result(r: Result<(), String>) -> Result<(), Seq<char>> {
    match r {
        Ok(()) => Ok(()),
        Err(e) => Err(e@),
    }
}

fn host_allowlisted(allowed: &Vec<String>, host: &str, with_port: &str) -> (r: bool)
    ensures
        r == spec_allowlisted(allowed@.map_values(|h: String| h@), host@, with_port@),
{
    let ghost view = allowed@.map_values(|h: String| h@);
    let mut i: usize = 0;
    while i < allowed.len()
        invariant
            i <= allowed.len(),
            view == allowed@.map_values(|h: String| h@),
            forall|k: int|
                0 <= k < i ==> !(ascii_lower(#[trigger] view[k]) == host@ || ascii_lower(view[k])
                    == with_port@),
        decreases allowed.len() - i,
    {
        let lower = to_ascii_lowercase(allowed[i].as_str());
        assert(view[i as int] == allowed@[i as int]@);
        if str_eq(lower.as_str(), host) || str_eq(lower.as_str(), with_port) {
            return true;
        }
        i = i + 1;
    }
    false
}

/// Whether `url` may be contacted as a federation partner under `settings`:
/// over HTTPS, or plain HTTP where the configuration allows it on a private
/// network; without credentials; on an allowlisted host where there is an
/// allowlist; and not on localhost, the metadata service or a private address
/// unless that is allowed.
pub fn validate_remote_url(url: &ParsedUrl, settings: &FederationSettings) -> (r: Result<(), String>)
    ensures
        text_result(r) == spec_validate_remote_url(url@, settings@),
{
    let is_https = str_eq(url.scheme.as_str(), "https");
    let is_http = str_eq(url.scheme.as_str(), "http");
    if is_http && !(!settings.require_https && settings.allow_insecure_private_network) {
        return Err(String::from_str("HTTP federation URLs are not allowed by this configuration"));
    }
    if !is_https && !is_http {
        return Err(String::from_str("Federation URL must use http or https"));
    }
    if url.username.unicode_len() > 0 || url.password.is_some() {
        return Err(String::from_str("Federation URL cannot contain credentials"));
    }
    let raw_host = match &url.host {
        Some(h) => h,
        None => {
            return Err(String::from_str("Federation URL must include a host"));
        },
    };
    let host = to_ascii_lowercase(raw_host.as_str());
    let mut with_port = host.clone();
    match url.port {
        Some(p) => {
            with_port.append(":");
            let digits = format_i64(p as i64);
            with_port.append(digits.as_str());
        },
        None => {},
    }
    assert(with_port@ == host_with_port(host@, url.port));
    let allowlisted = host_allowlisted(&settings.allowed_remote_hosts, host.as_str(), with_port.as_str());
    if settings.allowed_remote_hosts.len() > 0 && !allowlisted {
        return Err(String::from_str("Remote host is not in federation allowed_remote_hosts"));
    }
    if str_eq(host.as_str(), "localhost") {
        if settings.allow_insecure_private_network || allowlisted {
            return Ok(());
        }
        return Err(String::from_str("Localhost federation URLs are not allowed"));
    }
    match parse_ip(host.as_str()) {
        Some(ip) => {
            match validate_remote_ip(&ip, settings, allowlisted) {
                Ok(()) => {},
                Err(e) => {
                    return Err(e);
                },
            }
        },
        None => {},
    }
    if is_http && !settings.allow_insecure_private_network && !allowlisted {
        return Err(
            String::from_str("HTTP federation URLs require explicit private-network allowance"),
        );
    }
    Ok(())
}

pub open spec fn spec_normalize_base_url(input: Seq<char>, settings: SettingsView) -> Result<Seq<char>, Seq<char>> {
    match url_from_text(input) {
        None => Err("Invalid remote base URL"@),
        Some(url) => match spec_validate_remote_url(url, settings) {
            Err(m) => Err(m),
            Ok(()) => if url.path != "/"@ && url.path.len() > 0 {
                Err("Remote base URL cannot include a path"@)
            } else {
                Ok(trim_end_char(url.without_query_and_fragment, '/'))
            },
        },
    }
}

/// The form in which a partner's base URL is stored: the URL as the `url`
/// crate serializes it, without query, fragment or trailing slash, once it
/// has passed `validate_remote_url` and shown that it has no path.
pub fn normalize_base_url(input: &str, settings: &FederationSettings) -> (r: Result<String, String>)
    ensures
        match spec_normalize_base_url(input@, settings@) {
            Ok(v) => r matches Ok(s) && s@ == v,
            Err(m) => r matches Err(e) && e@ == m,
        },
{
    let url = match parse_url(input) {
        Some(url) => url,
        None => {
            return Err(String::from_str("Invalid remote base URL"));
        },
    };
    match validate_remote_url(&url, settings) {
        Ok(()) => {},
        Err(e) => {
            return Err(e);
        },
    }
    if !str_eq(url.path.as_str(), "/") && url.path.unicode_len() > 0 {
        return Err(String::from_str("Remote base URL cannot include a path"));
    }
    Ok(trim_end_matches_char(url.without_query_and_fragment.as_str(), '/'))
}

pub open spec fn spec_valid_tls_pin(value: Seq<char>) -> bool {
    value.len() == 64 && forall|i: int| 0 <= i < value.len() ==> spec_is_ascii_hexdigit(#[trigger] value[i])
}

/// A certificate pin, where one is given, is the SHA-256 of the certificate
/// as 64 hex digits.
pub fn validate_tls_pin_value(value: Option<&str>) -> (r: Result<(), String>)
    ensures
        match value {
            Some(v) if !spec_valid_tls_pin(v@) => r matches Err(e) && e@
                == "TLS certificate SHA-256 pin must be 64 hex characters"@,
            _ => r is Ok,
        },
{
    match value {
        None => Ok(()),
        Some(v) => {
            let n = v.unicode_len();
            let mut valid = n == 64;
            let mut i: usize = 0;
            while i < n
                invariant
                    n == v@.len(),
                    i <= n,
                    valid == (n == 64 && forall|k: int|
                        0 <= k < i ==> spec_is_ascii_hexdigit(#[trigger] v@[k])),
                decreases n - i,
            {
                if !is_ascii_hexdigit(v.get_char(i)) {
                    valid = false;
                }
                i = i + 1;
            }
            if valid {
                Ok(())
            } else {
                Err(String::from_str("TLS certificate SHA-256 pin must be 64 hex characters"))
            }
        },
    }
}

/// What the TLS layer reported of the peer a response came from.
#[derive(Debug)]
pub enum PeerCertificate {
    /// The response carried no TLS information.
    InfoUnavailable,
    /// The TLS information held no peer certificate.
    CertificateUnavailable,
    /// The peer's certificate, DER-encoded.
    Der(Vec<u8>),
}

pub open spec fn spec_verify_tls_pin(peer: PeerCertificate, expected_pin: Option<Seq<char>>) -> Result<(), Seq<char>> {
    match expected_pin {
        None => Ok(()),
        Some(pin) => match peer {
            PeerCertificate::InfoUnavailable => Err(
                "TLS peer certificate information is unavailable"@,
            ),
            PeerCertificate::CertificateUnavailable => Err("TLS peer certificate is unavailable"@),
            PeerCertificate::Der(der) => if ascii_lower(hex_lower(sha256_of(der@))) == ascii_lower(
                pin,
            ) {
                Ok(())
            } else {
                Err("Remote TLS certificate pin does not match"@)
            },
        },
    }
}

/// Where a partner is pinned to a certificate, the peer's certificate must
/// hash to the pin, compared without regard to the case of the hex digits.
pub fn verify_tls_pin(peer: &PeerCertificate, expected_pin: Option<&str>) -> (r: Result<(), String>)
    ensures
        text_result(r) == spec_verify_tls_pin(*peer, match expected_pin {
            Some(p) => Some(p@),
            None => None,
        }),
{
    let pin = match expected_pin {
        None => {
            return Ok(());
        },
        Some(p) => p,
    };
    match peer {
        PeerCertificate::InfoUnavailable => Err(
            String::from_str("TLS peer certificate information is unavailable"),
        ),
        PeerCertificate::CertificateUnavailable => Err(
            String::from_str("TLS peer certificate is unavailable"),
        ),
        PeerCertificate::Der(der) => {
            let actual = sha256_hex(der.as_slice());
            if eq_ignore_ascii_case(actual.as_str(), pin) {
                Ok(())
            } else {
                Err(String::from_str("Remote TLS certificate pin does not match"))
            }
        },
    }
}

pub proof fn lemma_trim_end_char_last(s: Seq<char>, c: char)
    ensures
        trim_end_char(s, c).len() == 0 || trim_end_char(s, c).last() != c,
    decreases s.len(),
{
    if s.len() > 0 && s.last() == c {
        lemma_trim_end_char_last(s.drop_last(), c);
    }
}

/// A stored base URL never ends with a slash, so paths can be appended to
/// it as they are.
pub proof fn normalized_base_urls_have_no_trailing_slash(input: Seq<char>, settings: SettingsView)
    ensures
        spec_normalize_base_url(input, settings) matches Ok(u) ==> u.len() == 0 || u.last() != '/',
{
    if let Some(url) = url_from_text(input) {
        lemma_trim_end_char_last(url.without_query_and_fragment, '/');
    }
}

/// Plain HTTP is refused unless the configuration allows private networks.
pub proof fn plain_http_needs_private_network_allowance(url: UrlView, settings: SettingsView)
    requires
        url.scheme == "http"@,
        !settings.allow_insecure_private_network,
    ensures
        spec_validate_remote_url(url, settings) is Err,
{
}

/// A URL that carries credentials is never contacted.
pub proof fn credentials_are_never_sent(url: UrlView, settings: SettingsView)
    requires
        url.username.len() > 0 || url.password is Some,
    ensures
        spec_validate_remote_url(url, settings) is Err,
{
}

/// The cloud metadata service is never contacted, whatever the allowlist
/// or the configuration say (for a host other than `localhost`, the one
/// name that is judged before addresses are).
pub proof fn metadata_service_is_never_contacted(url: UrlView, settings: SettingsView)
    requires
        url.host matches Some(h) && ascii_lower(h) != "localhost"@ && ip_from_text(ascii_lower(h))
            == Some(IpAddress::V4(169, 254, 169, 254)),
    ensures
        spec_validate_remote_url(url, settings) is Err,
{
}

/// A literal address is contacted only where it is not the metadata
/// service and, where it is loopback, private or otherwise special, only
/// with private networks allowed or the host allowlisted. Among the special
/// ones are loopback, the private ranges, link-local and IPv6 unique-local
/// addresses; an ordinary public address is not.
pub proof fn remote_addresses_need_allowance_when_special(ip: IpAddress, settings: SettingsView, allowlisted: bool)
    ensures
        spec_validate_remote_ip(ip, settings, allowlisted) is Ok <==> (ip != IpAddress::V4(169, 254, 169, 254)
            && (!spec_is_special(ip) || settings.allow_insecure_private_network || allowlisted)),
        spec_is_special(IpAddress::V4(127, 0, 0, 1)),
        spec_is_special(IpAddress::V4(10, 1, 2, 3)),
        spec_is_special(IpAddress::V4(172, 16, 0, 1)),
        spec_is_special(IpAddress::V4(192, 168, 1, 1)),
        spec_is_special(IpAddress::V4(169, 254, 1, 1)),
        !spec_is_special(IpAddress::V4(8, 8, 8, 8)),
        !spec_is_special(IpAddress::V4(172, 32, 0, 1)),
        spec_is_special(IpAddress::V6(0, 0, 0, 0, 0, 0, 0, 1)),
        spec_is_special(IpAddress::V6(0xfd00, 0, 0, 0, 0, 0, 0, 1)),
        spec_is_special(IpAddress::V6(0xfe80, 0, 0, 0, 0, 0, 0, 1)),
        !spec_is_special(IpAddress::V6(0x2001, 0x4860, 0, 0, 0, 0, 0, 0x8888)),
{
    assert(0xfd00u16 & 0xfe00u16 == 0xfc00u16) by (bit_vector);
    assert(0xfe80u16 & 0xffc0u16 == 0xfe80u16) by (bit_vector);
    assert(0x2001u16 & 0xff00u16 != 0xff00u16) by (bit_vector);
    assert(0x2001u16 & 0xfe00u16 != 0xfc00u16) by (bit_vector);
    assert(0x2001u16 & 0xffc0u16 != 0xfe80u16) by (bit_vector);
}

/// A partner URL is accepted only over HTTPS, or over HTTP where the
/// configuration neither requires HTTPS nor forbids private networks; never
/// with credentials; only with a host; and, where an allowlist is set, only
/// for a host on it.
pub proof fn remote_urls_are_secure_and_allowed(url: UrlView, settings: SettingsView)
    ensures
        spec_validate_remote_url(url, settings) is Ok ==> {
            &&& url.scheme == "https"@ || (url.scheme == "http"@ && !settings.require_https
                && settings.allow_insecure_private_network)
            &&& url.username.len() == 0 && url.password is None
            &&& url.host is Some
            &&& settings.allowed_remote_hosts.len() > 0 ==> spec_allowlisted(
                settings.allowed_remote_hosts,
                ascii_lower(url.host->Some_0),
                host_with_port(ascii_lower(url.host->Some_0), url.port),
            )
        },
{
}

/// A base URL is stored only where it parses, may be contacted, and has no
/// path beyond `/`; it is then stored as the parsed URL without query,
/// fragment or trailing slash.
pub proof fn base_urls_are_stored_as_parsed(input: Seq<char>, settings: SettingsView)
    ensures
        spec_normalize_base_url(input, settings) matches Ok(u) ==> {
            &&& url_from_text(input) is Some
            &&& spec_validate_remote_url(url_from_text(input)->Some_0, settings) is Ok
            &&& (url_from_text(input)->Some_0.path == "/"@ || url_from_text(input)->Some_0.path.len() == 0)
            &&& u == trim_end_char(url_from_text(input)->Some_0.without_query_and_fragment, '/')
        },
        url_from_text(input) is None ==> spec_normalize_base_url(input, settings) == Err::<
            Seq<char>,
            Seq<char>,
        >("Invalid remote base URL"@),
{
}

/// Without a pin any certificate is accepted; with one, only a certificate
/// whose SHA-256, in hex, equals the pin regardless of case.
pub proof fn pinned_partners_must_present_their_certificate(peer: PeerCertificate, pin: Option<Seq<char>>)
    ensures
        pin is None ==> spec_verify_tls_pin(peer, pin) is Ok,
        pin is Some ==> (spec_verify_tls_pin(peer, pin) is Ok <==> (peer matches PeerCertificate::Der(der)
            && ascii_lower(hex_lower(sha256_of(der@))) == ascii_lower(pin->Some_0))),
{
}

} // verus!
