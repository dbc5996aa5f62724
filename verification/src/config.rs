//! Configuration values: the process-wide settings, the routing table and the
//! rule by which a host selects its backend.

use crate::error::StringError;
use crate::headers::{byte_rows, text_bytes};
use crate::pattern::{glob_matches, wildcard_match};
use crate::text::concat3;
use vstd::prelude::*;

verus! {

/// The settings that hold for the life of the process.
#[derive(Debug)]
pub struct StaticConfig {
    pub config_file: String,
    pub http_port: u16,
    pub https_port: u16,
}

/// The number that a run of decimal digits writes.
pub open spec fn decimal_value(digits: Seq<char>) -> nat
    decreases digits.len(),
{
    if digits.len() == 0 {
        0
    } else {
        decimal_value(digits.drop_last()) * 10 + (digits.last() as nat - '0' as nat) as nat
    }
}

/// A non-empty run of decimal digits.
pub open spec fn is_decimal(digits: Seq<char>) -> bool {
    &&& digits.len() > 0
    &&& forall|i: int| 0 <= i < digits.len() ==> '0' <= #[trigger] digits[i] && digits[i] <= '9'
}

/// The text without the plus sign that may stand in front of a number.
pub open spec fn unsigned_digits(text: Seq<char>) -> Seq<char> {
    if text.len() > 0 && text[0] == '+' {
        text.skip(1)
    } else {
        text
    }
}

/// The port that a text writes: decimal digits, a plus sign allowed in
/// front, naming a number that fits sixteen bits. Any other text writes none.
pub open spec fn port_value(text: Seq<char>) -> Option<u16> {
    let digits = unsigned_digits(text);
    if is_decimal(digits) && decimal_value(digits) <= 65535 {
        Some(decimal_value(digits) as u16)
    } else {
        None
    }
}

/// The words with which `str::parse::<u16>` refuses a text that writes no
/// port.
pub uninterp spec fn port_refusal(text: Seq<char>) -> Seq<char>;

/// What parsing a port setting gives: the port, or the words of the refusal.
pub open spec fn port_parse(text: Seq<char>) -> Result<u16, Seq<char>> {
    match port_value(text) {
        Some(port) => Ok(port),
        None => Err(port_refusal(text)),
    }
}

/// `str::parse::<u16>`, its error printed. It accepts decimal digits with an
/// optional plus sign in front whose number fits the type, and nothing else;
/// the words of a refusal depend on the text alone.
#[verifier::external_body]
pub(crate) fn parse_port(text: &str) -> (parsed: Result<u16, String>)
    ensures
        match parsed {
            Ok(port) => port_value(text@) == Some(port),
            Err(reason) => port_value(text@).is_none() && reason@ == port_refusal(text@),
        },
{
    text.parse::<u16>().map_err(|error| error.to_string())
}

/// The view of a port setting that was read and parsed.
pub open spec fn parsed_view(parsed: Option<Result<u16, String>>) -> Option<Result<u16, Seq<char>>> {
    match parsed {
        Some(Ok(port)) => Some(Ok(port)),
        Some(Err(reason)) => Some(Err(reason@)),
        None => None,
    }
}

/// The outcome of parsing a port setting that may be unset.
pub open spec fn setting_parse(text: Option<&str>) -> Option<Result<u16, Seq<char>>> {
    match text {
        Some(t) => Some(port_parse(t@)),
        None => None,
    }
}

/// The settings as numbers and text, or the message of the first setting
/// that was refused. An unset file name stands for `config.toml`, an unset
/// plaintext port for 8080, an unset secure port for 8443.
pub open spec fn static_settings(
    config_file: Option<Seq<char>>,
    http: Option<Result<u16, Seq<char>>>,
    https: Option<Result<u16, Seq<char>>>,
) -> Result<(Seq<char>, u16, u16), Seq<char>> {
    let file = match config_file {
        Some(name) => name,
        None => "config.toml"@,
    };
    match http {
        Some(Err(reason)) => Err("HTTP_PORT must be a valid port: "@ + reason),
        _ => match https {
            Some(Err(reason)) => Err("HTTPS_PORT must be a valid port: "@ + reason),
            _ => Ok(
                (
                    file,
                    match http {
                        Some(Ok(port)) => port,
                        _ => 8080u16,
                    },
                    match https {
                        Some(Ok(port)) => port,
                        _ => 8443u16,
                    },
                ),
            ),
        },
    }
}

/// The view of an optional owned text.
pub open spec fn owned_text(text: Option<String>) -> Option<Seq<char>> {
    match text {
        Some(t) => Some(t@),
        None => None,
    }
}

impl StaticConfig {
    /// Whether these settings are the ones that `static_settings` describes.
    pub open spec fn is_outcome(
        loaded: Result<StaticConfig, StringError>,
        expected: Result<(Seq<char>, u16, u16), Seq<char>>,
    ) -> bool {
        match expected {
            Ok((file, http, https)) => loaded.is_ok() && loaded.unwrap().config_file@ == file
                && loaded.unwrap().http_port == http && loaded.unwrap().https_port == https,
            Err(message) => loaded.is_err() && loaded.unwrap_err()@ == message,
        }
    }

    /// The settings from the file name and the two port texts as they were
    /// read, each of them absent where it is unset.
    pub fn load(
        config_file: Option<String>,
        http_port: Option<&str>,
        https_port: Option<&str>,
    ) -> (loaded: Result<Self, StringError>)
        ensures
            Self::is_outcome(
                loaded,
                static_settings(
                    owned_text(config_file),
                    setting_parse(http_port),
                    setting_parse(https_port),
                ),
            ),
    {
        let http = match http_port {
            Some(text) => Some(parse_port(text)),
            None => None,
        };
        let https = match https_port {
            Some(text) => Some(parse_port(text)),
            None => None,
        };
        Self::from_parsed(config_file, http, https)
    }

    /// The settings from the file name and the two ports as they were
    /// parsed, each absent, a number, or the words of a refusal.
    pub fn from_parsed(
        config_file: Option<String>,
        http: Option<Result<u16, String>>,
        https: Option<Result<u16, String>>,
    ) -> (loaded: Result<Self, StringError>)
        ensures
            Self::is_outcome(
                loaded,
                static_settings(owned_text(config_file), parsed_view(http), parsed_view(https)),
            ),
    {
        proof {
            reveal_strlit("");
        }
        let http_port: u16 = match http {
            Some(Ok(port)) => port,
            Some(Err(reason)) => {
                let message = concat3("HTTP_PORT must be a valid port: ", reason.as_str(), "");
                assert(message@ =~= "HTTP_PORT must be a valid port: "@ + reason@);
                return Err(StringError::new(message));
            },
            None => 8080,
        };
        let https_port: u16 = match https {
            Some(Ok(port)) => port,
            Some(Err(reason)) => {
                let message = concat3("HTTPS_PORT must be a valid port: ", reason.as_str(), "");
                assert(message@ =~= "HTTPS_PORT must be a valid port: "@ + reason@);
                return Err(StringError::new(message));
            },
            None => 8443,
        };
        let file = match config_file {
            Some(name) => name,
            None => "config.toml".to_owned(),
        };
        Ok(Self { config_file: file, http_port, https_port })
    }
}

/// The protocols offered during the TLS handshake, most preferred first.
pub open spec fn alpn_list() -> Seq<Seq<u8>> {
    seq![
        text_bytes("h2"@),
        text_bytes("http/1.1"@),
        text_bytes("http/1.0"@),
    ]
}

/// The bytes of a text.
fn bytes_of(text: &str) -> (bytes: Vec<u8>)
    ensures
        bytes@ == text_bytes(text@),
{
    vstd::slice::slice_to_vec(text.as_bytes())
}

/// The protocols to offer during the TLS handshake, most preferred first:
/// HTTP/2, then HTTP/1.1, then HTTP/1.0.
pub fn alpn_protocols() -> (protocols: Vec<Vec<u8>>)
    ensures
        byte_rows(protocols@) == alpn_list(),
{
    let mut protocols: Vec<Vec<u8>> = Vec::new();
    protocols.push(bytes_of("h2"));
    protocols.push(bytes_of("http/1.1"));
    protocols.push(bytes_of("http/1.0"));
    assert(byte_rows(protocols@) =~= alpn_list());
    protocols
}

/// A numeric socket address of a backend, as plain numbers.
#[derive(Clone, Copy, Debug, PartialEq, Eq, Structural)]
pub enum BackendAddress {
    /// An IPv4 address, its four octets as one big-endian number, and a port.
    V4 { bits: u32, port: u16 },
    /// An IPv6 address, its sixteen octets as one big-endian number, a port,
    /// and the flow information and scope the address was written with.
    V6 { segments: u128, port: u16, flowinfo: u32, scope_id: u32 },
}

/// One entry of the routing table: a host pattern and the backend it selects.
#[derive(Clone, Debug, PartialEq, Eq)]
pub struct RouteConfig {
    pub host: String,
    pub address: BackendAddress,
}

/// A routing entry as it is written in the configuration file.
#[derive(Clone, Debug)]
pub struct RouteConfigUnchecked {
    pub host: String,
    pub address: String,
}

/// The text before the address in the message of a route that was refused.
pub open spec fn address_error_prefix() -> Seq<char> {
    "Failed to parse address "@
}

/// The message of a route whose address text was refused for `reason`.
pub open spec fn address_error(address: Seq<char>, reason: Seq<char>) -> Seq<char> {
    address_error_prefix() + address + ": "@ + reason
}

/// The outcome of reading an address text, as a mathematical value.
pub open spec fn reason_view(parsed: Result<BackendAddress, String>) -> Result<
    BackendAddress,
    Seq<char>,
> {
    match parsed {
        Ok(backend) => Ok(backend),
        Err(reason) => Err(reason@),
    }
}

/// A written routing entry together with the outcome of reading its address.
pub struct RouteEntry {
    pub written: RouteConfigUnchecked,
    pub parsed: Result<BackendAddress, String>,
}

impl RouteConfig {
    /// Whether this entry's pattern matches the host.
    pub open spec fn matches_host(&self, host: Seq<char>) -> bool {
        glob_matches(self.host@, host)
    }

    /// The route that a written entry stands for, once its address text has
    /// been read as a socket address: the entry's pattern with the address
    /// read, or the refusal of the address text.
    pub open spec fn checked(
        host: Seq<char>,
        address: Seq<char>,
        parsed: Result<BackendAddress, Seq<char>>,
    ) -> Result<(Seq<char>, BackendAddress), Seq<char>> {
        match parsed {
            Ok(backend) => Ok((host, backend)),
            Err(reason) => Err(address_error(address, reason)),
        }
    }

    /// Builds a route from a written entry and the outcome of reading its
    /// address text as a numeric `ip:port` literal.
    pub fn try_from(
        config: RouteConfigUnchecked,
        parsed: Result<BackendAddress, String>,
    ) -> (route: Result<Self, StringError>)
        ensures
            Self::is_outcome(route, Self::checked(config.host@, config.address@, reason_view(parsed))),
    {
        match parsed {
            Ok(backend) => Ok(Self { host: config.host, address: backend }),
            Err(reason) => Err(Self::refusal(&config.address, &reason)),
        }
    }

    /// Whether a route built is the one that `checked` describes.
    pub open spec fn is_outcome(
        route: Result<Self, StringError>,
        expected: Result<(Seq<char>, BackendAddress), Seq<char>>,
    ) -> bool {
        match expected {
            Ok((host, backend)) => route.is_ok() && route.unwrap().host@ == host
                && route.unwrap().address == backend,
            Err(message) => route.is_err() && route.unwrap_err()@ == message,
        }
    }

    /// The error for an address text that was refused.
    fn refusal(address: &String, reason: &String) -> (error: StringError)
        ensures
            error@ == address_error(address@, reason@),
    {
        let head = concat3("Failed to parse address ", address.as_str(), ": ");
        let message = concat3(head.as_str(), reason.as_str(), "");
        proof {
            reveal_strlit("");
            assert(message@ =~= address_error(address@, reason@));
        }
        StringError::new(message)
    }

    /// Whether this entry's pattern matches the host.
    pub fn matches(&self, host: &str) -> (matched: bool)
        ensures
            matched == self.matches_host(host@),
    {
        wildcard_match(self.host.as_str(), host)
    }
}

/// The replaceable part of the configuration: where the certificate and the
/// key lie, and the routing table in order of precedence.
#[derive(Clone, Debug, PartialEq, Eq)]
pub struct DynamicConfig {
    pub cert_file: String,
    pub key_file: String,
    pub routes: Vec<RouteConfig>,
}

/// The index of the first entry at or after `from` whose pattern matches the
/// host; `None` where no such entry exists.
pub open spec fn first_match_from(routes: Seq<RouteConfig>, host: Seq<char>, from: int) -> Option<
    int,
>
    decreases routes.len() - from,
{
    if from < 0 || from >= routes.len() {
        None
    } else if routes[from].matches_host(host) {
        Some(from)
    } else {
        first_match_from(routes, host, from + 1)
    }
}

/// The index of the entry that routes the host: the first whose pattern
/// matches.
pub open spec fn first_match(routes: Seq<RouteConfig>, host: Seq<char>) -> Option<int> {
    first_match_from(routes, host, 0)
}

/// What `first_match_from` returns is a matching entry with none before it
/// from `from` on, and `None` only where no entry from `from` on matches.
pub proof fn lemma_first_match_from(routes: Seq<RouteConfig>, host: Seq<char>, from: int)
    requires
        0 <= from,
    ensures
        match first_match_from(routes, host, from) {
            Some(index) => from <= index < routes.len() && routes[index].matches_host(host)
                && forall|j: int| from <= j < index ==> !(#[trigger] routes[j]).matches_host(host),
            None => forall|j: int|
                from <= j < routes.len() ==> !(#[trigger] routes[j]).matches_host(host),
        },
    decreases routes.len() - from,
{
    if from < routes.len() && !routes[from].matches_host(host) {
        lemma_first_match_from(routes, host, from + 1);
    }
}

/// First match wins: where two entries both match a host, the entry chosen is
/// at or before the earlier of them, and is the earlier one itself when
/// nothing in front of it matches.
pub proof fn lemma_first_match_wins(
    routes: Seq<RouteConfig>,
    host: Seq<char>,
    earlier: int,
    later: int,
)
    requires
        0 <= earlier < later < routes.len(),
        routes[earlier].matches_host(host),
        routes[later].matches_host(host),
    ensures
        first_match(routes, host).is_some(),
        first_match(routes, host).unwrap() <= earlier,
        first_match(routes, host).unwrap() != later,
        (forall|j: int| 0 <= j < earlier ==> !(#[trigger] routes[j]).matches_host(host))
            ==> first_match(routes, host) == Some(earlier),
{
    lemma_first_match_from(routes, host, 0);
}

/// The index of the first entry at or after `from` whose address was
/// refused.
pub open spec fn first_refused(entries: Seq<RouteEntry>, from: int) -> Option<int>
    decreases entries.len() - from,
{
    if from < 0 || from >= entries.len() {
        None
    } else if entries[from].parsed.is_err() {
        Some(from)
    } else {
        first_refused(entries, from + 1)
    }
}

/// What `first_refused` names is refused and the first such.
pub proof fn lemma_first_refused(entries: Seq<RouteEntry>, from: int)
    requires
        0 <= from,
    ensures
        match first_refused(entries, from) {
            Some(index) => from <= index < entries.len() && entries[index].parsed.is_err()
                && forall|j: int| from <= j < index ==> (#[trigger] entries[j]).parsed.is_ok(),
            None => forall|j: int| from <= j < entries.len() ==> (#[trigger] entries[j]).parsed.is_ok(),
        },
    decreases entries.len() - from,
{
    if from < entries.len() && entries[from].parsed.is_ok() {
        lemma_first_refused(entries, from + 1);
    }
}

/// The pattern and the backend of each route, in order.
pub open spec fn table_of(routes: Seq<RouteConfig>) -> Seq<(Seq<char>, BackendAddress)> {
    Seq::new(routes.len(), |i: int| (routes[i].host@, routes[i].address))
}

/// The routing table that written entries stand for: each entry's pattern
/// with the address read for it, in the order written; or the refusal of
/// the first address that could not be read.
pub open spec fn loaded_table(entries: Seq<RouteEntry>) -> Result<
    Seq<(Seq<char>, BackendAddress)>,
    Seq<char>,
> {
    match first_refused(entries, 0) {
        Some(index) => Err(
            address_error(entries[index].written.address@, entries[index].parsed.unwrap_err()@),
        ),
        None => Ok(
            Seq::new(entries.len(), |i: int| (entries[i].written.host@, entries[i].parsed.unwrap())),
        ),
    }
}

/// The written entries that a routing table serialises to, each with the
/// address that reading its text gives back.
pub open spec fn is_written_form(entries: Seq<RouteEntry>, routes: Seq<RouteConfig>) -> bool {
    &&& entries.len() == routes.len()
    &&& forall|i: int|
        0 <= i < routes.len() ==> (#[trigger] entries[i]).written.host@ == routes[i].host@
            && entries[i].parsed == Ok::<BackendAddress, String>(routes[i].address)
}

/// Writing a routing table out and loading what was written gives the same
/// table: the same patterns with the same backends in the same order.
pub proof fn lemma_table_round_trip(routes: Seq<RouteConfig>, entries: Seq<RouteEntry>)
    requires
        is_written_form(entries, routes),
    ensures
        loaded_table(entries) == Ok::<Seq<(Seq<char>, BackendAddress)>, Seq<char>>(
            table_of(routes),
        ),
{
    lemma_first_refused(entries, 0);
    assert(match loaded_table(entries) {
        Ok(table) => table =~= table_of(routes),
        Err(_) => false,
    });
}

impl DynamicConfig {
    /// The configuration from the two file names and the routing entries as
    /// written, each with the outcome of reading its address. The first
    /// refused address refuses the whole configuration.
    pub fn load(cert_file: String, key_file: String, entries: Vec<RouteEntry>) -> (loaded: Result<
        Self,
        StringError,
    >)
        ensures
            match loaded_table(entries@) {
                Ok(table) => loaded.is_ok() && loaded.unwrap().cert_file@ == cert_file@
                    && loaded.unwrap().key_file@ == key_file@ && table_of(loaded.unwrap().routes@)
                    == table,
                Err(message) => loaded.is_err() && loaded.unwrap_err()@ == message,
            },
    {
        let mut routes: Vec<RouteConfig> = Vec::new();
        let mut index: usize = 0;
        while index < entries.len()
            invariant
                index <= entries.len(),
                routes.len() == index,
                first_refused(entries@, 0) == first_refused(entries@, index as int),
                forall|i: int|
                    0 <= i < index ==> (#[trigger] routes[i]).host@ == entries[i].written.host@
                        && entries[i].parsed.is_ok() && routes[i].address
                        == entries[i].parsed.unwrap(),
            decreases entries.len() - index,
        {
            let entry = &entries[index];
            match &entry.parsed {
                Ok(backend) => {
                    routes.push(RouteConfig { host: entry.written.host.clone(), address: *backend });
                },
                Err(reason) => {
                    return Err(RouteConfig::refusal(&entry.written.address, reason));
                },
            }
            index += 1;
        }
        proof {
            assert(match loaded_table(entries@) {
                Ok(table) => table =~= table_of(routes@),
                Err(_) => false,
            });
        }
        Ok(Self { cert_file, key_file, routes })
    }

    /// The entry that routes the host, by its index in `routes`.
    pub fn find_route(&self, host: &str) -> (found: Option<usize>)
        ensures
            match found {
                Some(index) => index < self.routes.len() && first_match(self.routes@, host@)
                    == Some(index as int),
                None => first_match(self.routes@, host@).is_none(),
            },
    {
        let mut index: usize = 0;
        while index < self.routes.len()
            invariant
                index <= self.routes.len(),
                first_match(self.routes@, host@) == first_match_from(
                    self.routes@,
                    host@,
                    index as int,
                ),
            decreases self.routes.len() - index,
        {
            if self.routes[index].matches(host) {
                return Some(index);
            }
            index += 1;
        }
        None
    }
}

} // verus!
