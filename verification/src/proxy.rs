//! The per-request decisions of the proxy: which way a request goes, what a
//! redirect or a refusal says, and how the outbound headers are rewritten.

use crate::config::{first_match, BackendAddress, DynamicConfig, RouteConfig};
use crate::headers::{
    bytes_text, field_values, first_field_text, header_fields, insert_field, is_field_name,
    is_text_bytes, is_value_bytes, is_value_text, not_found_text, remove_field, text_bytes,
    value_bytes, value_from_bytes, value_from_text, values_of, Fields,
};
use crate::text::concat3;
use crate::values::{all_equal_value, common_value, join_values, joined, same_bytes};
use hyper::header::{HeaderMap, HeaderValue};
use vstd::prelude::*;
use vstd::string::StringSliceAdditionalSpecFns;

verus! {

/// Why a response or an outbound request could not be built.
#[derive(Clone, Copy, Debug, PartialEq, Eq, Structural)]
pub enum ProxyError {
    /// The redirect target is not acceptable as a header value.
    InvalidLocation,
    /// The joined cookie values are not acceptable as a header value.
    InvalidCookie,
    /// The header map refused to take another field.
    TooManyFields,
}

/// The way a request goes.
#[derive(Clone, Debug, PartialEq, Eq)]
pub enum Disposition {
    /// Answer with a redirect to the secure origin of `host`.
    Redirect { host: String },
    /// Answer that nothing is served under this host.
    NotFound,
    /// Pass the request on to `backend`.
    Forward { host: String, backend: BackendAddress },
    /// Pass the upgrade request on to `backend` and tunnel afterwards.
    Upgrade { host: String, backend: BackendAddress },
}

/// A disposition as a mathematical value.
pub enum Decision {
    Redirect { host: Seq<char> },
    NotFound,
    Forward { host: Seq<char>, backend: BackendAddress },
    Upgrade { host: Seq<char>, backend: BackendAddress },
}

impl View for Disposition {
    type V = Decision;

    open spec fn view(&self) -> Decision {
        match self {
            Disposition::Redirect { host } => Decision::Redirect { host: host@ },
            Disposition::NotFound => Decision::NotFound,
            Disposition::Forward { host, backend } => Decision::Forward {
                host: host@,
                backend: *backend,
            },
            Disposition::Upgrade { host, backend } => Decision::Upgrade {
                host: host@,
                backend: *backend,
            },
        }
    }
}

/// A permanent redirect: its status and the value of its `Location` field.
#[derive(Debug)]
pub struct Redirect {
    pub status: u16,
    pub location: HeaderValue,
}

/// A refusal: its status and the text of its body.
#[derive(Debug)]
pub struct NotFound {
    pub status: u16,
    pub body: String,
}

/// The request handler's fixed part: on which side it serves.
#[derive(Clone, Copy, Debug)]
pub struct Proxy {
    secure: bool,
}

pub open spec fn host_name() -> Seq<char> {
    "host"@
}

pub open spec fn cookie_name() -> Seq<char> {
    "cookie"@
}

pub open spec fn upgrade_name() -> Seq<char> {
    "upgrade"@
}

pub open spec fn connection_name() -> Seq<char> {
    "connection"@
}

pub open spec fn keep_alive_name() -> Seq<char> {
    "keep-alive"@
}

/// The two bytes put between cookie values: a semicolon and a space.
pub open spec fn cookie_separator() -> Seq<u8> {
    seq![59u8, 32u8]
}

/// The view of an optional text.
pub open spec fn text_of(text: Option<&str>) -> Option<Seq<char>> {
    match text {
        Some(t) => Some(t@),
        None => None,
    }
}

/// The host a request names: the authority of its target where it has one,
/// else the first `Host` field read as text, and the empty text where that is
/// absent or cannot be read.
pub open spec fn effective_host(authority: Option<Seq<char>>, fields: Fields) -> Seq<char> {
    match authority {
        Some(host) => host,
        None => {
            let hosts = values_of(fields, host_name());
            if hosts.len() > 0 && is_text_bytes(hosts[0]) {
                bytes_text(hosts[0])
            } else {
                Seq::empty()
            }
        },
    }
}

/// Whether the request asks for a WebSocket: it has `Upgrade` values, they
/// all agree, and they are the token `websocket` letter for letter.
pub open spec fn asks_websocket(fields: Fields) -> bool {
    common_value(values_of(fields, upgrade_name())) == Some(text_bytes("websocket"@))
}

/// The disposition of a request. Without a host nothing is served; the
/// plaintext side redirects; the secure side goes by the first route whose
/// pattern matches the host.
pub open spec fn decide(
    secure: bool,
    authority: Option<Seq<char>>,
    fields: Fields,
    routes: Seq<RouteConfig>,
) -> Decision {
    let host = effective_host(authority, fields);
    if host.len() == 0 {
        Decision::NotFound
    } else if !secure {
        Decision::Redirect { host }
    } else {
        match first_match(routes, host) {
            Some(index) => if asks_websocket(fields) {
                Decision::Upgrade { host, backend: routes[index].address }
            } else {
                Decision::Forward { host, backend: routes[index].address }
            },
            None => Decision::NotFound,
        }
    }
}

/// The target of a redirect: the secure scheme, the host, and the path and
/// query of the request where it has them.
pub open spec fn location_text(host: Seq<char>, path_and_query: Option<Seq<char>>) -> Seq<char> {
    "https://"@ + host + match path_and_query {
        Some(rest) => rest,
        None => Seq::empty(),
    }
}

/// The single cookie value of the outbound request: the inbound values in
/// their order, joined by a semicolon and a space.
pub open spec fn cookie_value(fields: Fields) -> Seq<u8> {
    joined(values_of(fields, cookie_name()), cookie_separator())
}

/// The fields with all cookies collapsed into one.
pub open spec fn with_merged_cookies(fields: Fields) -> Fields {
    fields.insert(cookie_name(), seq![cookie_value(fields)])
}

/// The fields with `Host` set to the host, where the host can be a header
/// value; unchanged where it cannot.
pub open spec fn with_host(fields: Fields, host: Seq<char>) -> Fields {
    if is_value_text(host) {
        fields.insert(host_name(), seq![text_bytes(host)])
    } else {
        fields
    }
}

/// The fields without those that concern one hop only.
pub open spec fn without_hop_fields(fields: Fields) -> Fields {
    fields.remove(keep_alive_name()).remove(connection_name()).remove(upgrade_name())
}

/// The fields prepared for an upgrade: no `Keep-Alive`, and `Connection`
/// saying `Upgrade`.
pub open spec fn with_upgrade_connection(fields: Fields) -> Fields {
    fields.remove(keep_alive_name()).insert(connection_name(), seq![text_bytes("Upgrade"@)])
}

/// The fields of a forwarded request.
pub open spec fn forward_fields(fields: Fields, host: Seq<char>) -> Fields {
    with_merged_cookies(with_host(without_hop_fields(fields), host))
}

/// The fields of a forwarded upgrade request.
pub open spec fn upgrade_fields(fields: Fields, host: Seq<char>) -> Fields {
    with_merged_cookies(with_host(with_upgrade_connection(fields), host))
}

/// The five field names are well-formed and differ from one another.
pub proof fn lemma_field_names()
    ensures
        is_field_name(host_name()),
        is_field_name(cookie_name()),
        is_field_name(upgrade_name()),
        is_field_name(connection_name()),
        is_field_name(keep_alive_name()),
        host_name() != cookie_name(),
        host_name() != upgrade_name(),
        host_name() != connection_name(),
        host_name() != keep_alive_name(),
        cookie_name() != upgrade_name(),
        cookie_name() != connection_name(),
        cookie_name() != keep_alive_name(),
        upgrade_name() != connection_name(),
        upgrade_name() != keep_alive_name(),
        connection_name() != keep_alive_name(),
{
    reveal_strlit("host");
    reveal_strlit("cookie");
    reveal_strlit("upgrade");
    reveal_strlit("connection");
    reveal_strlit("keep-alive");
    assert(connection_name()[0] == 'c');
    assert(keep_alive_name()[0] == 'k');
}

/// On the plaintext side every request that names a host is redirected to
/// that host, and the redirect's target begins with the secure scheme and
/// the host.
pub proof fn lemma_plaintext_redirects(
    authority: Option<Seq<char>>,
    fields: Fields,
    routes: Seq<RouteConfig>,
    path_and_query: Option<Seq<char>>,
)
    requires
        effective_host(authority, fields).len() > 0,
    ensures
        decide(false, authority, fields, routes) == (Decision::Redirect {
            host: effective_host(authority, fields),
        }),
        ("https://"@ + effective_host(authority, fields)).is_prefix_of(
            location_text(effective_host(authority, fields), path_and_query),
        ),
{
    let head = "https://"@ + effective_host(authority, fields);
    let whole = location_text(effective_host(authority, fields), path_and_query);
    assert(whole.subrange(0, head.len() as int) =~= head);
}

/// On the secure side a request whose host matches no route finds nothing.
pub proof fn lemma_unrouted_host_not_found(
    authority: Option<Seq<char>>,
    fields: Fields,
    routes: Seq<RouteConfig>,
)
    requires
        forall|i: int|
            0 <= i < routes.len() ==> !(#[trigger] routes[i]).matches_host(
                effective_host(authority, fields),
            ),
    ensures
        decide(true, authority, fields, routes) == Decision::NotFound,
{
    crate::config::lemma_first_match_from(routes, effective_host(authority, fields), 0);
}

/// On the secure side a request goes to the backend of the first route
/// whose pattern matches its host.
pub proof fn lemma_routed_host_goes_to_first_match(
    authority: Option<Seq<char>>,
    fields: Fields,
    routes: Seq<RouteConfig>,
    index: int,
)
    requires
        effective_host(authority, fields).len() > 0,
        0 <= index < routes.len(),
        routes[index].matches_host(effective_host(authority, fields)),
        forall|j: int|
            0 <= j < index ==> !(#[trigger] routes[j]).matches_host(
                effective_host(authority, fields),
            ),
    ensures
        decide(true, authority, fields, routes) == (if asks_websocket(fields) {
            Decision::Upgrade {
                host: effective_host(authority, fields),
                backend: routes[index].address,
            }
        } else {
            Decision::Forward {
                host: effective_host(authority, fields),
                backend: routes[index].address,
            }
        }),
{
    crate::config::lemma_first_match_from(routes, effective_host(authority, fields), 0);
}

/// The authority of the request's target is the host, whatever the `Host`
/// field says.
pub proof fn lemma_authority_precedes_host_field(authority: Seq<char>, fields: Fields)
    ensures
        effective_host(Some(authority), fields) == authority,
{
}

/// A request without an authority and without a `Host` field finds nothing,
/// on either side.
pub proof fn lemma_no_host_not_found(secure: bool, fields: Fields, routes: Seq<RouteConfig>)
    requires
        values_of(fields, host_name()).len() == 0,
    ensures
        decide(secure, None, fields, routes) == Decision::NotFound,
{
}

/// `Upgrade` values that disagree ask for no WebSocket, so a routed request
/// that carries them is forwarded.
pub proof fn lemma_disagreeing_upgrade_forwards(
    authority: Option<Seq<char>>,
    fields: Fields,
    routes: Seq<RouteConfig>,
    first: int,
    second: int,
)
    requires
        0 <= first < values_of(fields, upgrade_name()).len(),
        0 <= second < values_of(fields, upgrade_name()).len(),
        values_of(fields, upgrade_name())[first] != values_of(fields, upgrade_name())[second],
    ensures
        !asks_websocket(fields),
        !(decide(true, authority, fields, routes) is Upgrade),
        effective_host(authority, fields).len() > 0 && first_match(
            routes,
            effective_host(authority, fields),
        ).is_some() ==> decide(true, authority, fields, routes) is Forward,
{
    let values = values_of(fields, upgrade_name());
    if common_value(values).is_some() {
        assert(values[first] == values.first());
        assert(values[second] == values.first());
    }
}

/// The fields of a forwarded request hold none of the fields of one hop and
/// exactly one cookie, the joined inbound values.
pub proof fn lemma_forward_fields(fields: Fields, host: Seq<char>)
    ensures
        !forward_fields(fields, host).dom().contains(connection_name()),
        !forward_fields(fields, host).dom().contains(keep_alive_name()),
        !forward_fields(fields, host).dom().contains(upgrade_name()),
        values_of(forward_fields(fields, host), cookie_name()) == seq![cookie_value(fields)],
{
    lemma_field_names();
}

/// The fields of a forwarded upgrade hold `Connection: Upgrade`, no
/// `Keep-Alive`, and exactly one cookie, the joined inbound values.
pub proof fn lemma_upgrade_fields(fields: Fields, host: Seq<char>)
    ensures
        values_of(upgrade_fields(fields, host), connection_name()) == seq![
            text_bytes("Upgrade"@),
        ],
        !upgrade_fields(fields, host).dom().contains(keep_alive_name()),
        values_of(upgrade_fields(fields, host), cookie_name()) == seq![cookie_value(fields)],
{
    lemma_field_names();
}

impl Proxy {
    /// Whether this handler serves the secure side.
    pub closed spec fn secure(&self) -> bool {
        self.secure
    }

    /// The handler of the secure side.
    pub fn new_secure() -> (proxy: Self)
        ensures
            proxy.secure(),
    {
        Self { secure: true }
    }

    /// The handler of the plaintext side.
    pub fn new_unsecure() -> (proxy: Self)
        ensures
            !proxy.secure(),
    {
        Self { secure: false }
    }

    /// Whether this handler serves the secure side.
    pub fn is_secure(&self) -> (secure: bool)
        ensures
            secure == self.secure(),
    {
        self.secure
    }

    /// Decides the way of a request from the authority of its target, its
    /// header fields and the live routing table.
    pub fn classify(
        &self,
        authority: Option<&str>,
        headers: &HeaderMap<HeaderValue>,
        config: &DynamicConfig,
    ) -> (disposition: Disposition)
        ensures
            disposition@ == decide(
                self.secure(),
                text_of(authority),
                header_fields(*headers),
                config.routes@,
            ),
    {
        proof {
            lemma_field_names();
        }
        let host: String = match authority {
            Some(text) => text.to_owned(),
            None => match first_field_text(headers, "host") {
                Some(Some(text)) => text,
                _ => String::new(),
            },
        };
        if host.as_str().is_empty() {
            return Disposition::NotFound;
        }
        if !self.secure {
            return Disposition::Redirect { host };
        }
        match config.find_route(host.as_str()) {
            Some(index) => {
                let backend = config.routes[index].address;
                if Self::wants_websocket(headers) {
                    Disposition::Upgrade { host, backend }
                } else {
                    Disposition::Forward { host, backend }
                }
            },
            None => Disposition::NotFound,
        }
    }

    /// Whether the request's `Upgrade` values all agree on `websocket`.
    pub fn wants_websocket(headers: &HeaderMap<HeaderValue>) -> (wanted: bool)
        ensures
            wanted == asks_websocket(header_fields(*headers)),
    {
        proof {
            lemma_field_names();
        }
        let values = field_values(headers, "upgrade");
        match all_equal_value(values) {
            Some(value) => {
                let token = "websocket";
                same_bytes(value.as_slice(), token.as_bytes())
            },
            None => false,
        }
    }

    /// The refusal sent where no host or no route is found.
    pub fn not_found(&self) -> (response: NotFound)
        ensures
            response.status == 404,
            response.body@ == "404 Not Found"@,
    {
        NotFound { status: 404, body: not_found_text() }
    }

    /// The redirect to the secure origin of the same host, path and query.
    /// It cannot be built where the target is no header value.
    pub fn redirect_to_https(&self, host: &str, path_and_query: Option<&str>) -> (response: Result<
        Redirect,
        ProxyError,
    >)
        ensures
            match response {
                Ok(redirect) => is_value_text(location_text(host@, text_of(path_and_query)))
                    && redirect.status == 301 && value_bytes(redirect.location) == text_bytes(
                    location_text(host@, text_of(path_and_query)),
                ),
                Err(error) => error == ProxyError::InvalidLocation && !is_value_text(
                    location_text(host@, text_of(path_and_query)),
                ),
            },
    {
        let rest: &str = match path_and_query {
            Some(text) => text,
            None => "",
        };
        proof {
            reveal_strlit("");
        }
        let location = concat3("https://", host, rest);
        assert(location@ =~= location_text(host@, text_of(path_and_query)));
        match value_from_text(location.as_str()) {
            Some(value) => Ok(Redirect { status: 301, location: value }),
            None => Err(ProxyError::InvalidLocation),
        }
    }

    /// Collapses all `Cookie` fields into one that holds their values joined
    /// by a semicolon and a space. The map is left as it was where that
    /// cannot be done.
    pub fn merge_cookie_headers(&self, map: &mut HeaderMap<HeaderValue>) -> (merged: Result<
        (),
        ProxyError,
    >)
        ensures
            match merged {
                Ok(()) => header_fields(*final(map)) == with_merged_cookies(
                    header_fields(*old(map)),
                ) && values_of(header_fields(*final(map)), cookie_name()) == seq![
                    cookie_value(header_fields(*old(map))),
                ],
                Err(error) => header_fields(*final(map)) == header_fields(*old(map)) && (error
                    == ProxyError::InvalidCookie || error == ProxyError::TooManyFields),
            },
            merged == Err::<(), ProxyError>(ProxyError::InvalidCookie) <==> !is_value_bytes(
                cookie_value(header_fields(*old(map))),
            ),
    {
        proof {
            lemma_field_names();
        }
        let values = field_values(map, "cookie");
        let mut separator: Vec<u8> = Vec::new();
        separator.push(59u8);
        separator.push(32u8);
        assert(separator@ =~= cookie_separator());
        let cookie = join_values(values, separator);
        match value_from_bytes(cookie) {
            Some(value) => {
                if insert_field(map, "cookie", value) {
                    Ok(())
                } else {
                    Err(ProxyError::TooManyFields)
                }
            },
            None => Err(ProxyError::InvalidCookie),
        }
    }

    /// Sets `Host` to the matched host where the host can be a header value.
    /// A host that cannot be one leaves the map as it is, and that counts as
    /// done; only the map's refusal of a host that can be one is a failure.
    fn set_host(map: &mut HeaderMap<HeaderValue>, host: &str) -> (stored: bool)
        ensures
            stored ==> header_fields(*final(map)) == with_host(header_fields(*old(map)), host@),
            !stored ==> header_fields(*final(map)) == header_fields(*old(map)),
            !is_value_text(host@) ==> stored,
    {
        proof {
            lemma_field_names();
        }
        match value_from_text(host) {
            Some(value) => insert_field(map, "host", value),
            None => true,
        }
    }

    /// Rewrites the fields of a request that is passed on: the fields of one
    /// hop leave, `Host` names the matched host, the cookies become one.
    pub fn forward(&self, headers: &mut HeaderMap<HeaderValue>, host: &str) -> (done: Result<
        (),
        ProxyError,
    >)
        ensures
            match done {
                Ok(()) => header_fields(*final(headers)) == forward_fields(
                    header_fields(*old(headers)),
                    host@,
                ) && values_of(header_fields(*final(headers)), cookie_name()) == seq![
                    cookie_value(header_fields(*old(headers))),
                ],
                Err(ProxyError::InvalidCookie) => header_fields(*final(headers)) == with_host(
                    without_hop_fields(header_fields(*old(headers))),
                    host@,
                ),
                Err(ProxyError::TooManyFields) => header_fields(*final(headers))
                    == without_hop_fields(header_fields(*old(headers))) || header_fields(
                    *final(headers),
                ) == with_host(without_hop_fields(header_fields(*old(headers))), host@),
                Err(ProxyError::InvalidLocation) => false,
            },
            done == Err::<(), ProxyError>(ProxyError::InvalidCookie) ==> !is_value_bytes(
                cookie_value(header_fields(*old(headers))),
            ),
            !is_value_bytes(cookie_value(header_fields(*old(headers)))) ==> done.is_err(),
            !header_fields(*final(headers)).dom().contains(connection_name()),
            !header_fields(*final(headers)).dom().contains(keep_alive_name()),
            !header_fields(*final(headers)).dom().contains(upgrade_name()),
    {
        proof {
            lemma_field_names();
        }
        remove_field(headers, "keep-alive");
        remove_field(headers, "connection");
        remove_field(headers, "upgrade");
        let ghost stripped = header_fields(*headers);
        assert(values_of(stripped, cookie_name()) == values_of(
            header_fields(*old(headers)),
            cookie_name(),
        ));
        if !Self::set_host(headers, host) {
            return Err(ProxyError::TooManyFields);
        }
        assert(values_of(header_fields(*headers), cookie_name()) == values_of(
            stripped,
            cookie_name(),
        ));
        self.merge_cookie_headers(headers)
    }

    /// Rewrites the fields of an upgrade request that is passed on:
    /// `Keep-Alive` leaves, `Connection` says `Upgrade`, `Host` names the
    /// matched host, the cookies become one.
    pub fn upgrade(&self, headers: &mut HeaderMap<HeaderValue>, host: &str) -> (done: Result<
        (),
        ProxyError,
    >)
        ensures
            match done {
                Ok(()) => header_fields(*final(headers)) == upgrade_fields(
                    header_fields(*old(headers)),
                    host@,
                ) && values_of(header_fields(*final(headers)), cookie_name()) == seq![
                    cookie_value(header_fields(*old(headers))),
                ] && values_of(header_fields(*final(headers)), connection_name()) == seq![
                    text_bytes("Upgrade"@),
                ],
                Err(ProxyError::InvalidCookie) => header_fields(*final(headers)) == with_host(
                    with_upgrade_connection(header_fields(*old(headers))),
                    host@,
                ),
                Err(ProxyError::TooManyFields) => header_fields(*final(headers)) == header_fields(
                    *old(headers),
                ).remove(keep_alive_name()) || header_fields(*final(headers))
                    == with_upgrade_connection(header_fields(*old(headers))) || header_fields(
                    *final(headers),
                ) == with_host(with_upgrade_connection(header_fields(*old(headers))), host@),
                Err(ProxyError::InvalidLocation) => false,
            },
            done == Err::<(), ProxyError>(ProxyError::InvalidCookie) ==> !is_value_bytes(
                cookie_value(header_fields(*old(headers))),
            ),
            !is_value_bytes(cookie_value(header_fields(*old(headers)))) ==> done.is_err(),
            !header_fields(*final(headers)).dom().contains(keep_alive_name()),
    {
        proof {
            lemma_field_names();
            reveal_strlit("Upgrade");
        }
        remove_field(headers, "keep-alive");
        let token = value_from_text("Upgrade");
        if !insert_field(headers, "connection", token.unwrap()) {
            return Err(ProxyError::TooManyFields);
        }
        let ghost prepared = header_fields(*headers);
        assert(values_of(prepared, cookie_name()) == values_of(
            header_fields(*old(headers)),
            cookie_name(),
        ));
        if !Self::set_host(headers, host) {
            return Err(ProxyError::TooManyFields);
        }
        assert(values_of(header_fields(*headers), cookie_name()) == values_of(
            prepared,
            cookie_name(),
        ));
        assert(values_of(header_fields(*headers), connection_name()) == seq![
            text_bytes("Upgrade"@),
        ]);
        self.merge_cookie_headers(headers)
    }
}

} // verus!
