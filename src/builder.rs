//! Parsing and validation of `sc://host:port/;key=value;...` connection strings.

use vstd::prelude::*;
use crate::error::{ClientError, ClientErrorKind};
use crate::headers::{Headers, header_map, headers_of, kept, parse_headers, split_semis};
use crate::text::{decimal, decimal_string, same_text};

verus! {

/// The connection string used when none is given.
pub const DEFAULT_CONNECTION: &'static str = "sc://localhost:15002";

/// The client identifier used when the connection string names none.
pub const DEFAULT_USER_AGENT: &'static str = "_SPARK_CONNECT_RUST";

/// The version of this client, reported in the user agent.
pub const CLIENT_VERSION: &'static str = "0.1.0";

/// Reason given for text that is no URL.
pub const MSG_FAILED_TO_PARSE: &'static str = "failed to parse connection string";

/// Reason given for a scheme other than `sc`.
pub const MSG_BAD_SCHEME: &'static str = "the connection string must start with 'sc://'";

/// Reason given for a URL without a host.
pub const MSG_NO_HOST: &'static str = "the hostname must not be empty";

/// Reason given for a URL without an explicit port.
pub const MSG_NO_PORT: &'static str = "the port must not be empty.";

/// Reason given when secure transport is asked for: this client is built
/// without it.
pub const MSG_NO_TLS: &'static str = "The 'use_ssl' option requires the 'tls' feature, but it's not enabled!";

/// Whether `url::Url::parse` accepts the text.
pub uninterp spec fn url_accepts(s: Seq<char>) -> bool;

/// The scheme of the URL that `url::Url::parse` reads from the text.
pub uninterp spec fn url_scheme(s: Seq<char>) -> Seq<char>;

/// The host of the URL that `url::Url::parse` reads from the text, if any.
pub uninterp spec fn url_host(s: Seq<char>) -> Option<Seq<char>>;

/// The explicit port of the URL that `url::Url::parse` reads from the text, if any.
pub uninterp spec fn url_port(s: Seq<char>) -> Option<u16>;

/// The path of the URL that `url::Url::parse` reads from the text.
pub uninterp spec fn url_path(s: Seq<char>) -> Seq<char>;

/// The 128-bit value of the UUID that `uuid::Uuid::parse_str` reads from the
/// text, or `None` when it rejects the text.
pub uninterp spec fn uuid_parse(s: Seq<char>) -> Option<u128>;

/// What `str::to_lowercase` makes of the text.
pub uninterp spec fn lower_of(s: Seq<char>) -> Seq<char>;

/// The parts of a parsed URL that a connection string is checked by.
pub struct UrlParts {
    pub scheme: String,
    pub host: Option<String>,
    pub port: Option<u16>,
    pub path: String,
}

/// The view of an optional text.
pub open spec fn opt_view(o: Option<String>) -> Option<Seq<char>> {
    match o {
        Some(s) => Some(s@),
        None => None,
    }
}

/// Relies on `url::Url::parse`, and on `Url::scheme`, `Url::host_str`,
/// `Url::port` and `Url::path` of what it returns.
#[verifier::external_body]
fn parse_url(s: &str) -> (r: Result<UrlParts, url::ParseError>)
    ensures
        r is Ok == url_accepts(s@),
        r matches Ok(p) ==> p.scheme@ == url_scheme(s@) && opt_view(p.host) == url_host(s@)
            && p.port == url_port(s@) && p.path@ == url_path(s@),
{
    url::Url::parse(s).map(|u| UrlParts {
        scheme: u.scheme().to_string(),
        host: u.host_str().map(|h| h.to_string()),
        port: u.port(),
        path: u.path().to_string(),
    })
}

/// Relies on `uuid::Uuid::parse_str`, and on `Uuid::as_u128` of what it returns.
#[verifier::external_body]
fn parse_uuid(s: &str) -> (r: Result<u128, uuid::Error>)
    ensures
        match r {
            Ok(v) => uuid_parse(s@) == Some(v),
            Err(_) => uuid_parse(s@) is None,
        },
{
    uuid::Uuid::parse_str(s).map(|u| u.as_u128())
}

/// Whether a UUID's 128-bit value carries version 4 and the RFC 4122 variant.
pub open spec fn is_v4(v: u128) -> bool {
    (v >> 76u128) & 0xfu128 == 4u128 && (v >> 62u128) & 0x3u128 == 2u128
}

/// Relies on `uuid::Uuid::new_v4`, and on `Uuid::as_u128`: a random session ID,
/// with the version and variant bits set.
#[verifier::external_body]
fn fresh_session_id() -> (r: u128)
    ensures
        is_v4(r),
{
    uuid::Uuid::new_v4().as_u128()
}

/// Relies on `str::to_lowercase`: the result depends on the characters alone.
#[verifier::external_body]
fn lowercase(s: &str) -> (r: String)
    ensures
        r@ == lower_of(s@),
{
    s.to_lowercase()
}

/// The error message that a connection string with these URL parts is
/// rejected with, or `None` when it is accepted.
pub open spec fn url_parts_error(scheme: Seq<char>, host: Option<Seq<char>>, port: Option<u16>) -> Option<Seq<char>> {
    if scheme != "sc"@ {
        Some(MSG_BAD_SCHEME@)
    } else if host is None || host.unwrap().len() == 0 {
        Some(MSG_NO_HOST@)
    } else if port is None {
        Some(MSG_NO_PORT@)
    } else {
        None
    }
}

/// `r` is the connection-string error for `conn` with message `msg`.
pub open spec fn is_conn_error(r: ClientError, conn: Seq<char>, msg: Seq<char>, with_source: bool) -> bool {
    r.kind matches ClientErrorKind::InvalidConnectionString { source, conn_string, msg: m }
        && (source is Some) == with_source && conn_string@ == conn && m@ == msg
}

/// `hd` holds exactly the parameters of the URL path `path`.
pub open spec fn headers_match(hd: Option<Headers>, path: Seq<char>) -> bool {
    match hd {
        None => headers_of(path) == Map::<Seq<char>, Seq<char>>::empty(),
        Some(h) => h.wf() && h@ == headers_of(path) && h@ != Map::<Seq<char>, Seq<char>>::empty(),
    }
}

/// What checking URL parts gives for the connection string `conn`.
pub open spec fn url_parts_result(
    conn: Seq<char>,
    scheme: Seq<char>,
    host: Option<Seq<char>>,
    port: Option<u16>,
    path: Seq<char>,
    r: Result<(String, u16, Option<Headers>), ClientError>,
) -> bool {
    match url_parts_error(scheme, host, port) {
        Some(msg) => r matches Err(e) && is_conn_error(e, conn, msg, false),
        None => r matches Ok((h, p, hd)) && Some(h@) == host && Some(p) == port && headers_match(hd, path),
    }
}

/// The caller-supplied defaults: the invoking user's identity, if known, and
/// the name of the operating system.
pub struct ConnectionDefaults {
    pub user: Option<String>,
    pub os: String,
}

/// The user agent reported for `agent` on the operating system `os`.
pub open spec fn agent_text(agent: Seq<char>, os: Seq<char>) -> Seq<char> {
    agent + " os/"@ + lower_of(os) + " spark_connect/"@ + CLIENT_VERSION@
}

/// The value of `key` in `m`, if present.
pub open spec fn lookup(m: Map<Seq<char>, Seq<char>>, key: Seq<char>) -> Option<Seq<char>> {
    if m.contains_key(key) {
        Some(m[key])
    } else {
        None
    }
}

/// Whether the parameters ask for secure transport.
pub open spec fn ssl_requested(m: Map<Seq<char>, Seq<char>>) -> bool {
    m.contains_key("use_ssl"@) && lower_of(m["use_ssl"@]) == "true"@
}

/// The parameters passed on as headers: the unrecognised ones, and the bearer
/// token under `authorization` when a token is given.
pub open spec fn remaining_headers(m: Map<Seq<char>, Seq<char>>) -> Map<Seq<char>, Seq<char>> {
    let rest = m.remove("user_id"@).remove("user_agent"@).remove("token"@).remove("session_id"@).remove(
        "use_ssl"@,
    );
    if m.contains_key("token"@) {
        rest.insert("authorization"@, "Bearer "@ + m["token"@])
    } else {
        rest
    }
}

/// `r` is the channel configuration for `host`, `port` and the parameters `m` of
/// the connection string `conn`, under the defaults `d`.
pub open spec fn configured(
    conn: Seq<char>,
    host: Seq<char>,
    port: u16,
    m: Map<Seq<char>, Seq<char>>,
    d: ConnectionDefaults,
    r: Result<ChannelBuilder, ClientError>,
) -> bool {
    if m.contains_key("session_id"@) && uuid_parse(m["session_id"@]) is None {
        r matches Err(e) && e.kind matches ClientErrorKind::InvalidSessionID { session_id, .. }
            && session_id@ == m["session_id"@]
    } else if ssl_requested(m) {
        r matches Err(e) && is_conn_error(e, conn, MSG_NO_TLS@, false)
    } else {
        r matches Ok(b) && b.host@ == host && b.port == port && !b.use_ssl && (m.contains_key(
            "session_id"@,
        ) ==> uuid_parse(m["session_id"@]) == Some(b.session_id)) && opt_view(b.user_id)
            == (if m.contains_key("user_id"@) {
            Some(m["user_id"@])
        } else {
            opt_view(d.user)
        }) && opt_view(b.user_agent) == Some(
            agent_text(
                if m.contains_key("user_agent"@) {
                    m["user_agent"@]
                } else {
                    DEFAULT_USER_AGENT@
                },
                d.os@,
            ),
        ) && opt_view(b.token) == (if m.contains_key("token"@) {
            Some("Bearer "@ + m["token"@])
        } else {
            None
        }) && match b.headers {
            None => remaining_headers(m) == Map::<Seq<char>, Seq<char>>::empty(),
            Some(h) => h.wf() && h@ == remaining_headers(m) && h@ != Map::<
                Seq<char>,
                Seq<char>,
            >::empty(),
        }
    }
}

/// `r` is what creating a configuration from the connection string `conn` under
/// the defaults `d` gives.
pub open spec fn new_result(conn: Seq<char>, d: ConnectionDefaults, r: Result<ChannelBuilder, ClientError>) -> bool {
    if !url_accepts(conn) {
        r matches Err(e) && is_conn_error(e, conn, MSG_FAILED_TO_PARSE@, true)
    } else {
        match url_parts_error(url_scheme(conn), url_host(conn), url_port(conn)) {
            Some(msg) => r matches Err(e) && is_conn_error(e, conn, msg, false),
            None => configured(conn, url_host(conn).unwrap(), url_port(conn).unwrap(), headers_of(url_path(conn)), d, r),
        }
    }
}

/// The parameters of optional headers; none when absent.
pub open spec fn opt_headers(hd: Option<Headers>) -> Map<Seq<char>, Seq<char>> {
    match hd {
        Some(h) => h@,
        None => Map::empty(),
    }
}

/// A validated channel configuration.
pub struct ChannelBuilder {
    pub host: String,
    pub port: u16,
    /// The session's UUID, as its 128-bit value.
    pub session_id: u128,
    pub token: Option<String>,
    pub user_id: Option<String>,
    pub user_agent: Option<String>,
    pub use_ssl: bool,
    pub headers: Option<Headers>,
}

/// The recognised keys, and `authorization`, are distinct.
proof fn lemma_keys_distinct()
    ensures
        "user_id"@ != "user_agent"@,
        "user_id"@ != "token"@,
        "user_id"@ != "session_id"@,
        "user_id"@ != "use_ssl"@,
        "user_id"@ != "authorization"@,
        "user_agent"@ != "token"@,
        "user_agent"@ != "session_id"@,
        "user_agent"@ != "use_ssl"@,
        "user_agent"@ != "authorization"@,
        "token"@ != "session_id"@,
        "token"@ != "use_ssl"@,
        "token"@ != "authorization"@,
        "session_id"@ != "use_ssl"@,
        "session_id"@ != "authorization"@,
        "use_ssl"@ != "authorization"@,
{
    reveal_strlit("user_id");
    reveal_strlit("user_agent");
    reveal_strlit("token");
    reveal_strlit("session_id");
    reveal_strlit("use_ssl");
    reveal_strlit("authorization");
    assert("user_id"@.len() == 7);
    assert("user_agent"@.len() == 10);
    assert("token"@.len() == 5);
    assert("authorization"@.len() == 13);
    assert("user_id"@[3] != "use_ssl"@[3]);
    assert("user_agent"@[0] != "session_id"@[0]);
}

impl ChannelBuilder {
    /// The user identity: the given one, else the default user, if known.
    pub fn create_user_id(user_id: Option<&str>, default_user: &Option<String>) -> (r: Option<String>)
        ensures
            opt_view(r) == match user_id {
                Some(u) => Some(u@),
                None => opt_view(*default_user),
            },
    {
        match user_id {
            Some(u) => Some(String::from_str(u)),
            None => match default_user {
                Some(u) => Some(u.clone()),
                None => None,
            },
        }
    }

    /// The user agent: the given client identifier, or the default one, followed
    /// by the operating system and this client's version.
    pub fn create_user_agent(user_agent: Option<&str>, os: &str) -> (r: Option<String>)
        ensures
            opt_view(r) == Some(
                agent_text(
                    match user_agent {
                        Some(a) => a@,
                        None => DEFAULT_USER_AGENT@,
                    },
                    os@,
                ),
            ),
    {
        let agent = match user_agent {
            Some(a) => a,
            None => DEFAULT_USER_AGENT,
        };
        let os_lower = lowercase(os);
        let mut s = String::from_str(agent);
        s.append(" os/");
        s.append(os_lower.as_str());
        s.append(" spark_connect/");
        s.append(CLIENT_VERSION);
        Some(s)
    }

    /// Checks the parts of the URL that `connection` parsed to: the scheme must
    /// be `sc`, the host must be present and non-empty, and the port present. The parameters come from the
    /// path.
    pub fn parse_url_parts(connection: &str, parts: UrlParts) -> (r: Result<(String, u16, Option<Headers>), ClientError>)
        ensures
            url_parts_result(connection@, parts.scheme@, opt_view(parts.host), parts.port, parts.path@, r),
    {
        if !same_text(parts.scheme.as_str(), "sc") {
            return Err(ClientError::new(ClientErrorKind::InvalidConnectionString {
                source: None,
                conn_string: String::from_str(connection),
                msg: String::from_str(MSG_BAD_SCHEME),
            }));
        }
        let host = match parts.host {
            Some(h) if h.as_str().unicode_len() > 0 => h,
            _ => {
                return Err(ClientError::new(ClientErrorKind::InvalidConnectionString {
                    source: None,
                    conn_string: String::from_str(connection),
                    msg: String::from_str(MSG_NO_HOST),
                }));
            },
        };
        let port = match parts.port {
            Some(p) => p,
            None => {
                return Err(ClientError::new(ClientErrorKind::InvalidConnectionString {
                    source: None,
                    conn_string: String::from_str(connection),
                    msg: String::from_str(MSG_NO_PORT),
                }));
            },
        };
        let headers = parse_headers(parts.path.as_str());
        Ok((host, port, headers))
    }

    /// Parses `connection` as a URL and checks it as `parse_url_parts` does. Text
    /// that is no URL is rejected with the URL parser's error as the source.
    pub fn parse_connection_string(connection: &str) -> (r: Result<(String, u16, Option<Headers>), ClientError>)
        ensures
            !url_accepts(connection@) ==> (r matches Err(e) && is_conn_error(
                e,
                connection@,
                MSG_FAILED_TO_PARSE@,
                true,
            )),
            url_accepts(connection@) ==> url_parts_result(
                connection@,
                url_scheme(connection@),
                url_host(connection@),
                url_port(connection@),
                url_path(connection@),
                r,
            ),
    {
        match parse_url(connection) {
            Err(source) => Err(ClientError::new(ClientErrorKind::InvalidConnectionString {
                source: Some(source),
                conn_string: String::from_str(connection),
                msg: String::from_str(MSG_FAILED_TO_PARSE),
            })),
            Ok(parts) => ChannelBuilder::parse_url_parts(connection, parts),
        }
    }

    /// Builds the configuration from a checked host and port and the parameters
    /// of the connection string `connection`. `fresh_id` is the session ID used
    /// when the parameters name none. Recognised keys are taken out; the rest
    /// are passed on as headers, with the bearer token under `authorization`.
    pub fn configure(
        connection: &str,
        host: String,
        port: u16,
        headers: Option<Headers>,
        defaults: &ConnectionDefaults,
        fresh_id: u128,
    ) -> (r: Result<ChannelBuilder, ClientError>)
        requires
            headers matches Some(h) ==> h.wf(),
        ensures
            configured(connection@, host@, port, opt_headers(headers), *defaults, r),
            r matches Ok(b) ==> (!opt_headers(headers).contains_key("session_id"@) ==> b.session_id
                == fresh_id),
    {
        let ghost m = opt_headers(headers);
        proof {
            lemma_keys_distinct();
        }
        let mut h = match headers {
            Some(h) => h,
            None => Headers::new(),
        };
        assert(h@ == m);
        let user_id = match h.remove("user_id") {
            Some(u) => ChannelBuilder::create_user_id(Some(u.as_str()), &defaults.user),
            None => ChannelBuilder::create_user_id(None, &defaults.user),
        };
        let user_agent = match h.remove("user_agent") {
            Some(a) => ChannelBuilder::create_user_agent(Some(a.as_str()), defaults.os.as_str()),
            None => ChannelBuilder::create_user_agent(None, defaults.os.as_str()),
        };
        let mut token: Option<String> = None;
        match h.remove("token") {
            Some(t) => {
                let mut bearer = String::from_str("Bearer ");
                bearer.append(t.as_str());
                token = Some(bearer.clone());
                h.insert(String::from_str("authorization"), bearer);
            },
            None => {},
        }
        let mut session_id = fresh_id;
        match h.remove("session_id") {
            Some(sid) => match parse_uuid(sid.as_str()) {
                Ok(u) => {
                    session_id = u;
                },
                Err(source) => {
                    return Err(ClientError::new(ClientErrorKind::InvalidSessionID { source, session_id: sid }));
                },
            },
            None => {},
        }
        match h.remove("use_ssl") {
            Some(v) => {
                let lower = lowercase(v.as_str());
                if same_text(lower.as_str(), "true") {
                    return Err(ClientError::new(ClientErrorKind::InvalidConnectionString {
                        source: None,
                        conn_string: String::from_str(connection),
                        msg: String::from_str(MSG_NO_TLS),
                    }));
                }
            },
            None => {},
        }
        proof {
            let rest = m.remove("user_id"@).remove("user_agent"@).remove("token"@).remove(
                "session_id"@,
            ).remove("use_ssl"@);
            if m.contains_key("token"@) {
                assert(h@ =~= rest.insert("authorization"@, "Bearer "@ + m["token"@]));
            } else {
                assert(h@ =~= rest);
            }
        }
        let out_headers = if h.is_empty() {
            None
        } else {
            Some(h)
        };
        Ok(ChannelBuilder {
            host,
            port,
            session_id,
            token,
            user_id,
            user_agent,
            use_ssl: false,
            headers: out_headers,
        })
    }

    /// Creates the configuration that `connection` describes, with a fresh
    /// random session ID unless the string names one.
    pub fn new(connection: &str, defaults: &ConnectionDefaults) -> (r: Result<ChannelBuilder, ClientError>)
        ensures
            new_result(connection@, *defaults, r),
            r matches Ok(b) ==> (!headers_of(url_path(connection@)).contains_key("session_id"@)
                ==> is_v4(b.session_id)),
    {
        let (host, port, headers) = match ChannelBuilder::parse_connection_string(connection) {
            Ok(parsed) => parsed,
            Err(e) => return Err(e),
        };
        proof {
            if headers is None {
                assert(opt_headers(headers) =~= headers_of(url_path(connection@)));
            }
        }
        ChannelBuilder::configure(connection, host, port, headers, defaults, fresh_session_id())
    }

    /// Creates the configuration from the connection string `remote`, or from
    /// `sc://localhost:15002` when none is given.
    pub fn from_remote(remote: Option<&str>, defaults: &ConnectionDefaults) -> (r: Result<ChannelBuilder, ClientError>)
        ensures
            new_result(
                match remote {
                    Some(c) => c@,
                    None => DEFAULT_CONNECTION@,
                },
                *defaults,
                r,
            ),
    {
        match remote {
            Some(c) => ChannelBuilder::new(c, defaults),
            None => ChannelBuilder::new(DEFAULT_CONNECTION, defaults),
        }
    }

    /// A copy of the headers to send, if any.
    pub fn headers(&self) -> (r: Option<Headers>)
        requires
            self.headers matches Some(h) ==> h.wf(),
        ensures
            match (r, self.headers) {
                (Some(a), Some(b)) => a.wf() && a@ == b@,
                (None, None) => true,
                _ => false,
            },
    {
        match &self.headers {
            Some(h) => Some(h.duplicate()),
            None => None,
        }
    }

    /// The address to connect to: `<scheme>://<host>:<port>`, with `https` when
    /// secure transport is enabled and `http` otherwise.
    pub fn endpoint(&self) -> (r: String)
        ensures
            r@ == (if self.use_ssl {
                "https"@
            } else {
                "http"@
            }) + "://"@ + self.host@ + ":"@ + decimal(self.port as nat),
    {
        let mut s = if self.use_ssl {
            String::from_str("https")
        } else {
            String::from_str("http")
        };
        s.append("://");
        s.append(self.host.as_str());
        s.append(":");
        let p = decimal_string(self.port as u64);
        s.append(p.as_str());
        s
    }
}

/// A path without parameters, empty or a bare `/`, carries no headers.
pub proof fn lemma_bare_path_no_headers(path: Seq<char>)
    requires
        path == Seq::<char>::empty() || path == seq!['/'],
    ensures
        headers_of(path) == Map::<Seq<char>, Seq<char>>::empty(),
{
    if path.len() == 0 {
        assert(split_semis(path) == seq![Seq::<char>::empty()]);
        assert(split_semis(path).drop_last() =~= Seq::<Seq<char>>::empty());
        assert(header_map(Seq::<Seq<char>>::empty()) == Map::<Seq<char>, Seq<char>>::empty());
        assert(!kept(split_semis(path).last()));
    } else {
        assert(path.drop_last() =~= Seq::<char>::empty());
        let pre = split_semis(path.drop_last());
        assert(pre == seq![Seq::<char>::empty()]);
        assert(split_semis(path) == pre.update(0, pre[0].push('/')));
        assert(split_semis(path).drop_last() =~= Seq::<Seq<char>>::empty());
        assert(split_semis(path).last() =~= seq!['/']);
        assert(header_map(Seq::<Seq<char>>::empty()) == Map::<Seq<char>, Seq<char>>::empty());
        assert(!kept(split_semis(path).last()));
    }
}

/// A connection string `sc://h:p` with a non-empty host and without parameters
/// is accepted: the
/// configuration has host `h` and port `p`, no headers and no secure transport.
pub proof fn law_plain_connection(conn: Seq<char>, d: ConnectionDefaults, r: Result<ChannelBuilder, ClientError>)
    requires
        new_result(conn, d, r),
        url_accepts(conn),
        url_scheme(conn) == "sc"@,
        url_host(conn) matches Some(h) && h.len() > 0,
        url_port(conn) is Some,
        url_path(conn) == Seq::<char>::empty() || url_path(conn) == seq!['/'],
    ensures
        r matches Ok(b) && Some(b.host@) == url_host(conn) && Some(b.port) == url_port(conn)
            && b.headers is None && !b.use_ssl,
{
    lemma_bare_path_no_headers(url_path(conn));
    let m = headers_of(url_path(conn));
    assert(remaining_headers(m) =~= Map::<Seq<char>, Seq<char>>::empty());
}

/// A connection string that asks for secure transport is always rejected with
/// the same configuration error, since this build has no secure transport.
pub proof fn law_ssl_rejected(conn: Seq<char>, d: ConnectionDefaults, r: Result<ChannelBuilder, ClientError>)
    requires
        new_result(conn, d, r),
        url_accepts(conn),
        url_parts_error(url_scheme(conn), url_host(conn), url_port(conn)) is None,
        ssl_requested(headers_of(url_path(conn))),
        headers_of(url_path(conn)).contains_key("session_id"@) ==> uuid_parse(
            headers_of(url_path(conn))["session_id"@],
        ) is Some,
    ensures
        r matches Err(e) && is_conn_error(e, conn, MSG_NO_TLS@, false),
{
}

/// The configuration made without a connection string, when `url` reads the
/// default string as host `localhost`, port 15002 and an empty path, has that
/// host and port, no headers, no token and no secure transport.
pub proof fn law_default_connection(d: ConnectionDefaults, r: Result<ChannelBuilder, ClientError>)
    requires
        new_result(DEFAULT_CONNECTION@, d, r),
        url_accepts(DEFAULT_CONNECTION@),
        url_scheme(DEFAULT_CONNECTION@) == "sc"@,
        url_host(DEFAULT_CONNECTION@) == Some("localhost"@),
        url_port(DEFAULT_CONNECTION@) == Some(15002u16),
        url_path(DEFAULT_CONNECTION@) == Seq::<char>::empty(),
    ensures
        r matches Ok(b) && b.host@ == "localhost"@ && b.port == 15002 && b.headers is None
            && !b.use_ssl && b.token is None,
{
    reveal_strlit("localhost");
    law_plain_connection(DEFAULT_CONNECTION@, d, r);
    lemma_bare_path_no_headers(Seq::<char>::empty());
}

} // verus!
