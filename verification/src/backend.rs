//! The chain node behind the daemon: the shapes in which the configuration
//! names it, and the single connection record they all resolve to.

use vstd::prelude::*;
use crate::text::{chars_of, opt_text};

verus! {

/// The RPC port of a co-located chain node, and the one assumed where a
/// connection URI names none.
pub const DEFAULT_RPC_PORT: u16 = 8332;

/// The port on which a co-located chain node publishes raw blocks.
pub const DEFAULT_ZMQ_BLOCK_PORT: u16 = 28332;

/// The port on which a co-located chain node publishes raw transactions.
pub const DEFAULT_ZMQ_TX_PORT: u16 = 28333;

/// What the connection logic reads of a parsed URI.
#[derive(Debug, Clone, PartialEq, Eq)]
pub struct UriParts {
    /// The whole authority component, user information included.
    pub authority: Option<String>,
    /// The host within the authority.
    pub host: Option<String>,
    /// The port within the authority, where it is a number below 65536.
    pub port: Option<u16>,
}

/// The parts of a URI as a mathematical value.
pub struct UriPartsView {
    pub authority: Option<Seq<char>>,
    pub host: Option<Seq<char>>,
    pub port: Option<u16>,
}

impl View for UriParts {
    type V = UriPartsView;

    open spec fn view(&self) -> UriPartsView {
        UriPartsView {
            authority: opt_text(self.authority),
            host: opt_text(self.host),
            port: self.port,
        }
    }
}

/// What `http::Uri`'s parser makes of `text`: the authority, host and port
/// of the URI it reads, or `None` where it rejects the text.
pub uninterp spec fn uri_parts_of(text: Seq<char>) -> Option<UriPartsView>;

/// `http::uri::InvalidUri`, of which only its presence is read.
#[verifier::external_type_specification]
#[verifier::external_body]
pub struct ExInvalidUri(http::uri::InvalidUri);

/// Parses `text` with `http::Uri`'s `FromStr` and copies out what its
/// accessors `authority`, `host` and `port_u16` return. Trusted: whether the
/// text is accepted, and the three parts, depend on the text alone.
#[verifier::external_body]
fn uri_parts(text: &str) -> (r: Result<UriParts, http::uri::InvalidUri>)
    ensures
        match r {
            Ok(parts) => uri_parts_of(text@) == Some(parts@),
            Err(_) => uri_parts_of(text@) is None,
        },
{
    let uri: http::Uri = text.parse()?;
    Ok(
        UriParts {
            authority: uri.authority().map(|a| a.as_str().to_owned()),
            host: uri.host().map(|h| h.to_owned()),
            port: uri.port_u16(),
        },
    )
}

/// Why a backend description does not resolve to a connection.
#[derive(Debug, Clone, Copy, PartialEq, Eq, Structural)]
pub enum BackendResolutionError {
    /// The text is not a URI.
    InvalidUri,
    /// The URI has no authority, or its authority holds neither a user nor a
    /// password, or it names no host.
    InvalidBackendURI,
}

/// Reads a URI from configuration text.
pub fn parse_uri(text: &str) -> (r: Result<UriParts, BackendResolutionError>)
    ensures
        match r {
            Ok(parts) => uri_parts_of(text@) == Some(parts@),
            Err(e) => uri_parts_of(text@) is None && e == BackendResolutionError::InvalidUri,
        },
{
    match uri_parts(text) {
        Ok(parts) => Ok(parts),
        Err(_) => Err(BackendResolutionError::InvalidUri),
    }
}

/// The index of the last `@` of `s`, or `-1` if it holds none.
pub open spec fn last_at(s: Seq<char>) -> int
    decreases s.len(),
{
    if s.len() == 0 {
        -1
    } else if s.last() == '@' {
        s.len() - 1
    } else {
        last_at(s.drop_last())
    }
}

/// The number of characters before the first `:` of `s`, or `s.len()` if it
/// holds none.
pub open spec fn colon_index(s: Seq<char>) -> int
    decreases s.len(),
{
    if s.len() == 0 || s[0] == ':' {
        0
    } else {
        1 + colon_index(s.drop_first())
    }
}

/// The user information of an authority: what stands before its last `@`.
/// `None` where the authority holds no `@`: all of it is host and port then.
pub open spec fn user_info(authority: Seq<char>) -> Option<Seq<char>> {
    if last_at(authority) < 0 {
        None
    } else {
        Some(authority.subrange(0, last_at(authority)))
    }
}

/// The user that a user information names: what stands before its first `:`.
pub open spec fn user_of(info: Seq<char>) -> Seq<char> {
    info.subrange(0, colon_index(info))
}

/// The password that a user information names: what stands after its first
/// `:`, and nothing if it holds none.
pub open spec fn password_of(info: Seq<char>) -> Seq<char> {
    if colon_index(info) < info.len() {
        info.subrange(colon_index(info) + 1, info.len() as int)
    } else {
        Seq::empty()
    }
}

/// The user and the password that an authority encodes. Both are read from
/// its user information alone, never from host or port. `None` where the
/// authority has no user information, or one that names neither a user nor
/// a password.
pub open spec fn credentials_of(authority: Seq<char>) -> Option<(Seq<char>, Seq<char>)> {
    match user_info(authority) {
        None => None,
        Some(info) => if user_of(info).len() == 0 && password_of(info).len() == 0 {
            None
        } else {
            Some((user_of(info), password_of(info)))
        },
    }
}

/// User, password, host and port of a quick-connect URI. The port is the
/// default RPC port where the URI names none.
pub open spec fn quick_connect_parts(url: UriPartsView) -> Result<
    (Seq<char>, Seq<char>, Seq<char>, u16),
    BackendResolutionError,
> {
    match (url.authority, url.host) {
        (Some(authority), Some(host)) => match credentials_of(authority) {
            Some((user, pass)) => Ok(
                (
                    user,
                    pass,
                    host,
                    match url.port {
                        Some(p) => p,
                        None => DEFAULT_RPC_PORT,
                    },
                ),
            ),
            None => Err(BackendResolutionError::InvalidBackendURI),
        },
        _ => Err(BackendResolutionError::InvalidBackendURI),
    }
}

/// No character of `s` is `c`.
pub open spec fn free_of(s: Seq<char>, c: char) -> bool {
    forall|j: int| 0 <= j < s.len() ==> #[trigger] s[j] != c
}

/// An `@` with none after it is the last one, and a text without any has
/// none.
proof fn lemma_last_at_is(s: Seq<char>, k: int)
    requires
        -1 <= k < s.len(),
        k >= 0 ==> s[k] == '@',
        forall|j: int| k < j < s.len() ==> s[j] != '@',
    ensures
        last_at(s) == k,
    decreases s.len(),
{
    if s.len() > 0 && s.last() != '@' {
        lemma_last_at_is(s.drop_last(), k);
    }
}

/// The first `:` of `s` is where `colon_index` points.
proof fn lemma_colon_index_is(s: Seq<char>, k: int)
    requires
        0 <= k <= s.len(),
        forall|j: int| 0 <= j < k ==> s[j] != ':',
        k == s.len() || s[k] == ':',
    ensures
        colon_index(s) == k,
    decreases s.len(),
{
    if s.len() > 0 && s[0] != ':' {
        lemma_colon_index_is(s.drop_first(), k - 1);
    }
}

/// The index after the last `@` of `s`, or 0 if it holds none.
fn after_last_at(s: &Vec<char>) -> (r: usize)
    ensures
        r == last_at(s@) + 1,
        r <= s@.len(),
{
    let mut k: usize = s.len();
    while k > 0 && s[k - 1] != '@'
        invariant
            k <= s@.len(),
            forall|j: int| k <= j < s@.len() ==> s@[j] != '@',
        decreases k,
    {
        k -= 1;
    }
    proof {
        lemma_last_at_is(s@, k - 1);
    }
    k
}

/// The index of the first `:` among the first `end` characters of `s`, or
/// `end` if there is none.
fn first_colon(s: &Vec<char>, end: usize) -> (r: usize)
    requires
        end <= s@.len(),
    ensures
        r == colon_index(s@.subrange(0, end as int)),
        r <= end,
{
    let mut c: usize = 0;
    while c < end && s[c] != ':'
        invariant
            c <= end <= s@.len(),
            forall|j: int| 0 <= j < c ==> s@[j] != ':',
        decreases end - c,
    {
        c += 1;
    }
    proof {
        lemma_colon_index_is(s@.subrange(0, end as int), c as int);
    }
    c
}

/// Decomposes a quick-connect URI into user, password, host and port. User
/// and password are read from the authority's user information; a URI
/// without them is refused. The port defaults to 8332.
pub fn parse_quick_connect_url(url: &UriParts) -> (r: Result<
    (String, String, String, u16),
    BackendResolutionError,
>)
    ensures
        match r {
            Ok(t) => quick_connect_parts(url@) == Ok::<
                (Seq<char>, Seq<char>, Seq<char>, u16),
                BackendResolutionError,
            >((t.0@, t.1@, t.2@, t.3)),
            Err(e) => quick_connect_parts(url@) == Err::<
                (Seq<char>, Seq<char>, Seq<char>, u16),
                BackendResolutionError,
            >(e),
        },
        url@.authority is None || free_of(url@.authority->Some_0, '@') ==> r == Err::<
            (String, String, String, u16),
            BackendResolutionError,
        >(BackendResolutionError::InvalidBackendURI),
{
    proof {
        if url@.authority is None || free_of(url@.authority->Some_0, '@') {
            lemma_authority_without_user_info_is_refused(url@);
        }
    }
    let authority = match &url.authority {
        Some(a) => a,
        None => {
            return Err(BackendResolutionError::InvalidBackendURI);
        },
    };
    let host = match &url.host {
        Some(h) => h,
        None => {
            return Err(BackendResolutionError::InvalidBackendURI);
        },
    };
    let chars = chars_of(authority.as_str());
    let after = after_last_at(&chars);
    if after == 0 {
        return Err(BackendResolutionError::InvalidBackendURI);
    }
    let info_end: usize = after - 1;
    let ghost info = chars@.subrange(0, info_end as int);
    let colon = first_colon(&chars, info_end);
    let pass_start: usize = if colon < info_end {
        colon + 1
    } else {
        info_end
    };
    if colon == 0 && pass_start == info_end {
        return Err(BackendResolutionError::InvalidBackendURI);
    }
    let user = String::from_str(authority.as_str().substring_char(0, colon));
    let pass = String::from_str(authority.as_str().substring_char(pass_start, info_end));
    let port = match url.port {
        Some(p) => p,
        None => DEFAULT_RPC_PORT,
    };
    proof {
        assert(user@ =~= user_of(info));
        assert(pass@ =~= password_of(info));
    }
    Ok((user, pass, host.clone(), port))
}

/// A chain node run by someone else, as the configuration names it.
#[derive(Debug, Clone, PartialEq, Eq)]
pub enum ExternalBitcoinCoreConfig {
    /// Every field given on its own.
    Manual {
        host: UriParts,
        rpc_user: String,
        rpc_password: String,
        rpc_port: u16,
        zmq_block_port: u16,
        zmq_tx_port: u16,
    },
    /// One URI that holds user, password, host and port.
    QuickConnect { quick_connect_url: UriParts, zmq_block_port: u16, zmq_tx_port: u16 },
}

/// The chain node, as the configuration names it.
#[derive(Debug, Clone, PartialEq, Eq)]
pub enum BitcoinCoreConfig {
    /// The co-located node, reached directly.
    Internal { user: String, password: String },
    /// The co-located node, reached through the local RPC proxy.
    InternalProxy { user: String, password: String },
    /// A node elsewhere.
    External { connection_settings: ExternalBitcoinCoreConfig },
}

/// A node run by someone else as a mathematical value.
pub enum ExternalBitcoinCoreConfigView {
    Manual {
        host: UriPartsView,
        rpc_user: Seq<char>,
        rpc_password: Seq<char>,
        rpc_port: u16,
        zmq_block_port: u16,
        zmq_tx_port: u16,
    },
    QuickConnect { quick_connect_url: UriPartsView, zmq_block_port: u16, zmq_tx_port: u16 },
}

/// A backend description as a mathematical value.
pub enum BitcoinCoreConfigView {
    Internal { user: Seq<char>, password: Seq<char> },
    InternalProxy { user: Seq<char>, password: Seq<char> },
    External { connection_settings: ExternalBitcoinCoreConfigView },
}

impl View for ExternalBitcoinCoreConfig {
    type V = ExternalBitcoinCoreConfigView;

    open spec fn view(&self) -> ExternalBitcoinCoreConfigView {
        match *self {
            ExternalBitcoinCoreConfig::Manual {
                host,
                rpc_user,
                rpc_password,
                rpc_port,
                zmq_block_port,
                zmq_tx_port,
            } => ExternalBitcoinCoreConfigView::Manual {
                host: host@,
                rpc_user: rpc_user@,
                rpc_password: rpc_password@,
                rpc_port,
                zmq_block_port,
                zmq_tx_port,
            },
            ExternalBitcoinCoreConfig::QuickConnect {
                quick_connect_url,
                zmq_block_port,
                zmq_tx_port,
            } => ExternalBitcoinCoreConfigView::QuickConnect {
                quick_connect_url: quick_connect_url@,
                zmq_block_port,
                zmq_tx_port,
            },
        }
    }
}

impl View for BitcoinCoreConfig {
    type V = BitcoinCoreConfigView;

    open spec fn view(&self) -> BitcoinCoreConfigView {
        match *self {
            BitcoinCoreConfig::Internal { user, password } => BitcoinCoreConfigView::Internal {
                user: user@,
                password: password@,
            },
            BitcoinCoreConfig::InternalProxy {
                user,
                password,
            } => BitcoinCoreConfigView::InternalProxy { user: user@, password: password@ },
            BitcoinCoreConfig::External {
                connection_settings,
            } => BitcoinCoreConfigView::External { connection_settings: connection_settings@ },
        }
    }
}

/// Where and how the daemon reaches the chain node: the one record that
/// every shape of the configuration resolves to.
#[derive(Debug, Clone, PartialEq, Eq)]
pub struct BackendConnection {
    pub rpc_user: String,
    pub rpc_pass: String,
    pub rpc_host: String,
    pub rpc_port: u16,
    pub zmq_host: String,
    pub zmq_block_port: u16,
    pub zmq_tx_port: u16,
}

/// A connection as a mathematical value.
pub struct BackendConnectionView {
    pub rpc_user: Seq<char>,
    pub rpc_pass: Seq<char>,
    pub rpc_host: Seq<char>,
    pub rpc_port: u16,
    pub zmq_host: Seq<char>,
    pub zmq_block_port: u16,
    pub zmq_tx_port: u16,
}

impl View for BackendConnection {
    type V = BackendConnectionView;

    open spec fn view(&self) -> BackendConnectionView {
        BackendConnectionView {
            rpc_user: self.rpc_user@,
            rpc_pass: self.rpc_pass@,
            rpc_host: self.rpc_host@,
            rpc_port: self.rpc_port,
            zmq_host: self.zmq_host@,
            zmq_block_port: self.zmq_block_port,
            zmq_tx_port: self.zmq_tx_port,
        }
    }
}

/// The host name of the co-located chain node.
pub open spec fn internal_host() -> Seq<char> {
    "bitcoind.embassy"@
}

/// The host name of the local RPC proxy.
pub open spec fn proxy_host() -> Seq<char> {
    "btc-rpc-proxy.embassy"@
}

/// The connection to a co-located node whose RPC answers at `rpc_host`.
pub open spec fn internal_connection(
    user: Seq<char>,
    password: Seq<char>,
    rpc_host: Seq<char>,
) -> BackendConnectionView {
    BackendConnectionView {
        rpc_user: user,
        rpc_pass: password,
        rpc_host,
        rpc_port: DEFAULT_RPC_PORT,
        zmq_host: internal_host(),
        zmq_block_port: DEFAULT_ZMQ_BLOCK_PORT,
        zmq_tx_port: DEFAULT_ZMQ_TX_PORT,
    }
}

/// The connection to a node elsewhere. Its notification streams are served
/// by the host that serves its RPC.
pub open spec fn external_connection(
    user: Seq<char>,
    password: Seq<char>,
    host: Seq<char>,
    rpc_port: u16,
    zmq_block_port: u16,
    zmq_tx_port: u16,
) -> BackendConnectionView {
    BackendConnectionView {
        rpc_user: user,
        rpc_pass: password,
        rpc_host: host,
        rpc_port,
        zmq_host: host,
        zmq_block_port,
        zmq_tx_port,
    }
}

/// The connection that a backend description resolves to.
pub open spec fn backend_connection(config: BitcoinCoreConfigView) -> Result<
    BackendConnectionView,
    BackendResolutionError,
> {
    match config {
        BitcoinCoreConfigView::Internal { user, password } => Ok(
            internal_connection(user, password, internal_host()),
        ),
        BitcoinCoreConfigView::InternalProxy { user, password } => Ok(
            internal_connection(user, password, proxy_host()),
        ),
        BitcoinCoreConfigView::External {
            connection_settings: ExternalBitcoinCoreConfigView::Manual {
                host,
                rpc_user,
                rpc_password,
                rpc_port,
                zmq_block_port,
                zmq_tx_port,
            },
        } => match host.host {
            Some(h) => Ok(
                external_connection(
                    rpc_user,
                    rpc_password,
                    h,
                    rpc_port,
                    zmq_block_port,
                    zmq_tx_port,
                ),
            ),
            None => Err(BackendResolutionError::InvalidBackendURI),
        },
        BitcoinCoreConfigView::External {
            connection_settings: ExternalBitcoinCoreConfigView::QuickConnect {
                quick_connect_url,
                zmq_block_port,
                zmq_tx_port,
            },
        } => match quick_connect_parts(quick_connect_url) {
            Ok((user, pass, host, port)) => Ok(
                external_connection(user, pass, host, port, zmq_block_port, zmq_tx_port),
            ),
            Err(e) => Err(e),
        },
    }
}

/// Resolves a backend description to the connection it stands for.
pub fn resolve_backend(config: &BitcoinCoreConfig) -> (r: Result<
    BackendConnection,
    BackendResolutionError,
>)
    ensures
        match r {
            Ok(c) => backend_connection(config@) == Ok::<
                BackendConnectionView,
                BackendResolutionError,
            >(c@),
            Err(e) => backend_connection(config@) == Err::<
                BackendConnectionView,
                BackendResolutionError,
            >(e),
        },
{
    match config {
        BitcoinCoreConfig::Internal { user, password } => Ok(
            BackendConnection {
                rpc_user: user.clone(),
                rpc_pass: password.clone(),
                rpc_host: String::from_str("bitcoind.embassy"),
                rpc_port: DEFAULT_RPC_PORT,
                zmq_host: String::from_str("bitcoind.embassy"),
                zmq_block_port: DEFAULT_ZMQ_BLOCK_PORT,
                zmq_tx_port: DEFAULT_ZMQ_TX_PORT,
            },
        ),
        BitcoinCoreConfig::InternalProxy { user, password } => Ok(
            BackendConnection {
                rpc_user: user.clone(),
                rpc_pass: password.clone(),
                rpc_host: String::from_str("btc-rpc-proxy.embassy"),
                rpc_port: DEFAULT_RPC_PORT,
                zmq_host: String::from_str("bitcoind.embassy"),
                zmq_block_port: DEFAULT_ZMQ_BLOCK_PORT,
                zmq_tx_port: DEFAULT_ZMQ_TX_PORT,
            },
        ),
        BitcoinCoreConfig::External {
            connection_settings: ExternalBitcoinCoreConfig::Manual {
                host,
                rpc_user,
                rpc_password,
                rpc_port,
                zmq_block_port,
                zmq_tx_port,
            },
        } => match &host.host {
            Some(h) => Ok(
                BackendConnection {
                    rpc_user: rpc_user.clone(),
                    rpc_pass: rpc_password.clone(),
                    rpc_host: h.clone(),
                    rpc_port: *rpc_port,
                    zmq_host: h.clone(),
                    zmq_block_port: *zmq_block_port,
                    zmq_tx_port: *zmq_tx_port,
                },
            ),
            None => Err(BackendResolutionError::InvalidBackendURI),
        },
        BitcoinCoreConfig::External {
            connection_settings: ExternalBitcoinCoreConfig::QuickConnect {
                quick_connect_url,
                zmq_block_port,
                zmq_tx_port,
            },
        } => match parse_quick_connect_url(quick_connect_url) {
            Ok((user, pass, host, port)) => Ok(
                BackendConnection {
                    rpc_user: user,
                    rpc_pass: pass,
                    rpc_host: host.clone(),
                    rpc_port: port,
                    zmq_host: host,
                    zmq_block_port: *zmq_block_port,
                    zmq_tx_port: *zmq_tx_port,
                },
            ),
            Err(e) => Err(e),
        },
    }
}

/// A node described once field by field and once by a quick-connect URI that
/// decomposes to the same user, password, host and port resolves to the same
/// connection either way.
pub proof fn lemma_manual_and_quick_connect_agree(
    host: UriPartsView,
    rpc_user: Seq<char>,
    rpc_password: Seq<char>,
    rpc_port: u16,
    quick_connect_url: UriPartsView,
    zmq_block_port: u16,
    zmq_tx_port: u16,
)
    requires
        host.host is Some,
        quick_connect_parts(quick_connect_url) == Ok::<
            (Seq<char>, Seq<char>, Seq<char>, u16),
            BackendResolutionError,
        >((rpc_user, rpc_password, host.host->Some_0, rpc_port)),
    ensures
        backend_connection(
            BitcoinCoreConfigView::External {
                connection_settings: ExternalBitcoinCoreConfigView::Manual {
                    host,
                    rpc_user,
                    rpc_password,
                    rpc_port,
                    zmq_block_port,
                    zmq_tx_port,
                },
            },
        ) == backend_connection(
            BitcoinCoreConfigView::External {
                connection_settings: ExternalBitcoinCoreConfigView::QuickConnect {
                    quick_connect_url,
                    zmq_block_port,
                    zmq_tx_port,
                },
            },
        ),
{
}

/// The two co-located shapes differ in the RPC host alone, and neither can
/// fail to resolve.
pub proof fn lemma_internal_shapes_resolve(user: Seq<char>, password: Seq<char>)
    ensures
        backend_connection(BitcoinCoreConfigView::Internal { user, password }) == Ok::<
            BackendConnectionView,
            BackendResolutionError,
        >(internal_connection(user, password, internal_host())),
        backend_connection(BitcoinCoreConfigView::InternalProxy { user, password }) == Ok::<
            BackendConnectionView,
            BackendResolutionError,
        >(internal_connection(user, password, proxy_host())),
{
}

/// A quick-connect URI whose authority holds no `@`, and so is host and port
/// alone, is refused, whatever the host and the port are.
pub proof fn lemma_authority_without_user_info_is_refused(url: UriPartsView)
    requires
        url.authority is Some ==> free_of(url.authority->Some_0, '@'),
    ensures
        quick_connect_parts(url) == Err::<
            (Seq<char>, Seq<char>, Seq<char>, u16),
            BackendResolutionError,
        >(BackendResolutionError::InvalidBackendURI),
{
    if url.authority is Some {
        lemma_last_at_is(url.authority->Some_0, -1);
    }
}

/// The user information of an authority written as user information, `@`,
/// and a host part without `@` is that user information.
pub proof fn lemma_user_info_of(info: Seq<char>, host_part: Seq<char>)
    requires
        free_of(host_part, '@'),
    ensures
        user_info(info + seq!['@'] + host_part) == Some(info),
{
    let authority = info + seq!['@'] + host_part;
    assert forall|j: int| info.len() < j < authority.len() implies authority[j] != '@' by {
        assert(authority[j] == host_part[j - info.len() - 1]);
    }
    lemma_last_at_is(authority, info.len() as int);
    assert(authority.subrange(0, info.len() as int) =~= info);
}

/// User and password do not depend on what stands after the last `@`: no
/// text of host or port ever takes the place of a user or a password.
pub proof fn lemma_credentials_ignore_host(
    info: Seq<char>,
    host_part: Seq<char>,
    other_host_part: Seq<char>,
)
    requires
        free_of(host_part, '@'),
        free_of(other_host_part, '@'),
    ensures
        credentials_of(info + seq!['@'] + host_part) == credentials_of(
            info + seq!['@'] + other_host_part,
        ),
{
    lemma_user_info_of(info, host_part);
    lemma_user_info_of(info, other_host_part);
}

/// An authority written as user, `:`, password, `@` and a host part
/// decomposes to that user and that password, provided the user holds no
/// `:`, the host part holds no `@`, and user and password are not both
/// empty.
pub proof fn lemma_credentials_round_trip(user: Seq<char>, pass: Seq<char>, host_part: Seq<char>)
    requires
        free_of(user, ':'),
        free_of(host_part, '@'),
        user.len() + pass.len() > 0,
    ensures
        credentials_of(user + seq![':'] + pass + seq!['@'] + host_part) == Some((user, pass)),
{
    let info = user + seq![':'] + pass;
    lemma_user_info_of(info, host_part);
    assert forall|j: int| 0 <= j < user.len() implies info[j] != ':' by {
        assert(info[j] == user[j]);
    }
    lemma_colon_index_is(info, user.len() as int);
    assert(user_of(info) =~= user);
    assert(password_of(info) =~= pass);
}

/// A user information without `:` names a user and an empty password.
pub proof fn lemma_user_without_password(user: Seq<char>, host_part: Seq<char>)
    requires
        free_of(user, ':'),
        free_of(host_part, '@'),
        user.len() > 0,
    ensures
        credentials_of(user + seq!['@'] + host_part) == Some((user, Seq::<char>::empty())),
{
    lemma_user_info_of(user, host_part);
    lemma_colon_index_is(user, user.len() as int);
    assert(user_of(user) =~= user);
}

/// A connection to a node elsewhere, written down as a manual backend
/// description, resolves to itself.
pub proof fn lemma_manual_round_trip(connection: BackendConnectionView, host: UriPartsView)
    requires
        connection.zmq_host == connection.rpc_host,
        host.host == Some(connection.rpc_host),
    ensures
        backend_connection(
            BitcoinCoreConfigView::External {
                connection_settings: ExternalBitcoinCoreConfigView::Manual {
                    host,
                    rpc_user: connection.rpc_user,
                    rpc_password: connection.rpc_pass,
                    rpc_port: connection.rpc_port,
                    zmq_block_port: connection.zmq_block_port,
                    zmq_tx_port: connection.zmq_tx_port,
                },
            },
        ) == Ok::<BackendConnectionView, BackendResolutionError>(connection),
{
}

/// A connection to a node elsewhere, written down as a quick-connect URI
/// whose authority is its user, `:`, its password, `@` and a host part, and
/// which names its host and port, resolves to itself, provided the user
/// holds no `:`, the host part holds no `@`, and user and password are not
/// both empty.
pub proof fn lemma_quick_connect_round_trip(
    connection: BackendConnectionView,
    quick_connect_url: UriPartsView,
    host_part: Seq<char>,
)
    requires
        connection.zmq_host == connection.rpc_host,
        free_of(connection.rpc_user, ':'),
        free_of(host_part, '@'),
        connection.rpc_user.len() + connection.rpc_pass.len() > 0,
        quick_connect_url.authority == Some(
            connection.rpc_user + seq![':'] + connection.rpc_pass + seq!['@'] + host_part,
        ),
        quick_connect_url.host == Some(connection.rpc_host),
        quick_connect_url.port == Some(connection.rpc_port),
    ensures
        backend_connection(
            BitcoinCoreConfigView::External {
                connection_settings: ExternalBitcoinCoreConfigView::QuickConnect {
                    quick_connect_url,
                    zmq_block_port: connection.zmq_block_port,
                    zmq_tx_port: connection.zmq_tx_port,
                },
            },
        ) == Ok::<BackendConnectionView, BackendResolutionError>(connection),
{
    lemma_credentials_round_trip(connection.rpc_user, connection.rpc_pass, host_part);
}

/// A quick-connect URI without a port stands for the default RPC port.
pub proof fn lemma_quick_connect_default_port(url: UriPartsView)
    requires
        url.port is None,
        quick_connect_parts(url) is Ok,
    ensures
        quick_connect_parts(url)->Ok_0.3 == DEFAULT_RPC_PORT,
{
}

/// The message of a resolution error.
pub open spec fn resolution_message(e: BackendResolutionError) -> Seq<char> {
    match e {
        BackendResolutionError::InvalidUri => "invalid URI"@,
        BackendResolutionError::InvalidBackendURI => "invalid Quick Connect URL"@,
    }
}

impl BackendResolutionError {
    /// The message to show for this error.
    pub fn message(&self) -> (r: String)
        ensures
            r@ == resolution_message(*self),
    {
        match self {
            BackendResolutionError::InvalidUri => String::from_str("invalid URI"),
            BackendResolutionError::InvalidBackendURI => String::from_str(
                "invalid Quick Connect URL",
            ),
        }
    }
}

} // verus!
