//! The status properties document: what is shown of a running node, how it is
//! built from a status answer, and what is served when the node cannot be
//! asked.

use vstd::prelude::*;
use crate::codec::{
    base64_decode, base64_decoded, base64_encodable, base64_url, base64_url_text, fits_base64,
};
use crate::pem::{certificate_body, pem_body};
use crate::text::{decimal, decimal_text};

verus! {

/// One displayed property: a typed value with presentation hints.
#[derive(Debug, Clone, PartialEq, Eq)]
pub struct Property<T> {
    pub value_type: String,
    pub value: T,
    pub description: Option<String>,
    pub copyable: bool,
    pub qr: bool,
    pub masked: bool,
}

/// The payload of the document: the full set for a node that answered, or a
/// single placeholder.
#[derive(Debug, Clone, PartialEq, Eq)]
pub enum Data {
    LND {
        sync_height: Property<String>,
        synced_to_chain: Property<String>,
        synced_to_graph: Property<String>,
        lnd_connect_grpc: Property<String>,
        lnd_connect_rest: Property<String>,
        node_uri: Property<String>,
        alias: Property<String>,
    },
    NotReady { not_ready: Property<String> },
}

/// The versioned properties document.
#[derive(Debug, Clone, PartialEq, Eq)]
pub struct Properties {
    pub version: u8,
    pub data: Data,
}

/// What the node's status query answers.
#[derive(Debug, Clone, PartialEq, Eq)]
pub struct LndGetInfoRes {
    pub identity_pubkey: String,
    pub block_height: u32,
    pub synced_to_chain: bool,
    pub synced_to_graph: bool,
}

/// A status answer as a mathematical value.
pub struct LndGetInfoResView {
    pub identity_pubkey: Seq<char>,
    pub block_height: u32,
    pub synced_to_chain: bool,
    pub synced_to_graph: bool,
}

impl View for LndGetInfoRes {
    type V = LndGetInfoResView;

    open spec fn view(&self) -> LndGetInfoResView {
        LndGetInfoResView {
            identity_pubkey: self.identity_pubkey@,
            block_height: self.block_height,
            synced_to_chain: self.synced_to_chain,
            synced_to_graph: self.synced_to_graph,
        }
    }
}

/// A text property as a mathematical value.
pub struct PropertyView {
    pub value_type: Seq<char>,
    pub value: Seq<char>,
    pub description: Option<Seq<char>>,
    pub copyable: bool,
    pub qr: bool,
    pub masked: bool,
}

/// The payload as a mathematical value.
pub enum DataView {
    LND {
        sync_height: PropertyView,
        synced_to_chain: PropertyView,
        synced_to_graph: PropertyView,
        lnd_connect_grpc: PropertyView,
        lnd_connect_rest: PropertyView,
        node_uri: PropertyView,
        alias: PropertyView,
    },
    NotReady { not_ready: PropertyView },
}

/// The document as a mathematical value.
pub struct PropertiesView {
    pub version: u8,
    pub data: DataView,
}

impl View for Property<String> {
    type V = PropertyView;

    open spec fn view(&self) -> PropertyView {
        PropertyView {
            value_type: self.value_type@,
            value: self.value@,
            description: match self.description {
                Some(d) => Some(d@),
                None => None,
            },
            copyable: self.copyable,
            qr: self.qr,
            masked: self.masked,
        }
    }
}

impl View for Data {
    type V = DataView;

    open spec fn view(&self) -> DataView {
        match *self {
            Data::LND {
                sync_height,
                synced_to_chain,
                synced_to_graph,
                lnd_connect_grpc,
                lnd_connect_rest,
                node_uri,
                alias,
            } => DataView::LND {
                sync_height: sync_height@,
                synced_to_chain: synced_to_chain@,
                synced_to_graph: synced_to_graph@,
                lnd_connect_grpc: lnd_connect_grpc@,
                lnd_connect_rest: lnd_connect_rest@,
                node_uri: node_uri@,
                alias: alias@,
            },
            Data::NotReady { not_ready } => DataView::NotReady { not_ready: not_ready@ },
        }
    }
}

impl View for Properties {
    type V = PropertiesView;

    open spec fn view(&self) -> PropertiesView {
        PropertiesView { version: self.version, data: self.data@ }
    }
}

/// The version number every document carries.
pub const PROPERTIES_VERSION: u8 = 2;

/// A property of type `string` with a description.
pub open spec fn text_property(
    value: Seq<char>,
    description: Seq<char>,
    copyable: bool,
    qr: bool,
    masked: bool,
) -> PropertyView {
    PropertyView {
        value_type: "string"@,
        value,
        description: Some(description),
        copyable,
        qr,
        masked,
    }
}

/// The mark shown for a sync flag.
pub open spec fn sync_mark(synced: bool) -> Seq<char> {
    if synced {
        "✅"@
    } else {
        "❌"@
    }
}

/// The connection URI for the control interface served on `port`.
pub open spec fn lnd_connect_uri(
    control_address: Seq<char>,
    port: Seq<char>,
    cert: Seq<char>,
    macaroon: Seq<char>,
) -> Seq<char> {
    "lndconnect://"@ + control_address + ":"@ + port + "?cert="@ + cert + "&macaroon="@ + macaroon
}

/// The URI under which peers reach the node.
pub open spec fn node_uri_text(pubkey: Seq<char>, peer_address: Seq<char>) -> Seq<char> {
    pubkey + "@"@ + peer_address + ":9735"@
}

/// The full document for a node that answered `info`, given the already
/// encoded certificate and macaroon.
pub open spec fn lnd_properties(
    info: LndGetInfoResView,
    control_address: Seq<char>,
    peer_address: Seq<char>,
    alias: Seq<char>,
    cert: Seq<char>,
    macaroon: Seq<char>,
) -> PropertiesView {
    PropertiesView {
        version: PROPERTIES_VERSION,
        data: DataView::LND {
            sync_height: text_property(
                decimal_text(info.block_height as nat),
                "The latest block height that has been processed by LND"@,
                false,
                false,
                false,
            ),
            synced_to_chain: text_property(
                sync_mark(info.synced_to_chain),
                "Until this value is ✅, you may not be able to see transactions sent to your on chain wallet."@,
                false,
                false,
                false,
            ),
            synced_to_graph: text_property(
                sync_mark(info.synced_to_graph),
                "Until this value is ✅, you will experience problems sending payments over lightning."@,
                false,
                false,
                false,
            ),
            lnd_connect_grpc: text_property(
                lnd_connect_uri(control_address, "10009"@, cert, macaroon),
                "Use this for other applications that require a gRPC connection"@,
                true,
                true,
                true,
            ),
            lnd_connect_rest: text_property(
                lnd_connect_uri(control_address, "8080"@, cert, macaroon),
                "Use this for other applications that require a REST connection"@,
                true,
                true,
                true,
            ),
            node_uri: text_property(
                node_uri_text(info.identity_pubkey, peer_address),
                "Give this to others to allow them to add your LND node as a peer"@,
                true,
                true,
                false,
            ),
            alias: text_property(
                alias,
                "The human readable name your node can identify as on the Lightning Network"@,
                false,
                false,
                false,
            ),
        },
    }
}

/// The placeholder document served while no status has ever been obtained.
pub open spec fn not_ready_properties() -> PropertiesView {
    PropertiesView {
        version: PROPERTIES_VERSION,
        data: DataView::NotReady {
            not_ready: text_property(
                "Could not find properties. The service might still be starting"@,
                "Fallback Message When Properties could not be found"@,
                false,
                false,
                false,
            ),
        },
    }
}

/// Builds a `string` property.
fn make_property(value: String, description: &str, copyable: bool, qr: bool, masked: bool) -> (r:
    Property<String>)
    ensures
        r@ == text_property(value@, description@, copyable, qr, masked),
{
    Property {
        value_type: String::from_str("string"),
        value,
        description: Some(String::from_str(description)),
        copyable,
        qr,
        masked,
    }
}

/// Builds a connection URI.
fn make_connect_uri(control_address: &str, port: &str, cert: &str, macaroon: &str) -> (r: String)
    ensures
        r@ == lnd_connect_uri(control_address@, port@, cert@, macaroon@),
{
    let mut r = String::from_str("lndconnect://");
    r.append(control_address);
    r.append(":");
    r.append(port);
    r.append("?cert=");
    r.append(cert);
    r.append("&macaroon=");
    r.append(macaroon);
    r
}

/// The mark for a sync flag.
fn make_sync_mark(synced: bool) -> (r: String)
    ensures
        r@ == sync_mark(synced),
{
    if synced {
        String::from_str("✅")
    } else {
        String::from_str("❌")
    }
}

/// Builds the full document from a status answer and the encoded certificate
/// and macaroon.
pub fn lnd_properties_from(
    info: &LndGetInfoRes,
    control_address: &str,
    peer_address: &str,
    alias: &str,
    cert: &str,
    macaroon: &str,
) -> (r: Properties)
    ensures
        r@ == lnd_properties(info@, control_address@, peer_address@, alias@, cert@, macaroon@),
{
    let mut node_uri = info.identity_pubkey.clone();
    node_uri.append("@");
    node_uri.append(peer_address);
    node_uri.append(":9735");
    Properties {
        version: PROPERTIES_VERSION,
        data: Data::LND {
            sync_height: make_property(
                decimal(info.block_height as u64),
                "The latest block height that has been processed by LND",
                false,
                false,
                false,
            ),
            synced_to_chain: make_property(
                make_sync_mark(info.synced_to_chain),
                "Until this value is ✅, you may not be able to see transactions sent to your on chain wallet.",
                false,
                false,
                false,
            ),
            synced_to_graph: make_property(
                make_sync_mark(info.synced_to_graph),
                "Until this value is ✅, you will experience problems sending payments over lightning.",
                false,
                false,
                false,
            ),
            lnd_connect_grpc: make_property(
                make_connect_uri(control_address, "10009", cert, macaroon),
                "Use this for other applications that require a gRPC connection",
                true,
                true,
                true,
            ),
            lnd_connect_rest: make_property(
                make_connect_uri(control_address, "8080", cert, macaroon),
                "Use this for other applications that require a REST connection",
                true,
                true,
                true,
            ),
            node_uri: make_property(
                node_uri,
                "Give this to others to allow them to add your LND node as a peer",
                true,
                true,
                false,
            ),
            alias: make_property(
                String::from_str(alias),
                "The human readable name your node can identify as on the Lightning Network",
                false,
                false,
                false,
            ),
        },
    }
}

/// Builds the placeholder document.
pub fn not_ready() -> (r: Properties)
    ensures
        r@ == not_ready_properties(),
{
    Properties {
        version: PROPERTIES_VERSION,
        data: Data::NotReady {
            not_ready: make_property(
                String::from_str("Could not find properties. The service might still be starting"),
                "Fallback Message When Properties could not be found",
                false,
                false,
                false,
            ),
        },
    }
}

/// Why a document could not be built from a status answer.
#[derive(Debug, Clone, Copy, PartialEq, Eq, Structural)]
pub enum StatsError {
    /// The certificate's body is not base64 text.
    InvalidCertificate,
    /// An input is so large that the length of its encoding does not fit the
    /// machine's address range.
    TooLarge,
}

/// The certificate and the macaroon as they appear in a connection URI: the
/// certificate's body decoded and encoded again, the macaroon encoded, both
/// in unpadded URL-safe base64.
pub open spec fn encoded_credentials(tls_cert: Seq<u8>, macaroon: Seq<u8>) -> Result<
    (Seq<char>, Seq<char>),
    StatsError,
> {
    let body = pem_body(tls_cert);
    if body.len() + 7 > usize::MAX {
        Err(StatsError::TooLarge)
    } else {
        match base64_decoded(body) {
            None => Err(StatsError::InvalidCertificate),
            Some(der) => if base64_encodable(der.len()) && base64_encodable(macaroon.len()) {
                Ok((base64_url_text(der), base64_url_text(macaroon)))
            } else {
                Err(StatsError::TooLarge)
            },
        }
    }
}

/// The document built from a status answer and the node's credential files.
pub open spec fn built_properties(
    info: LndGetInfoResView,
    control_address: Seq<char>,
    peer_address: Seq<char>,
    alias: Seq<char>,
    tls_cert: Seq<u8>,
    macaroon: Seq<u8>,
) -> Result<PropertiesView, StatsError> {
    match encoded_credentials(tls_cert, macaroon) {
        Ok((cert, mac)) => Ok(
            lnd_properties(info, control_address, peer_address, alias, cert, mac),
        ),
        Err(e) => Err(e),
    }
}

/// Builds the full document from a status answer, the certificate file's
/// bytes and the macaroon file's bytes.
pub fn build_properties(
    info: &LndGetInfoRes,
    control_address: &str,
    peer_address: &str,
    alias: &str,
    tls_cert: &[u8],
    macaroon: &[u8],
) -> (r: Result<Properties, StatsError>)
    ensures
        match r {
            Ok(p) => built_properties(
                info@,
                control_address@,
                peer_address@,
                alias@,
                tls_cert@,
                macaroon@,
            ) == Ok::<PropertiesView, StatsError>(p@),
            Err(e) => built_properties(
                info@,
                control_address@,
                peer_address@,
                alias@,
                tls_cert@,
                macaroon@,
            ) == Err::<PropertiesView, StatsError>(e),
        },
{
    let body = certificate_body(tls_cert);
    if body.len() > usize::MAX - 7 {
        return Err(StatsError::TooLarge);
    }
    let der = match base64_decode(body.as_slice()) {
        Ok(der) => der,
        Err(_) => {
            return Err(StatsError::InvalidCertificate);
        },
    };
    if !fits_base64(der.len()) || !fits_base64(macaroon.len()) {
        return Err(StatsError::TooLarge);
    }
    let cert = base64_url(der.as_slice());
    let mac = base64_url(macaroon);
    Ok(
        lnd_properties_from(
            info,
            control_address,
            peer_address,
            alias,
            cert.as_str(),
            mac.as_str(),
        ),
    )
}

/// A document to serve, and whether it is to be written to the status file.
#[derive(Debug, Clone, PartialEq, Eq)]
pub struct StatsOutcome {
    pub document: Properties,
    pub persist: bool,
}

/// What one status cycle serves and whether it stores it: a node that
/// answered gets a freshly built document, which is stored; otherwise the
/// stored document is served again, or the placeholder if none was ever
/// stored, and nothing is written.
pub open spec fn stats_outcome(
    node_info: Option<LndGetInfoResView>,
    stored: Option<PropertiesView>,
    control_address: Seq<char>,
    peer_address: Seq<char>,
    alias: Seq<char>,
    tls_cert: Seq<u8>,
    macaroon: Seq<u8>,
) -> Result<(PropertiesView, bool), StatsError> {
    match node_info {
        Some(info) => match built_properties(
            info,
            control_address,
            peer_address,
            alias,
            tls_cert,
            macaroon,
        ) {
            Ok(p) => Ok((p, true)),
            Err(e) => Err(e),
        },
        None => Ok(
            (
                match stored {
                    Some(p) => p,
                    None => not_ready_properties(),
                },
                false,
            ),
        ),
    }
}

/// The stored document after a cycle with the given outcome.
pub open spec fn stored_after(
    stored: Option<PropertiesView>,
    outcome: Result<(PropertiesView, bool), StatsError>,
) -> Option<PropertiesView> {
    match outcome {
        Ok((document, true)) => Some(document),
        _ => stored,
    }
}

/// The view of an optional status answer.
pub open spec fn info_view(node_info: Option<LndGetInfoRes>) -> Option<LndGetInfoResView> {
    match node_info {
        Some(info) => Some(info@),
        None => None,
    }
}

/// The view of an optional document.
pub open spec fn stored_view(stored: Option<Properties>) -> Option<PropertiesView> {
    match stored {
        Some(p) => Some(p@),
        None => None,
    }
}

/// Runs one status cycle. `node_info` is the node's answer, or `None` if the
/// query failed or its answer could not be read; `stored` is the document in
/// the status file, if there is one.
pub fn get_stats(
    node_info: Option<LndGetInfoRes>,
    stored: Option<Properties>,
    control_tor_address: String,
    peer_tor_address: String,
    alias: String,
    tls_cert: &[u8],
    macaroon: &[u8],
) -> (r: Result<StatsOutcome, StatsError>)
    ensures
        match r {
            Ok(o) => stats_outcome(
                info_view(node_info),
                stored_view(stored),
                control_tor_address@,
                peer_tor_address@,
                alias@,
                tls_cert@,
                macaroon@,
            ) == Ok::<(PropertiesView, bool), StatsError>((o.document@, o.persist)),
            Err(e) => stats_outcome(
                info_view(node_info),
                stored_view(stored),
                control_tor_address@,
                peer_tor_address@,
                alias@,
                tls_cert@,
                macaroon@,
            ) == Err::<(PropertiesView, bool), StatsError>(e),
        },
{
    match node_info {
        Some(info) => {
            match build_properties(
                &info,
                control_tor_address.as_str(),
                peer_tor_address.as_str(),
                alias.as_str(),
                tls_cert,
                macaroon,
            ) {
                Ok(document) => Ok(StatsOutcome { document, persist: true }),
                Err(e) => Err(e),
            }
        },
        None => {
            let document = match stored {
                Some(p) => p,
                None => not_ready(),
            };
            Ok(StatsOutcome { document, persist: false })
        },
    }
}

/// A failed status query changes nothing: the stored document is served as it
/// is and stays stored, whatever the other inputs are.
pub proof fn lemma_failed_query_keeps_stored_document(
    stored: PropertiesView,
    control_address: Seq<char>,
    peer_address: Seq<char>,
    alias: Seq<char>,
    tls_cert: Seq<u8>,
    macaroon: Seq<u8>,
)
    ensures
        stats_outcome(
            None,
            Some(stored),
            control_address,
            peer_address,
            alias,
            tls_cert,
            macaroon,
        ) == Ok::<(PropertiesView, bool), StatsError>((stored, false)),
        stored_after(
            Some(stored),
            stats_outcome(
                None,
                Some(stored),
                control_address,
                peer_address,
                alias,
                tls_cert,
                macaroon,
            ),
        ) == Some(stored),
{
}

/// A query that fails right after one that succeeded leaves in store, and
/// serves, exactly the document that the successful one built.
pub proof fn lemma_failure_after_success_serves_last_document(
    info: LndGetInfoResView,
    stored: Option<PropertiesView>,
    control_address: Seq<char>,
    peer_address: Seq<char>,
    alias: Seq<char>,
    tls_cert: Seq<u8>,
    macaroon: Seq<u8>,
    later_tls_cert: Seq<u8>,
    later_macaroon: Seq<u8>,
)
    requires
        stats_outcome(
            Some(info),
            stored,
            control_address,
            peer_address,
            alias,
            tls_cert,
            macaroon,
        ) is Ok,
    ensures
        ({
            let first = stats_outcome(
                Some(info),
                stored,
                control_address,
                peer_address,
                alias,
                tls_cert,
                macaroon,
            );
            let kept = stored_after(stored, first);
            let second = stats_outcome(
                None,
                kept,
                control_address,
                peer_address,
                alias,
                later_tls_cert,
                later_macaroon,
            );
            &&& kept == Some(first->Ok_0.0)
            &&& second == Ok::<(PropertiesView, bool), StatsError>((first->Ok_0.0, false))
            &&& stored_after(kept, second) == kept
        }),
{
}

/// Seconds between two status cycles of the publisher.
pub const STATS_PERIOD_SECONDS: u64 = 10;

/// How the publisher is run.
#[derive(Debug, Clone, Copy, PartialEq, Eq, Structural)]
pub enum PublishMode {
    /// Cycle after cycle, for as long as the process lives.
    Continuous,
    /// One cycle, reported on standard output.
    Once,
}

/// What follows a status cycle.
#[derive(Debug, Clone, Copy, PartialEq, Eq, Structural)]
pub enum AfterCycle {
    /// Sleep for so many seconds, then run the next cycle.
    SleepThenPoll { seconds: u64 },
    /// Stop.
    Stop,
}

/// What is done with the document of a cycle.
#[derive(Debug, Clone, Copy, PartialEq, Eq, Structural)]
pub struct CyclePlan {
    /// Write the document to the status file, replacing what is there.
    pub store: bool,
    /// Write the document to standard output.
    pub print: bool,
    /// What follows.
    pub next: AfterCycle,
}

/// The plan for a cycle: a freshly built document is stored in either mode;
/// a single cycle also prints its document and then stops, while the
/// continuous publisher sleeps for its period and goes on.
pub open spec fn cycle_plan_of(mode: PublishMode, persist: bool) -> CyclePlan {
    match mode {
        PublishMode::Continuous => CyclePlan {
            store: persist,
            print: false,
            next: AfterCycle::SleepThenPoll { seconds: STATS_PERIOD_SECONDS },
        },
        PublishMode::Once => CyclePlan { store: persist, print: true, next: AfterCycle::Stop },
    }
}

/// Plans what to do with the outcome of a cycle. `persist` says whether the
/// cycle built a new document.
pub fn cycle_plan(mode: PublishMode, persist: bool) -> (r: CyclePlan)
    ensures
        r == cycle_plan_of(mode, persist),
{
    match mode {
        PublishMode::Continuous => CyclePlan {
            store: persist,
            print: false,
            next: AfterCycle::SleepThenPoll { seconds: STATS_PERIOD_SECONDS },
        },
        PublishMode::Once => CyclePlan { store: persist, print: true, next: AfterCycle::Stop },
    }
}

/// A cycle whose status query failed writes nothing to the status file, in
/// either mode: what is stored there stays byte for byte.
pub proof fn lemma_failed_query_writes_nothing(
    mode: PublishMode,
    stored: Option<PropertiesView>,
    control_address: Seq<char>,
    peer_address: Seq<char>,
    alias: Seq<char>,
    tls_cert: Seq<u8>,
    macaroon: Seq<u8>,
)
    ensures
        stats_outcome(None, stored, control_address, peer_address, alias, tls_cert, macaroon)
            is Ok,
        !cycle_plan_of(
            mode,
            stats_outcome(
                None,
                stored,
                control_address,
                peer_address,
                alias,
                tls_cert,
                macaroon,
            )->Ok_0.1,
        ).store,
{
}

/// The message of a status error.
pub open spec fn stats_message(e: StatsError) -> Seq<char> {
    match e {
        StatsError::InvalidCertificate => "Invalid certificate"@,
        StatsError::TooLarge => "Certificate or macaroon too large"@,
    }
}

impl StatsError {
    /// The message to show for this error.
    pub fn message(&self) -> (r: String)
        ensures
            r@ == stats_message(*self),
    {
        match self {
            StatsError::InvalidCertificate => String::from_str("Invalid certificate"),
            StatsError::TooLarge => String::from_str("Certificate or macaroon too large"),
        }
    }
}

} // verus!
