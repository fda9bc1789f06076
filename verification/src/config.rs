//! The node's configuration as the user edits it, and the daemon's native
//! configuration that is rendered from it.

use vstd::prelude::*;
use crate::backend::{
    backend_connection, resolve_backend, BackendConnection, BackendConnectionView,
    BackendResolutionError, BitcoinCoreConfig, BitcoinCoreConfigView,
};
use crate::text::{decimal, decimal_text, opt_text};

pub mod laws;

verus! {

/// Settings of the Tor connection.
#[derive(Debug, Clone, PartialEq, Eq)]
pub struct TorConfig {
    pub use_tor_only: bool,
    pub stream_isolation: bool,
}

/// Defaults for channels on the Bitcoin chain.
#[derive(Debug, Clone, PartialEq, Eq)]
pub struct BitcoinChannelConfig {
    pub default_channel_confirmations: usize,
    pub min_htlc: u64,
    pub min_htlc_out: u64,
    pub base_fee: u64,
    pub fee_rate: u64,
    pub time_lock_delta: usize,
}

/// Fine tuning of the autopilot.
#[derive(Debug, Clone, PartialEq, Eq)]
pub struct AutoPilotAdvancedConfig {
    pub min_confirmations: usize,
    pub confirmation_target: usize,
}

/// Settings of the autopilot. `allocation` is the share of funds to
/// allocate, as the decimal text of a fraction of one.
#[derive(Debug, Clone, PartialEq, Eq)]
pub struct AutoPilotConfig {
    pub enabled: bool,
    pub private: bool,
    pub maxchannels: usize,
    pub allocation: String,
    pub min_channel_size: u64,
    pub max_channel_size: u64,
    pub advanced: AutoPilotAdvancedConfig,
}

/// The advanced block. `max_channel_fee_allocation` is the decimal text of
/// a fraction of one.
#[derive(Debug, Clone, PartialEq, Eq)]
pub struct AdvancedConfig {
    pub debug_level: String,
    pub db_bolt_no_freelist_sync: bool,
    pub db_bolt_auto_compact: bool,
    pub db_bolt_auto_compact_min_age: u64,
    pub db_bolt_db_timeout: u64,
    pub recovery_window: Option<usize>,
    pub payments_expiration_grace_period: usize,
    pub default_remote_max_htlcs: usize,
    pub max_channel_fee_allocation: String,
    pub max_commit_fee_rate_anchors: usize,
    pub protocol_wumbo_channels: bool,
    pub protocol_no_anchors: bool,
    pub protocol_disable_script_enforced_lease: bool,
    pub gc_canceled_invoices_on_startup: bool,
    pub bitcoin: BitcoinChannelConfig,
}

/// The configuration document.
#[derive(Debug, Clone, PartialEq, Eq)]
pub struct Config {
    pub control_tor_address: String,
    pub peer_tor_address: String,
    pub watchtower_tor_address: String,
    pub alias: Option<String>,
    pub color: String,
    pub accept_keysend: bool,
    pub accept_amp: bool,
    pub reject_htlc: bool,
    pub min_chan_size: Option<u64>,
    pub max_chan_size: Option<u64>,
    pub bitcoind: BitcoinCoreConfig,
    pub autopilot: AutoPilotConfig,
    pub watchtower_enabled: bool,
    pub watchtower_client_enabled: bool,
    pub advanced: AdvancedConfig,
    pub tor: TorConfig,
}

/// The autopilot settings as a mathematical value.
pub struct AutoPilotConfigView {
    pub enabled: bool,
    pub private: bool,
    pub maxchannels: usize,
    pub allocation: Seq<char>,
    pub min_channel_size: u64,
    pub max_channel_size: u64,
    pub advanced: AutoPilotAdvancedConfig,
}

/// The advanced block as a mathematical value.
pub struct AdvancedConfigView {
    pub debug_level: Seq<char>,
    pub db_bolt_no_freelist_sync: bool,
    pub db_bolt_auto_compact: bool,
    pub db_bolt_auto_compact_min_age: u64,
    pub db_bolt_db_timeout: u64,
    pub recovery_window: Option<usize>,
    pub payments_expiration_grace_period: usize,
    pub default_remote_max_htlcs: usize,
    pub max_channel_fee_allocation: Seq<char>,
    pub max_commit_fee_rate_anchors: usize,
    pub protocol_wumbo_channels: bool,
    pub protocol_no_anchors: bool,
    pub protocol_disable_script_enforced_lease: bool,
    pub gc_canceled_invoices_on_startup: bool,
    pub bitcoin: BitcoinChannelConfig,
}

/// The configuration document as a mathematical value.
pub struct ConfigView {
    pub control_tor_address: Seq<char>,
    pub peer_tor_address: Seq<char>,
    pub watchtower_tor_address: Seq<char>,
    pub alias: Option<Seq<char>>,
    pub color: Seq<char>,
    pub accept_keysend: bool,
    pub accept_amp: bool,
    pub reject_htlc: bool,
    pub min_chan_size: Option<u64>,
    pub max_chan_size: Option<u64>,
    pub bitcoind: BitcoinCoreConfigView,
    pub autopilot: AutoPilotConfigView,
    pub watchtower_enabled: bool,
    pub watchtower_client_enabled: bool,
    pub advanced: AdvancedConfigView,
    pub tor: TorConfig,
}

impl View for AutoPilotConfig {
    type V = AutoPilotConfigView;

    open spec fn view(&self) -> AutoPilotConfigView {
        AutoPilotConfigView {
            enabled: self.enabled,
            private: self.private,
            maxchannels: self.maxchannels,
            allocation: self.allocation@,
            min_channel_size: self.min_channel_size,
            max_channel_size: self.max_channel_size,
            advanced: self.advanced,
        }
    }
}

impl View for AdvancedConfig {
    type V = AdvancedConfigView;

    open spec fn view(&self) -> AdvancedConfigView {
        AdvancedConfigView {
            debug_level: self.debug_level@,
            db_bolt_no_freelist_sync: self.db_bolt_no_freelist_sync,
            db_bolt_auto_compact: self.db_bolt_auto_compact,
            db_bolt_auto_compact_min_age: self.db_bolt_auto_compact_min_age,
            db_bolt_db_timeout: self.db_bolt_db_timeout,
            recovery_window: self.recovery_window,
            payments_expiration_grace_period: self.payments_expiration_grace_period,
            default_remote_max_htlcs: self.default_remote_max_htlcs,
            max_channel_fee_allocation: self.max_channel_fee_allocation@,
            max_commit_fee_rate_anchors: self.max_commit_fee_rate_anchors,
            protocol_wumbo_channels: self.protocol_wumbo_channels,
            protocol_no_anchors: self.protocol_no_anchors,
            protocol_disable_script_enforced_lease: self.protocol_disable_script_enforced_lease,
            gc_canceled_invoices_on_startup: self.gc_canceled_invoices_on_startup,
            bitcoin: self.bitcoin,
        }
    }
}

impl View for Config {
    type V = ConfigView;

    open spec fn view(&self) -> ConfigView {
        ConfigView {
            control_tor_address: self.control_tor_address@,
            peer_tor_address: self.peer_tor_address@,
            watchtower_tor_address: self.watchtower_tor_address@,
            alias: opt_text(self.alias),
            color: self.color@,
            accept_keysend: self.accept_keysend,
            accept_amp: self.accept_amp,
            reject_htlc: self.reject_htlc,
            min_chan_size: self.min_chan_size,
            max_chan_size: self.max_chan_size,
            bitcoind: self.bitcoind@,
            autopilot: self.autopilot@,
            watchtower_enabled: self.watchtower_enabled,
            watchtower_client_enabled: self.watchtower_client_enabled,
            advanced: self.advanced@,
            tor: self.tor,
        }
    }
}

/// One line of the native configuration.
#[derive(Debug, Clone, PartialEq, Eq)]
pub enum ConfigLine {
    /// The heading of a section.
    Section(String),
    /// A setting: `key=value`.
    Setting { key: String, value: String },
}

/// A line as a mathematical value.
pub enum ConfigLineView {
    Section(Seq<char>),
    Setting { key: Seq<char>, value: Seq<char> },
}

impl View for ConfigLine {
    type V = ConfigLineView;

    open spec fn view(&self) -> ConfigLineView {
        match *self {
            ConfigLine::Section(name) => ConfigLineView::Section(name@),
            ConfigLine::Setting { key, value } => ConfigLineView::Setting {
                key: key@,
                value: value@,
            },
        }
    }
}

/// The lines of a list as mathematical values.
pub open spec fn lines_view(lines: Seq<ConfigLine>) -> Seq<ConfigLineView> {
    lines.map_values(|l: ConfigLine| l@)
}

/// The text of one line, with its line feed.
pub open spec fn line_text(line: ConfigLineView) -> Seq<char> {
    match line {
        ConfigLineView::Section(name) => "["@ + name + "]\n"@,
        ConfigLineView::Setting { key, value } => key + "="@ + value + "\n"@,
    }
}

/// The text of a list of lines: one after the other.
pub open spec fn lines_text(lines: Seq<ConfigLineView>) -> Seq<char>
    decreases lines.len(),
{
    if lines.len() == 0 {
        Seq::empty()
    } else {
        lines_text(lines.drop_last()) + line_text(lines.last())
    }
}

/// A setting.
pub open spec fn setting(key: Seq<char>, value: Seq<char>) -> ConfigLineView {
    ConfigLineView::Setting { key, value }
}

/// The text of a flag.
pub open spec fn flag_text(b: bool) -> Seq<char> {
    if b {
        "true"@
    } else {
        "false"@
    }
}

/// A setting whose value is a flag.
pub open spec fn flag(key: Seq<char>, value: bool) -> ConfigLineView {
    setting(key, flag_text(value))
}

/// A setting whose value is a number.
pub open spec fn number(key: Seq<char>, value: nat) -> ConfigLineView {
    setting(key, decimal_text(value))
}

/// A setting whose value is a number with a unit.
pub open spec fn duration(key: Seq<char>, value: nat, unit: Seq<char>) -> ConfigLineView {
    setting(key, decimal_text(value) + unit)
}

/// The line of a bound that may be unset: a setting if it is set, and no
/// line at all if it is not.
pub open spec fn optional_number(key: Seq<char>, value: Option<u64>) -> Seq<ConfigLineView> {
    match value {
        Some(n) => seq![number(key, n as nat)],
        None => Seq::empty(),
    }
}

/// The general settings.
pub open spec fn application_lines(config: ConfigView, alias: Seq<char>) -> Seq<ConfigLineView> {
    seq![
        ConfigLineView::Section("Application Options"@),
        setting("externalhosts"@, config.peer_tor_address),
        setting("tlsextradomain"@, config.control_tor_address),
        duration(
            "payments-expiration-grace-period"@,
            config.advanced.payments_expiration_grace_period as nat,
            "s"@,
        ),
        setting("debuglevel"@, config.advanced.debug_level),
    ] + optional_number("minchansize"@, config.min_chan_size) + optional_number(
        "maxchansize"@,
        config.max_chan_size,
    ) + seq![
        number("default-remote-max-htlcs"@, config.advanced.default_remote_max_htlcs as nat),
        flag("rejecthtlc"@, config.reject_htlc),
        setting("max-channel-fee-allocation"@, config.advanced.max_channel_fee_allocation),
        number(
            "max-commit-fee-rate-anchors"@,
            config.advanced.max_commit_fee_rate_anchors as nat,
        ),
        flag("accept-keysend"@, config.accept_keysend),
        flag("accept-amp"@, config.accept_amp),
        flag(
            "gc-canceled-invoices-on-startup"@,
            config.advanced.gc_canceled_invoices_on_startup,
        ),
        setting("alias"@, alias),
        setting("color"@, config.color),
    ]
}

/// The channel defaults.
pub open spec fn bitcoin_lines(bitcoin: BitcoinChannelConfig) -> Seq<ConfigLineView> {
    seq![
        ConfigLineView::Section("Bitcoin"@),
        number("bitcoin.defaultchanconfs"@, bitcoin.default_channel_confirmations as nat),
        number("bitcoin.minhtlc"@, bitcoin.min_htlc as nat),
        number("bitcoin.minhtlcout"@, bitcoin.min_htlc_out as nat),
        number("bitcoin.basefee"@, bitcoin.base_fee as nat),
        number("bitcoin.feerate"@, bitcoin.fee_rate as nat),
        number("bitcoin.timelockdelta"@, bitcoin.time_lock_delta as nat),
    ]
}

/// A host and a port, joined by a colon.
pub open spec fn endpoint_text(host: Seq<char>, port: u16) -> Seq<char> {
    host + ":"@ + decimal_text(port as nat)
}

/// The connection to the chain node.
pub open spec fn bitcoind_lines(backend: BackendConnectionView) -> Seq<ConfigLineView> {
    seq![
        ConfigLineView::Section("Bitcoind"@),
        setting("bitcoind.rpchost"@, endpoint_text(backend.rpc_host, backend.rpc_port)),
        setting("bitcoind.rpcuser"@, backend.rpc_user),
        setting("bitcoind.rpcpass"@, backend.rpc_pass),
        setting(
            "bitcoind.zmqpubrawblock"@,
            "tcp://"@ + endpoint_text(backend.zmq_host, backend.zmq_block_port),
        ),
        setting(
            "bitcoind.zmqpubrawtx"@,
            "tcp://"@ + endpoint_text(backend.zmq_host, backend.zmq_tx_port),
        ),
    ]
}

/// The autopilot.
pub open spec fn autopilot_lines(autopilot: AutoPilotConfigView) -> Seq<ConfigLineView> {
    seq![
        ConfigLineView::Section("autopilot"@),
        flag("autopilot.active"@, autopilot.enabled),
        number("autopilot.maxchannels"@, autopilot.maxchannels as nat),
        setting("autopilot.allocation"@, autopilot.allocation),
        number("autopilot.minchansize"@, autopilot.min_channel_size as nat),
        number("autopilot.maxchansize"@, autopilot.max_channel_size as nat),
        flag("autopilot.private"@, autopilot.private),
        number("autopilot.minconfs"@, autopilot.advanced.min_confirmations as nat),
        number("autopilot.conftarget"@, autopilot.advanced.confirmation_target as nat),
    ]
}

/// Tor, the watchtower roles, the protocol options and the database.
pub open spec fn service_lines(config: ConfigView) -> Seq<ConfigLineView> {
    seq![
        ConfigLineView::Section("tor"@),
        flag("tor.skip-proxy-for-clearnet-targets"@, !config.tor.use_tor_only),
        flag("tor.streamisolation"@, config.tor.stream_isolation),
        ConfigLineView::Section("watchtower"@),
        flag("watchtower.active"@, config.watchtower_enabled),
        setting("watchtower.externalip"@, config.watchtower_tor_address),
        ConfigLineView::Section("wtclient"@),
        flag("wtclient.active"@, config.watchtower_client_enabled),
        ConfigLineView::Section("protocol"@),
        flag("protocol.wumbo-channels"@, config.advanced.protocol_wumbo_channels),
        flag("protocol.no-anchors"@, config.advanced.protocol_no_anchors),
        flag(
            "protocol.no-script-enforced-lease"@,
            config.advanced.protocol_disable_script_enforced_lease,
        ),
        ConfigLineView::Section("bolt"@),
        flag("db.bolt.nofreelistsync"@, config.advanced.db_bolt_no_freelist_sync),
        flag("db.bolt.auto-compact"@, config.advanced.db_bolt_auto_compact),
        duration(
            "db.bolt.auto-compact-min-age"@,
            config.advanced.db_bolt_auto_compact_min_age as nat,
            "h"@,
        ),
        duration("db.bolt.dbtimeout"@, config.advanced.db_bolt_db_timeout as nat, "s"@),
    ]
}

/// The lines of the native configuration for a configuration document, the
/// alias decided for it and the connection its backend resolved to.
pub open spec fn native_lines(
    config: ConfigView,
    alias: Seq<char>,
    backend: BackendConnectionView,
) -> Seq<ConfigLineView> {
    application_lines(config, alias) + bitcoin_lines(config.advanced.bitcoin) + bitcoind_lines(
        backend,
    ) + autopilot_lines(config.autopilot) + service_lines(config)
}

/// The native configuration as text.
pub open spec fn native_text(
    config: ConfigView,
    alias: Seq<char>,
    backend: BackendConnectionView,
) -> Seq<char> {
    lines_text(native_lines(config, alias, backend))
}

/// Builds a section heading.
fn make_section(name: &str) -> (r: ConfigLine)
    ensures
        r@ == ConfigLineView::Section(name@),
{
    ConfigLine::Section(String::from_str(name))
}

/// Builds a setting.
fn make_setting(key: &str, value: String) -> (r: ConfigLine)
    ensures
        r@ == setting(key@, value@),
{
    ConfigLine::Setting { key: String::from_str(key), value }
}

/// Builds a setting from a flag.
fn make_flag(key: &str, value: bool) -> (r: ConfigLine)
    ensures
        r@ == flag(key@, value),
{
    let text = if value {
        String::from_str("true")
    } else {
        String::from_str("false")
    };
    make_setting(key, text)
}

/// Builds a setting from a number.
fn make_number(key: &str, value: u64) -> (r: ConfigLine)
    ensures
        r@ == number(key@, value as nat),
{
    make_setting(key, decimal(value))
}

/// Builds a setting from a number and its unit.
fn make_duration(key: &str, value: u64, unit: &str) -> (r: ConfigLine)
    ensures
        r@ == duration(key@, value as nat, unit@),
{
    let mut text = decimal(value);
    text.append(unit);
    make_setting(key, text)
}

/// Joins a host and a port after a prefix.
fn make_endpoint(prefix: &str, host: &str, port: u16) -> (r: String)
    ensures
        r@ == prefix@ + endpoint_text(host@, port),
{
    let mut r = String::from_str(prefix);
    r.append(host);
    r.append(":");
    let digits = decimal(port as u64);
    r.append(digits.as_str());
    r
}

/// Appends the line of a bound that may be unset.
fn push_optional_number(lines: &mut Vec<ConfigLine>, key: &str, value: Option<u64>)
    ensures
        lines_view(final(lines)@) == lines_view(old(lines)@) + optional_number(key@, value),
{
    if let Some(n) = value {
        lines.push(make_number(key, n));
    }
}

/// The general settings.
fn application(config: &Config, alias: &str) -> (r: Vec<ConfigLine>)
    ensures
        lines_view(r@) == application_lines(config@, alias@),
{
    let advanced = &config.advanced;
    let mut lines: Vec<ConfigLine> = Vec::new();
    lines.push(make_section("Application Options"));
    lines.push(make_setting("externalhosts", config.peer_tor_address.clone()));
    lines.push(make_setting("tlsextradomain", config.control_tor_address.clone()));
    lines.push(
        make_duration(
            "payments-expiration-grace-period",
            advanced.payments_expiration_grace_period as u64,
            "s",
        ),
    );
    lines.push(make_setting("debuglevel", advanced.debug_level.clone()));
    push_optional_number(&mut lines, "minchansize", config.min_chan_size);
    push_optional_number(&mut lines, "maxchansize", config.max_chan_size);
    let ghost middle = lines_view(lines@);
    lines.push(make_number("default-remote-max-htlcs", advanced.default_remote_max_htlcs as u64));
    lines.push(make_flag("rejecthtlc", config.reject_htlc));
    lines.push(
        make_setting("max-channel-fee-allocation", advanced.max_channel_fee_allocation.clone()),
    );
    lines.push(
        make_number("max-commit-fee-rate-anchors", advanced.max_commit_fee_rate_anchors as u64),
    );
    lines.push(make_flag("accept-keysend", config.accept_keysend));
    lines.push(make_flag("accept-amp", config.accept_amp));
    lines.push(
        make_flag("gc-canceled-invoices-on-startup", advanced.gc_canceled_invoices_on_startup),
    );
    lines.push(make_setting("alias", String::from_str(alias)));
    lines.push(make_setting("color", config.color.clone()));
    proof {
        let tail = lines_view(lines@).subrange(middle.len() as int, lines@.len() as int);
        assert(lines_view(lines@) =~= middle + tail);
    }
    lines
}

/// The channel defaults.
fn bitcoin(channels: &BitcoinChannelConfig) -> (r: Vec<ConfigLine>)
    ensures
        lines_view(r@) == bitcoin_lines(*channels),
{
    let mut lines: Vec<ConfigLine> = Vec::new();
    lines.push(make_section("Bitcoin"));
    lines.push(
        make_number("bitcoin.defaultchanconfs", channels.default_channel_confirmations as u64),
    );
    lines.push(make_number("bitcoin.minhtlc", channels.min_htlc));
    lines.push(make_number("bitcoin.minhtlcout", channels.min_htlc_out));
    lines.push(make_number("bitcoin.basefee", channels.base_fee));
    lines.push(make_number("bitcoin.feerate", channels.fee_rate));
    lines.push(make_number("bitcoin.timelockdelta", channels.time_lock_delta as u64));
    lines
}

/// The connection to the chain node.
fn bitcoind(backend: &BackendConnection) -> (r: Vec<ConfigLine>)
    ensures
        lines_view(r@) == bitcoind_lines(backend@),
{
    let mut lines: Vec<ConfigLine> = Vec::new();
    lines.push(make_section("Bitcoind"));
    let rpc = make_endpoint("", backend.rpc_host.as_str(), backend.rpc_port);
    proof {
        reveal_strlit("");
    }
    lines.push(make_setting("bitcoind.rpchost", rpc));
    lines.push(make_setting("bitcoind.rpcuser", backend.rpc_user.clone()));
    lines.push(make_setting("bitcoind.rpcpass", backend.rpc_pass.clone()));
    lines.push(
        make_setting(
            "bitcoind.zmqpubrawblock",
            make_endpoint("tcp://", backend.zmq_host.as_str(), backend.zmq_block_port),
        ),
    );
    lines.push(
        make_setting(
            "bitcoind.zmqpubrawtx",
            make_endpoint("tcp://", backend.zmq_host.as_str(), backend.zmq_tx_port),
        ),
    );
    lines
}

/// The autopilot.
fn autopilot(pilot: &AutoPilotConfig) -> (r: Vec<ConfigLine>)
    ensures
        lines_view(r@) == autopilot_lines(pilot@),
{
    let mut lines: Vec<ConfigLine> = Vec::new();
    lines.push(make_section("autopilot"));
    lines.push(make_flag("autopilot.active", pilot.enabled));
    lines.push(make_number("autopilot.maxchannels", pilot.maxchannels as u64));
    lines.push(make_setting("autopilot.allocation", pilot.allocation.clone()));
    lines.push(make_number("autopilot.minchansize", pilot.min_channel_size));
    lines.push(make_number("autopilot.maxchansize", pilot.max_channel_size));
    lines.push(make_flag("autopilot.private", pilot.private));
    lines.push(make_number("autopilot.minconfs", pilot.advanced.min_confirmations as u64));
    lines.push(make_number("autopilot.conftarget", pilot.advanced.confirmation_target as u64));
    lines
}

/// Tor, the watchtower roles, the protocol options and the database.
fn services(config: &Config) -> (r: Vec<ConfigLine>)
    ensures
        lines_view(r@) == service_lines(config@),
{
    let advanced = &config.advanced;
    let mut lines: Vec<ConfigLine> = Vec::new();
    lines.push(make_section("tor"));
    lines.push(make_flag("tor.skip-proxy-for-clearnet-targets", !config.tor.use_tor_only));
    lines.push(make_flag("tor.streamisolation", config.tor.stream_isolation));
    lines.push(make_section("watchtower"));
    lines.push(make_flag("watchtower.active", config.watchtower_enabled));
    lines.push(make_setting("watchtower.externalip", config.watchtower_tor_address.clone()));
    lines.push(make_section("wtclient"));
    lines.push(make_flag("wtclient.active", config.watchtower_client_enabled));
    lines.push(make_section("protocol"));
    lines.push(make_flag("protocol.wumbo-channels", advanced.protocol_wumbo_channels));
    lines.push(make_flag("protocol.no-anchors", advanced.protocol_no_anchors));
    lines.push(
        make_flag(
            "protocol.no-script-enforced-lease",
            advanced.protocol_disable_script_enforced_lease,
        ),
    );
    lines.push(make_section("bolt"));
    lines.push(make_flag("db.bolt.nofreelistsync", advanced.db_bolt_no_freelist_sync));
    lines.push(make_flag("db.bolt.auto-compact", advanced.db_bolt_auto_compact));
    lines.push(
        make_duration("db.bolt.auto-compact-min-age", advanced.db_bolt_auto_compact_min_age, "h"),
    );
    lines.push(make_duration("db.bolt.dbtimeout", advanced.db_bolt_db_timeout, "s"));
    lines
}

/// Appends the lines of `more` to `lines`.
fn extend(lines: &mut Vec<ConfigLine>, more: Vec<ConfigLine>)
    ensures
        lines_view(final(lines)@) == lines_view(old(lines)@) + lines_view(more@),
{
    let mut more = more;
    lines.append(&mut more);
}

/// Builds the lines of the native configuration.
pub fn native_config_lines(config: &Config, alias: &str, backend: &BackendConnection) -> (r: Vec<
    ConfigLine,
>)
    ensures
        lines_view(r@) == native_lines(config@, alias@, backend@),
{
    let mut lines = application(config, alias);
    extend(&mut lines, bitcoin(&config.advanced.bitcoin));
    extend(&mut lines, bitcoind(backend));
    extend(&mut lines, autopilot(&config.autopilot));
    extend(&mut lines, services(config));
    lines
}

/// Writes lines out as text.
pub fn render_lines(lines: &Vec<ConfigLine>) -> (r: String)
    ensures
        r@ == lines_text(lines_view(lines@)),
{
    let ghost all = lines_view(lines@);
    let mut out = String::new();
    let mut i: usize = 0;
    while i < lines.len()
        invariant
            i <= lines.len(),
            all == lines_view(lines@),
            out@ == lines_text(all.take(i as int)),
        decreases lines.len() - i,
    {
        proof {
            assert(all.take(i + 1).drop_last() =~= all.take(i as int));
        }
        match &lines[i] {
            ConfigLine::Section(name) => {
                out.append("[");
                out.append(name.as_str());
                out.append("]\n");
            },
            ConfigLine::Setting { key, value } => {
                out.append(key.as_str());
                out.append("=");
                out.append(value.as_str());
                out.append("\n");
            },
        }
        i += 1;
    }
    assert(all.take(lines@.len() as int) =~= all);
    out
}

/// Renders the native configuration for a configuration document, the alias
/// decided for it and the connection its backend resolved to.
pub fn render_native_config(config: &Config, alias: &str, backend: &BackendConnection) -> (r:
    String)
    ensures
        r@ == native_text(config@, alias@, backend@),
{
    let lines = native_config_lines(config, alias, backend);
    render_lines(&lines)
}

/// The settings of a node in their resolved form: the configuration
/// document, the alias decided for it, and the connection that its backend
/// description stands for.
#[derive(Debug, Clone, PartialEq, Eq)]
pub struct NodeConfig {
    pub config: Config,
    pub alias: String,
    pub backend: BackendConnection,
}

impl NodeConfig {
    /// The connection is the one that the document's backend resolves to,
    /// and the alias is the document's own wherever it sets one.
    pub open spec fn wf(&self) -> bool {
        &&& backend_connection(self.config@.bitcoind) == Ok::<
            BackendConnectionView,
            BackendResolutionError,
        >(self.backend@)
        &&& self.config@.alias matches Some(a) ==> self.alias@ == a
    }

    /// Renders the daemon's native configuration.
    pub fn render(&self) -> (r: String)
        ensures
            r@ == native_text(self.config@, self.alias@, self.backend@),
    {
        render_native_config(&self.config, self.alias.as_str(), &self.backend)
    }
}

/// Resolves a configuration document. `alias` is the alias decided for it;
/// where the document sets an alias of its own, that one is used.
pub fn translate(config: Config, alias: String) -> (r: Result<NodeConfig, BackendResolutionError>)
    ensures
        match r {
            Ok(node) => {
                &&& node.wf()
                &&& node.config@ == config@
                &&& node.alias@ == (match config@.alias {
                    Some(a) => a,
                    None => alias@,
                })
            },
            Err(e) => backend_connection(config@.bitcoind) == Err::<
                BackendConnectionView,
                BackendResolutionError,
            >(e),
        },
{
    let backend = match resolve_backend(&config.bitcoind) {
        Ok(backend) => backend,
        Err(e) => {
            return Err(e);
        },
    };
    let alias = match &config.alias {
        Some(a) => a.clone(),
        None => alias,
    };
    Ok(NodeConfig { config, alias, backend })
}

} // verus!
