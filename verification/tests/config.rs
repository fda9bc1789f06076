use configurator::backend::{
    parse_uri, resolve_backend, BackendResolutionError, BitcoinCoreConfig,
    ExternalBitcoinCoreConfig,
};
use configurator::config::{
    native_config_lines, render_lines, render_native_config, translate, AdvancedConfig,
    AutoPilotAdvancedConfig, AutoPilotConfig, BitcoinChannelConfig, Config, ConfigLine,
    TorConfig,
};

fn sample(min_chan_size: Option<u64>, max_chan_size: Option<u64>) -> Config {
    Config {
        control_tor_address: "control.onion".to_string(),
        peer_tor_address: "peer.onion".to_string(),
        watchtower_tor_address: "tower.onion".to_string(),
        alias: None,
        color: "#3399ff".to_string(),
        accept_keysend: true,
        accept_amp: false,
        reject_htlc: false,
        min_chan_size,
        max_chan_size,
        bitcoind: BitcoinCoreConfig::Internal {
            user: "rpcuser".to_string(),
            password: "rpcpass".to_string(),
        },
        autopilot: AutoPilotConfig {
            enabled: false,
            private: true,
            maxchannels: 5,
            allocation: "0.6".to_string(),
            min_channel_size: 20000,
            max_channel_size: 16777215,
            advanced: AutoPilotAdvancedConfig { min_confirmations: 1, confirmation_target: 3 },
        },
        watchtower_enabled: false,
        watchtower_client_enabled: true,
        advanced: AdvancedConfig {
            debug_level: "info".to_string(),
            db_bolt_no_freelist_sync: false,
            db_bolt_auto_compact: true,
            db_bolt_auto_compact_min_age: 168,
            db_bolt_db_timeout: 60,
            recovery_window: None,
            payments_expiration_grace_period: 30,
            default_remote_max_htlcs: 483,
            max_channel_fee_allocation: "0.5".to_string(),
            max_commit_fee_rate_anchors: 10,
            protocol_wumbo_channels: false,
            protocol_no_anchors: false,
            protocol_disable_script_enforced_lease: false,
            gc_canceled_invoices_on_startup: true,
            bitcoin: BitcoinChannelConfig {
                default_channel_confirmations: 3,
                min_htlc: 1,
                min_htlc_out: 1000,
                base_fee: 1000,
                fee_rate: 1,
                time_lock_delta: 40,
            },
        },
        tor: TorConfig { use_tor_only: true, stream_isolation: false },
    }
}

const EXPECTED: &str = "[Application Options]
externalhosts=peer.onion
tlsextradomain=control.onion
payments-expiration-grace-period=30s
debuglevel=info
minchansize=20000
default-remote-max-htlcs=483
rejecthtlc=false
max-channel-fee-allocation=0.5
max-commit-fee-rate-anchors=10
accept-keysend=true
accept-amp=false
gc-canceled-invoices-on-startup=true
alias=start9-0x0000002a
color=#3399ff
[Bitcoin]
bitcoin.defaultchanconfs=3
bitcoin.minhtlc=1
bitcoin.minhtlcout=1000
bitcoin.basefee=1000
bitcoin.feerate=1
bitcoin.timelockdelta=40
[Bitcoind]
bitcoind.rpchost=bitcoind.embassy:8332
bitcoind.rpcuser=rpcuser
bitcoind.rpcpass=rpcpass
bitcoind.zmqpubrawblock=tcp://bitcoind.embassy:28332
bitcoind.zmqpubrawtx=tcp://bitcoind.embassy:28333
[autopilot]
autopilot.active=false
autopilot.maxchannels=5
autopilot.allocation=0.6
autopilot.minchansize=20000
autopilot.maxchansize=16777215
autopilot.private=true
autopilot.minconfs=1
autopilot.conftarget=3
[tor]
tor.skip-proxy-for-clearnet-targets=false
tor.streamisolation=false
[watchtower]
watchtower.active=false
watchtower.externalip=tower.onion
[wtclient]
wtclient.active=true
[protocol]
protocol.wumbo-channels=false
protocol.no-anchors=false
protocol.no-script-enforced-lease=false
[bolt]
db.bolt.nofreelistsync=false
db.bolt.auto-compact=true
db.bolt.auto-compact-min-age=168h
db.bolt.dbtimeout=60s
";

#[test]
fn native_config_renders_every_setting() {
    let config = sample(Some(20000), None);
    let backend = resolve_backend(&config.bitcoind).unwrap();
    let text = render_native_config(&config, "start9-0x0000002a", &backend);
    assert_eq!(text, EXPECTED);
}

fn keys(lines: &[ConfigLine]) -> Vec<String> {
    lines
        .iter()
        .filter_map(|l| match l {
            ConfigLine::Setting { key, .. } => Some(key.clone()),
            ConfigLine::Section(_) => None,
        })
        .collect()
}

#[test]
fn unset_bounds_leave_no_line() {
    let config = sample(None, None);
    let backend = resolve_backend(&config.bitcoind).unwrap();
    let lines = native_config_lines(&config, "a", &backend);
    let keys = keys(&lines);
    assert!(!keys.contains(&"minchansize".to_string()));
    assert!(!keys.contains(&"maxchansize".to_string()));
    let text = render_native_config(&config, "a", &backend);
    assert!(!text.contains("\nminchansize"));
    assert!(!text.contains("\nmaxchansize"));
    assert!(!text.contains("null"));
    assert!(!text.contains("=\n"));
    assert!(!text.contains("\n\n"));
}

#[test]
fn set_bounds_render_as_numbers() {
    let config = sample(Some(0), Some(u64::MAX));
    let backend = resolve_backend(&config.bitcoind).unwrap();
    let lines = native_config_lines(&config, "a", &backend);
    assert_eq!(
        lines[5],
        ConfigLine::Setting { key: "minchansize".to_string(), value: "0".to_string() }
    );
    assert_eq!(
        lines[6],
        ConfigLine::Setting {
            key: "maxchansize".to_string(),
            value: "18446744073709551615".to_string()
        }
    );
    let all = keys(&lines);
    assert_eq!(all.iter().filter(|k| k.as_str() == "minchansize").count(), 1);
    assert_eq!(all.iter().filter(|k| k.as_str() == "maxchansize").count(), 1);
    assert_eq!(lines.len(), 55);
    assert_eq!(native_config_lines(&sample(None, None), "a", &backend).len(), 53);
}

#[test]
fn render_lines_writes_headings_and_settings() {
    let lines = vec![
        ConfigLine::Section("tor".to_string()),
        ConfigLine::Setting { key: "k".to_string(), value: "v=w".to_string() },
        ConfigLine::Setting { key: "empty".to_string(), value: String::new() },
    ];
    assert_eq!(render_lines(&lines), "[tor]\nk=v=w\nempty=\n");
    assert_eq!(render_lines(&vec![]), "");
}

#[test]
fn translate_resolves_backend_and_alias() {
    let node = translate(sample(Some(20000), None), "start9-0x0000002a".to_string()).unwrap();
    assert_eq!(node.alias, "start9-0x0000002a");
    assert_eq!(node.backend.rpc_host, "bitcoind.embassy");
    assert_eq!(node.backend.rpc_port, 8332);
    assert_eq!(node.config, sample(Some(20000), None));
    assert_eq!(node.render(), EXPECTED);

    let mut named = sample(None, None);
    named.alias = Some("mine".to_string());
    let node = translate(named, "start9-0x0000002a".to_string()).unwrap();
    assert_eq!(node.alias, "mine");
}

#[test]
fn translate_fails_on_a_backend_that_does_not_resolve() {
    let mut config = sample(None, None);
    config.bitcoind = BitcoinCoreConfig::External {
        connection_settings: ExternalBitcoinCoreConfig::QuickConnect {
            quick_connect_url: parse_uri("btcstandup://host").unwrap(),
            zmq_block_port: 28332,
            zmq_tx_port: 28333,
        },
    };
    assert_eq!(
        translate(config, "a".to_string()),
        Err(BackendResolutionError::InvalidBackendURI)
    );
}
