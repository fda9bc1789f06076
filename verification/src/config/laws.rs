//! What holds of every rendered configuration.

use vstd::prelude::*;
use crate::backend::BackendConnectionView;
use crate::config::{
    application_lines, autopilot_lines, bitcoin_lines, bitcoind_lines, native_lines, number,
    optional_number, service_lines, ConfigLineView, ConfigView,
};

verus! {

/// The line sets `key`.
pub open spec fn sets(line: ConfigLineView, key: Seq<char>) -> bool {
    line matches ConfigLineView::Setting { key: k, .. } && k == key
}

/// Some line among `lines` sets `key`.
pub open spec fn has_setting(lines: Seq<ConfigLineView>, key: Seq<char>) -> bool {
    exists|i: int| 0 <= i < lines.len() && sets(#[trigger] lines[i], key)
}

/// The key of the lower channel size bound.
pub open spec fn min_key() -> Seq<char> {
    "minchansize"@
}

/// The key of the upper channel size bound.
pub open spec fn max_key() -> Seq<char> {
    "maxchansize"@
}

/// `key` is one of the two channel size bounds.
pub open spec fn is_bound_key(key: Seq<char>) -> bool {
    key == min_key() || key == max_key()
}

/// The number of general settings that stand before the bounds.
pub open spec fn lines_before_bounds() -> int {
    5
}

/// The two bound keys are eleven characters long and differ in the second.
proof fn lemma_bound_keys()
    ensures
        min_key().len() == 11,
        max_key().len() == 11,
        min_key()[0] == 'm',
        max_key()[0] == 'm',
        min_key()[1] == 'i',
        max_key()[1] == 'a',
{
    reveal_strlit("minchansize");
    reveal_strlit("maxchansize");
}

/// The general settings other than the bounds set no bound key.
proof fn lemma_general_lines_set_no_bound(config: ConfigView, alias: Seq<char>, key: Seq<char>, i: int)
    requires
        is_bound_key(key),
        0 <= i < application_lines(config, alias).len(),
        i < lines_before_bounds() || i >= lines_before_bounds() + optional_number(
            min_key(),
            config.min_chan_size,
        ).len() + optional_number(max_key(), config.max_chan_size).len(),
    ensures
        !sets(application_lines(config, alias)[i], key),
{
    lemma_bound_keys();
    reveal_strlit("externalhosts");
    reveal_strlit("tlsextradomain");
    reveal_strlit("payments-expiration-grace-period");
    reveal_strlit("debuglevel");
    reveal_strlit("default-remote-max-htlcs");
    reveal_strlit("rejecthtlc");
    reveal_strlit("max-channel-fee-allocation");
    reveal_strlit("max-commit-fee-rate-anchors");
    reveal_strlit("accept-keysend");
    reveal_strlit("accept-amp");
    reveal_strlit("gc-canceled-invoices-on-startup");
    reveal_strlit("alias");
    reveal_strlit("color");
}

/// No line outside the general settings sets a bound key.
proof fn lemma_other_sections_set_no_bound(
    config: ConfigView,
    backend: BackendConnectionView,
    key: Seq<char>,
)
    requires
        is_bound_key(key),
    ensures
        !has_setting(bitcoin_lines(config.advanced.bitcoin), key),
        !has_setting(bitcoind_lines(backend), key),
        !has_setting(autopilot_lines(config.autopilot), key),
        !has_setting(service_lines(config), key),
{
    lemma_bound_keys();
    assert(!has_setting(bitcoin_lines(config.advanced.bitcoin), key)) by {
        reveal_strlit("bitcoin.defaultchanconfs");
        reveal_strlit("bitcoin.minhtlc");
        reveal_strlit("bitcoin.minhtlcout");
        reveal_strlit("bitcoin.basefee");
        reveal_strlit("bitcoin.feerate");
        reveal_strlit("bitcoin.timelockdelta");
    }
    assert(!has_setting(bitcoind_lines(backend), key)) by {
        reveal_strlit("bitcoind.rpchost");
        reveal_strlit("bitcoind.rpcuser");
        reveal_strlit("bitcoind.rpcpass");
        reveal_strlit("bitcoind.zmqpubrawblock");
        reveal_strlit("bitcoind.zmqpubrawtx");
    }
    assert(!has_setting(autopilot_lines(config.autopilot), key)) by {
        reveal_strlit("autopilot.active");
        reveal_strlit("autopilot.maxchannels");
        reveal_strlit("autopilot.allocation");
        reveal_strlit("autopilot.minchansize");
        reveal_strlit("autopilot.maxchansize");
        reveal_strlit("autopilot.private");
        reveal_strlit("autopilot.minconfs");
        reveal_strlit("autopilot.conftarget");
    }
    assert(!has_setting(service_lines(config), key)) by {
        reveal_strlit("tor.skip-proxy-for-clearnet-targets");
        reveal_strlit("tor.streamisolation");
        reveal_strlit("watchtower.active");
        reveal_strlit("watchtower.externalip");
        reveal_strlit("wtclient.active");
        reveal_strlit("protocol.wumbo-channels");
        reveal_strlit("protocol.no-anchors");
        reveal_strlit("protocol.no-script-enforced-lease");
        reveal_strlit("db.bolt.nofreelistsync");
        reveal_strlit("db.bolt.auto-compact");
        reveal_strlit("db.bolt.auto-compact-min-age");
        reveal_strlit("db.bolt.dbtimeout");
    }
}

/// A line of the native configuration that sets a bound key is the line of
/// that bound, and the bound is set.
proof fn lemma_line_with_bound_key(
    config: ConfigView,
    alias: Seq<char>,
    backend: BackendConnectionView,
    i: int,
)
    requires
        0 <= i < native_lines(config, alias, backend).len(),
        native_lines(config, alias, backend)[i] is Setting,
        is_bound_key(native_lines(config, alias, backend)[i]->Setting_key),
    ensures
        (config.min_chan_size is Some && native_lines(config, alias, backend)[i] == number(
            min_key(),
            config.min_chan_size->Some_0 as nat,
        )) || (config.max_chan_size is Some && native_lines(config, alias, backend)[i] == number(
            max_key(),
            config.max_chan_size->Some_0 as nat,
        )),
{
    let lines = native_lines(config, alias, backend);
    let key = lines[i]->Setting_key;
    let app = application_lines(config, alias);
    let b1 = bitcoin_lines(config.advanced.bitcoin);
    let b2 = bitcoind_lines(backend);
    let ap = autopilot_lines(config.autopilot);
    let sv = service_lines(config);
    let low = optional_number(min_key(), config.min_chan_size);
    let high = optional_number(max_key(), config.max_chan_size);
    let before = lines_before_bounds();
    lemma_other_sections_set_no_bound(config, backend, key);
    if i < app.len() {
        // A general setting: a bound, or a line that sets no bound key.
        assert(lines[i] == app[i]);
        if i < before || i >= before + low.len() + high.len() {
            lemma_general_lines_set_no_bound(config, alias, key, i);
        } else if i < before + low.len() {
            assert(app[i] == low[i - before]);
        } else {
            assert(app[i] == high[i - before - low.len()]);
        }
    } else if i < app.len() + b1.len() {
        assert(lines[i] == b1[i - app.len()]);
    } else if i < app.len() + b1.len() + b2.len() {
        assert(lines[i] == b2[i - app.len() - b1.len()]);
    } else if i < app.len() + b1.len() + b2.len() + ap.len() {
        assert(lines[i] == ap[i - app.len() - b1.len() - b2.len()]);
    } else {
        assert(lines[i] == sv[i - app.len() - b1.len() - b2.len() - ap.len()]);
    }
}

/// The native configuration holds a line for a channel size bound exactly if
/// the bound is set, and that line gives the bound as a decimal numeral: an
/// unset bound is left out, never written with an empty or a null value.
pub proof fn lemma_bounds_are_present_or_absent(
    config: ConfigView,
    alias: Seq<char>,
    backend: BackendConnectionView,
)
    ensures
        has_setting(native_lines(config, alias, backend), min_key()) <==> config.min_chan_size
            is Some,
        has_setting(native_lines(config, alias, backend), max_key()) <==> config.max_chan_size
            is Some,
        forall|i: int|
            0 <= i < native_lines(config, alias, backend).len() && sets(
                #[trigger] native_lines(config, alias, backend)[i],
                min_key(),
            ) ==> native_lines(config, alias, backend)[i] == number(
                min_key(),
                config.min_chan_size->Some_0 as nat,
            ),
        forall|i: int|
            0 <= i < native_lines(config, alias, backend).len() && sets(
                #[trigger] native_lines(config, alias, backend)[i],
                max_key(),
            ) ==> native_lines(config, alias, backend)[i] == number(
                max_key(),
                config.max_chan_size->Some_0 as nat,
            ),
{
    let lines = native_lines(config, alias, backend);
    let low = optional_number(min_key(), config.min_chan_size);
    let before = lines_before_bounds();
    lemma_bound_keys();
    assert forall|i: int| 0 <= i < lines.len() && (sets(#[trigger] lines[i], min_key()) || sets(
        lines[i],
        max_key(),
    )) implies (config.min_chan_size is Some && lines[i] == number(
        min_key(),
        config.min_chan_size->Some_0 as nat,
    )) || (config.max_chan_size is Some && lines[i] == number(
        max_key(),
        config.max_chan_size->Some_0 as nat,
    )) by {
        lemma_line_with_bound_key(config, alias, backend, i);
    }
    if config.min_chan_size is Some {
        assert(sets(lines[before], min_key()));
    }
    if config.max_chan_size is Some {
        assert(sets(lines[before + low.len()], max_key()));
    }
}

} // verus!
