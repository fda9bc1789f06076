use configurator::pem::certificate_body;
use configurator::stats::{
    build_properties, get_stats, lnd_properties_from, not_ready, Data, LndGetInfoRes,
    Properties, StatsError,
};

fn sample_info() -> LndGetInfoRes {
    LndGetInfoRes {
        identity_pubkey: "02abc".to_string(),
        block_height: 700123,
        synced_to_chain: true,
        synced_to_graph: false,
    }
}

const PEM: &[u8] = b"-----BEGIN CERTIFICATE-----\nAQID\r\n+/8=\n\n-----END CERTIFICATE-----\n";

#[test]
fn certificate_body_joins_the_inner_lines() {
    assert_eq!(certificate_body(PEM), b"AQID+/8=".to_vec());
    assert_eq!(certificate_body(b""), Vec::<u8>::new());
    assert_eq!(certificate_body(b"abc"), b"abc".to_vec());
    assert_eq!(certificate_body(b"abc\r"), b"abc\r".to_vec());
    assert_eq!(certificate_body(b"a\n\nb\r\n"), b"ab".to_vec());
}

#[test]
fn full_document_has_every_property() {
    let doc = lnd_properties_from(&sample_info(), "ctl.onion", "peer.onion", "my-node", "CERT", "MAC");
    assert_eq!(doc.version, 2);
    match doc.data {
        Data::LND {
            sync_height,
            synced_to_chain,
            synced_to_graph,
            lnd_connect_grpc,
            lnd_connect_rest,
            node_uri,
            alias,
        } => {
            assert_eq!(sync_height.value, "700123");
            assert_eq!(sync_height.value_type, "string");
            assert_eq!(
                sync_height.description.as_deref(),
                Some("The latest block height that has been processed by LND")
            );
            assert!(!sync_height.copyable && !sync_height.qr && !sync_height.masked);
            assert_eq!(synced_to_chain.value, "✅");
            assert_eq!(synced_to_graph.value, "❌");
            assert_eq!(
                lnd_connect_grpc.value,
                "lndconnect://ctl.onion:10009?cert=CERT&macaroon=MAC"
            );
            assert!(lnd_connect_grpc.copyable && lnd_connect_grpc.qr && lnd_connect_grpc.masked);
            assert_eq!(
                lnd_connect_rest.value,
                "lndconnect://ctl.onion:8080?cert=CERT&macaroon=MAC"
            );
            assert_eq!(node_uri.value, "02abc@peer.onion:9735");
            assert!(node_uri.copyable && node_uri.qr && !node_uri.masked);
            assert_eq!(alias.value, "my-node");
        }
        Data::NotReady { .. } => panic!("expected the full document"),
    }
}

#[test]
fn credentials_are_reencoded_url_safe_without_padding() {
    let doc = build_properties(&sample_info(), "c", "p", "a", PEM, &[0xfb, 0xff]).unwrap();
    match doc.data {
        Data::LND { lnd_connect_grpc, .. } => {
            assert_eq!(lnd_connect_grpc.value, "lndconnect://c:10009?cert=AQID-_8&macaroon=-_8");
        }
        Data::NotReady { .. } => panic!("expected the full document"),
    }
}

#[test]
fn certificate_that_is_not_base64_is_rejected() {
    let r = build_properties(&sample_info(), "c", "p", "a", b"not base64!", &[1]);
    assert_eq!(r, Err(StatsError::InvalidCertificate));
}

#[test]
fn placeholder_document() {
    let doc = not_ready();
    assert_eq!(doc.version, 2);
    match doc.data {
        Data::NotReady { not_ready } => {
            assert_eq!(
                not_ready.value,
                "Could not find properties. The service might still be starting"
            );
            assert_eq!(
                not_ready.description.as_deref(),
                Some("Fallback Message When Properties could not be found")
            );
            assert!(!not_ready.copyable && !not_ready.qr && !not_ready.masked);
        }
        Data::LND { .. } => panic!("expected the placeholder"),
    }
}

fn cycle(info: Option<LndGetInfoRes>, stored: Option<Properties>) -> (Properties, bool) {
    let o = get_stats(
        info,
        stored,
        "c".to_string(),
        "p".to_string(),
        "a".to_string(),
        PEM,
        &[1, 2, 3],
    )
    .unwrap();
    (o.document, o.persist)
}

#[test]
fn failed_query_serves_the_stored_document_unchanged() {
    let (first, persist) = cycle(Some(sample_info()), None);
    assert!(persist);
    let (second, persist) = cycle(None, Some(first.clone()));
    assert!(!persist);
    assert_eq!(second, first);
}

#[test]
fn failed_query_with_nothing_stored_serves_the_placeholder() {
    let (doc, persist) = cycle(None, None);
    assert!(!persist);
    assert_eq!(doc, not_ready());
}

#[test]
fn successful_query_replaces_the_stored_document() {
    let (old, _) = cycle(None, None);
    let (doc, persist) = cycle(Some(sample_info()), Some(old.clone()));
    assert!(persist);
    assert_ne!(doc, old);
}

#[test]
fn status_errors_have_their_messages() {
    assert_eq!(StatsError::InvalidCertificate.message(), "Invalid certificate");
    assert_eq!(StatsError::TooLarge.message(), "Certificate or macaroon too large");
}
