use one_kx_hook::codec::{deserialize_config, serialize_config, CONFIG_RECORD_BYTES};
use one_kx_hook::identity::Identity;
use one_kx_hook::policy::{initialize, HookConfig, PendingCapUpdate};

fn id(tag: u64) -> Identity {
    Identity { w0: tag, w1: tag + 1, w2: tag + 2, w3: tag + 3 }
}

#[test]
fn test_hook_config_size() {
    // Host-side allocation: discriminator (8) + version (1) + dev_wallet (32)
    // + wallet_cap_raw (8) + governance_authority (32) + pending update flag
    // and fields (1 + 8 + 8 + 8).
    let expected_size = 8 + 1 + 32 + 8 + 32 + 1 + (8 + 8 + 8);
    assert_eq!(expected_size, 106);
    assert!(expected_size <= 106, "HookConfig too large for allocated space");

    // The record payload itself, without the 8-byte storage header.
    assert_eq!(8 + CONFIG_RECORD_BYTES, 106);
}

#[test]
fn round_trip_without_pending_update() {
    let config = initialize(id(10), id(20));
    let bytes = serialize_config(&config);
    assert_eq!(bytes.len(), CONFIG_RECORD_BYTES);
    assert_eq!(deserialize_config(&bytes), Some(config));
}

#[test]
fn round_trip_with_pending_update() {
    let mut config = initialize(id(10), id(20));
    config.pending_cap_update = Some(PendingCapUpdate {
        new_cap: 7_000_000_000,
        proposed_at: -5, // before the epoch; the sign survives the trip
        execution_time: -5 + 48 * 60 * 60,
    });
    let bytes = serialize_config(&config);
    assert_eq!(deserialize_config(&bytes), Some(config));
}

#[test]
fn layout_is_exact() {
    let config = HookConfig {
        version: 1,
        dev_wallet: Identity { w0: 0x0807060504030201, w1: 0, w2: 0, w3: 0 },
        wallet_cap_raw: 5_000_000_000,
        governance_authority: Identity { w0: 0, w1: 0, w2: 0, w3: 0xFF00000000000000 },
        pending_cap_update: None,
    };
    let bytes = serialize_config(&config);

    assert_eq!(bytes[0], 1); // version
    assert_eq!(&bytes[1..9], &[1, 2, 3, 4, 5, 6, 7, 8]); // first wallet word, little-endian
    assert_eq!(&bytes[9..33], &[0; 24]); // remaining wallet words
    // 5_000_000_000 = 0x1_2A05_F200, little-endian
    assert_eq!(&bytes[33..41], &[0x00, 0xF2, 0x05, 0x2A, 0x01, 0, 0, 0]);
    assert_eq!(&bytes[41..72], &[0; 31]); // authority words up to the top byte
    assert_eq!(bytes[72], 0xFF); // top byte of the authority's last word
    assert_eq!(bytes[73], 0); // pending flag: nothing in flight
    assert_eq!(&bytes[74..98], &[0; 24]); // cleared pending fields
}

#[test]
fn rejects_malformed_records() {
    let config = initialize(id(10), id(20));
    let bytes = serialize_config(&config);

    // Wrong length.
    assert_eq!(deserialize_config(&bytes[..97]), None);
    let mut long = bytes.clone();
    long.push(0);
    assert_eq!(deserialize_config(&long), None);

    // A flag that is neither 0 nor 1.
    let mut bad_flag = bytes.clone();
    bad_flag[73] = 2;
    assert_eq!(deserialize_config(&bad_flag), None);

    // A cleared flag with residue where the pending fields would stand.
    let mut residue = bytes.clone();
    residue[80] = 9;
    assert_eq!(deserialize_config(&residue), None);
}
