use backup_errors::model::EngineError;
use backup_errors::model::Error;
use backup_errors::model::MvccError;
use backup_errors::model::TxnError;
use backup_errors::translate::translate;
use backup_errors::wire::Label;
use backup_errors::wire::LockInfo;
use backup_errors::wire::RegionError;
use backup_errors::wire::RegionReason;
use backup_errors::wire::WireError;

fn routing(message: &str, reason: Option<RegionReason>) -> RegionError {
    RegionError {
        message: message.to_string(),
        reason,
    }
}

#[test]
fn cluster_mismatch_scenario() {
    let (wire, label) = translate(Error::ClusterID {
        current: 1,
        request: 2,
    });
    assert_eq!(
        wire,
        WireError::ClusterIdError {
            current: 1,
            request: 2
        }
    );
    assert_eq!(label, Some(Label::ClusterMismatch));
}

#[test]
fn key_is_locked_field_fidelity() {
    let (wire, label) = translate(Error::Txn(TxnError::Mvcc(MvccError::KeyIsLocked {
        primary: b"p".to_vec(),
        ts: 7,
        key: b"k".to_vec(),
        ttl: 100,
        txn_size: 3,
    })));
    assert_eq!(
        wire,
        WireError::KeyError {
            locked: LockInfo {
                primary_lock: b"p".to_vec(),
                lock_version: 7,
                key: b"k".to_vec(),
                lock_ttl: 100,
                txn_size: 3,
            }
        }
    );
    assert_eq!(label, Some(Label::KeyIsLocked));
}

#[test]
fn nested_routing_error_not_leader() {
    let deep = Error::Txn(TxnError::Mvcc(MvccError::Engine(EngineError::Request(
        routing("leader is elsewhere", Some(RegionReason::NotLeader)),
    ))));
    let (wire, label) = translate(deep);
    assert_eq!(
        wire,
        WireError::RegionError(routing(
            "leader is elsewhere",
            Some(RegionReason::NotLeader)
        ))
    );
    assert_eq!(label, Some(Label::NotLeader));
}

#[test]
fn routing_error_wrapping_depth_independent() {
    let bare = Error::Engine(EngineError::Request(routing(
        "leader is elsewhere",
        Some(RegionReason::NotLeader),
    )));
    let one_deep = Error::Txn(TxnError::Engine(EngineError::Request(routing(
        "leader is elsewhere",
        Some(RegionReason::NotLeader),
    ))));
    let two_deep = Error::Txn(TxnError::Mvcc(MvccError::Engine(EngineError::Request(
        routing("leader is elsewhere", Some(RegionReason::NotLeader)),
    ))));
    let bare_out = translate(bare);
    let one_out = translate(one_deep);
    let two_out = translate(two_deep);
    assert_eq!(bare_out, one_out);
    assert_eq!(bare_out, two_out);
}

#[test]
fn each_recognized_reason_gets_its_label() {
    let cases = vec![
        (RegionReason::NotLeader, Label::NotLeader),
        (RegionReason::RegionNotFound, Label::RegionNotFound),
        (RegionReason::KeyNotInRegion, Label::KeyNotInRegion),
        (RegionReason::EpochNotMatch, Label::EpochNotMatch),
        (
            RegionReason::ServerIsBusy {
                reason: "overloaded".to_string(),
            },
            Label::ServerIsBusy,
        ),
        (RegionReason::StaleCommand, Label::StaleCommand),
        (RegionReason::StoreNotMatch, Label::StoreNotMatch),
    ];
    for (reason, expected) in cases {
        let e = Error::Engine(EngineError::Request(routing("routing", Some(reason))));
        let (wire, label) = translate(e);
        assert!(matches!(wire, WireError::RegionError(_)));
        assert_eq!(label, Some(expected));
    }
}

#[test]
fn unrecognized_routing_reason_keeps_shape_without_label() {
    let e = Error::Engine(EngineError::Request(routing("strange failure", None)));
    let (wire, label) = translate(e);
    assert_eq!(wire, WireError::RegionError(routing("strange failure", None)));
    assert_eq!(label, None);
}

#[test]
fn timeout_scenario() {
    let (wire, label) = translate(Error::Engine(EngineError::Timeout(
        "deadline exceeded".to_string(),
    )));
    assert_eq!(
        wire,
        WireError::RegionError(RegionError {
            message: "deadline exceeded".to_string(),
            reason: Some(RegionReason::ServerIsBusy {
                reason: "deadline exceeded".to_string()
            }),
        })
    );
    assert_eq!(label, Some(Label::Timeout));
}

#[test]
fn fallback_scenario_opaque_error() {
    let (wire, label) = translate(Error::from_other("connection reset by peer".to_string()));
    assert_eq!(
        wire,
        WireError::PlainMessage {
            text: "connection reset by peer".to_string()
        }
    );
    assert_eq!(label, Some(Label::Other));
}

#[test]
fn fallback_covers_every_unclassified_variant() {
    let cases = vec![
        (Error::Rocks("corrupted sst".to_string()), "corrupted sst"),
        (Error::Io("disk full".to_string()), "disk full"),
        (
            Error::Engine(EngineError::Other("engine stopped".to_string())),
            "engine stopped",
        ),
        (
            Error::Txn(TxnError::Other("txn aborted".to_string())),
            "txn aborted",
        ),
        (
            Error::Txn(TxnError::Mvcc(MvccError::Other("write conflict".to_string()))),
            "write conflict",
        ),
    ];
    for (e, expected) in cases {
        let (wire, label) = translate(e);
        assert_eq!(
            wire,
            WireError::PlainMessage {
                text: expected.to_string()
            }
        );
        assert_eq!(label, Some(Label::Other));
    }
}

#[test]
fn wrapped_timeout_falls_back_to_plain_message() {
    // Only a raw engine timeout gets the server-busy region shape; the
    // same timeout wrapped in a transaction error takes the fallback.
    let (wire, label) = translate(Error::Txn(TxnError::Engine(EngineError::Timeout(
        "deadline exceeded".to_string(),
    ))));
    assert_eq!(
        wire,
        WireError::PlainMessage {
            text: "deadline exceeded".to_string()
        }
    );
    assert_eq!(label, Some(Label::Other));

    let (wire2, label2) = translate(Error::Txn(TxnError::Mvcc(MvccError::Engine(
        EngineError::Timeout("deadline exceeded".to_string()),
    ))));
    assert_eq!(
        wire2,
        WireError::PlainMessage {
            text: "deadline exceeded".to_string()
        }
    );
    assert_eq!(label2, Some(Label::Other));
}

#[test]
fn translate_is_deterministic() {
    let make = || {
        Error::Txn(TxnError::Mvcc(MvccError::KeyIsLocked {
            primary: b"primary".to_vec(),
            ts: 42,
            key: b"key".to_vec(),
            ttl: 9,
            txn_size: 5,
        }))
    };
    let first = translate(make());
    let second = translate(make());
    assert_eq!(first, second);
}

#[test]
fn exactly_one_wire_shape_is_populated() {
    let inputs = vec![
        Error::ClusterID {
            current: 3,
            request: 4,
        },
        Error::Engine(EngineError::Request(routing(
            "routing",
            Some(RegionReason::StaleCommand),
        ))),
        Error::Txn(TxnError::Mvcc(MvccError::KeyIsLocked {
            primary: b"p".to_vec(),
            ts: 1,
            key: b"k".to_vec(),
            ttl: 2,
            txn_size: 3,
        })),
        Error::Engine(EngineError::Timeout("slow".to_string())),
        Error::from_rocks("rocks".to_string()),
    ];
    for e in inputs {
        let (wire, _) = translate(e);
        let shapes = [
            matches!(wire, WireError::ClusterIdError { .. }),
            matches!(wire, WireError::RegionError(_)),
            matches!(wire, WireError::KeyError { .. }),
            matches!(wire, WireError::PlainMessage { .. }),
        ];
        assert_eq!(shapes.iter().filter(|populated| **populated).count(), 1);
    }
}

#[test]
fn constructors_pick_the_matching_variant() {
    assert!(matches!(
        Error::from_other("o".to_string()),
        Error::Other(_)
    ));
    assert!(matches!(
        Error::from_rocks("r".to_string()),
        Error::Rocks(_)
    ));
    assert!(matches!(Error::from_io("i".to_string()), Error::Io(_)));
    assert!(matches!(
        Error::from_engine(EngineError::Timeout("t".to_string())),
        Error::Engine(EngineError::Timeout(_))
    ));
    assert!(matches!(
        Error::from_txn(TxnError::Other("t".to_string())),
        Error::Txn(TxnError::Other(_))
    ));
    assert!(matches!(
        Error::from_cluster_id(8, 9),
        Error::ClusterID {
            current: 8,
            request: 9
        }
    ));
}
