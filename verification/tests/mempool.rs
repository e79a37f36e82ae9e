use astria_sequencer::mempool_console::{
    AccountTxs, Info, MempoolAction, MempoolStep, MempoolSubcommand, ParkedView, PendingView,
    RemovalCacheView, Show, Tx, TxRecord, TxStatus, TxsForAccount,
};

const ONES_20_BASE64: &str = "AQEBAQEBAQEBAQEBAQEBAQEBAQE=";

fn hex_of(byte: u8, n: usize) -> String {
    let mut s = String::new();
    for _ in 0..n {
        s.push_str(&format!("{byte:02x}"));
    }
    s
}

fn record(nonce: u32, id: u8, secs: u64, cost: Vec<([u8; 32], u128)>) -> TxRecord {
    TxRecord {
        nonce,
        id: [id; 32],
        signature: "sig".to_string(),
        verification_key: "key".to_string(),
        body: "body".to_string(),
        first_seen_secs: secs,
        first_seen_nanos: 0,
        cost,
    }
}

fn show_all() -> Show {
    Show {
        omit_pending: false,
        omit_parked: false,
        omit_removal_cache: false,
        account: None,
        verbose: false,
    }
}

#[test]
fn mempool_action_names_itself() {
    let action = MempoolAction::new(7u32);
    assert_eq!(action.name(), "mempool");
    assert_eq!(action.display_order(), 0);
    assert_eq!(*action.mempool(), 7);
}

#[test]
fn mempool_action_without_command_fails() {
    let mut action = MempoolAction::new(());
    match action.execute() {
        MempoolStep::Failure(m) => assert_eq!(m, "internal error: command not set"),
        _ => panic!("expected a failure"),
    }
}

#[test]
fn mempool_action_show_names_the_account() {
    let mut action = MempoolAction::new(());
    let show = Show { account: Some([1; 20]), ..show_all() };
    action.set_options(MempoolSubcommand::Show(show));
    match action.execute() {
        MempoolStep::Summary(m, s) => {
            assert_eq!(m, format!("mempool summary for account {ONES_20_BASE64}"));
            assert_eq!(s.account, Some([1; 20]));
        }
        _ => panic!("expected a summary"),
    }
    // the command is used up
    assert!(matches!(action.execute(), MempoolStep::Failure(_)));
}

#[test]
fn mempool_action_show_without_account() {
    let mut action = MempoolAction::new(());
    action.set_options(MempoolSubcommand::Show(show_all()));
    match action.execute() {
        MempoolStep::Summary(m, _) => assert_eq!(m, "mempool summary"),
        _ => panic!("expected a summary"),
    }
}

#[test]
fn mempool_action_check_and_evict() {
    let mut action = MempoolAction::new(());
    action.set_options(MempoolSubcommand::Check([0xab; 32]));
    match action.execute() {
        MempoolStep::Status(m, h) => {
            assert_eq!(m, format!("status of tx {}", hex_of(0xab, 32)));
            assert_eq!(h, [0xab; 32]);
        }
        _ => panic!("expected a status"),
    }
    action.set_options(MempoolSubcommand::Evict([0xab; 32]));
    match action.execute() {
        MempoolStep::Failure(m) => assert_eq!(m, "unimplemented"),
        _ => panic!("expected a failure"),
    }
}

#[test]
fn tx_shows_sorted_cost_and_rfc3339_time() {
    let rec = record(3, 9, 1, vec![([2; 32], 5), ([1; 32], 7)]);
    let tx = Tx::from(&rec);
    assert_eq!(tx.nonce, 3);
    assert_eq!(tx.tx_hash, hex_of(9, 32));
    assert_eq!(tx.signature, "sig");
    assert_eq!(tx.verification_key, "key");
    assert_eq!(tx.body, "body");
    assert_eq!(tx.time_first_seen, "1970-01-01T00:00:01Z");
    assert_eq!(
        tx.cost,
        vec![
            (format!("ibc/{}", hex_of(1, 32)), 7),
            (format!("ibc/{}", hex_of(2, 32)), 5),
        ]
    );
}

#[test]
fn txs_for_account_keeps_order() {
    let group = AccountTxs {
        account: [1; 20],
        txs: vec![record(0, 1, 10, vec![]), record(1, 2, 20, vec![])],
    };
    let shown = TxsForAccount::from(&group);
    assert_eq!(shown.account, ONES_20_BASE64);
    assert_eq!(shown.txs.len(), 2);
    assert_eq!(shown.txs[0].nonce, 0);
    assert_eq!(shown.txs[1].nonce, 1);
    assert_eq!(shown.txs[1].time_first_seen, "1970-01-01T00:00:20Z");
}

#[test]
fn tx_status_variants() {
    let rec = record(4, 5, 0, vec![]);
    match TxStatus::pending(&rec) {
        TxStatus::Pending(t) => assert_eq!(t.nonce, 4),
        _ => panic!("expected pending"),
    }
    match TxStatus::parked(&rec) {
        TxStatus::Parked(t) => assert_eq!(t.tx_hash, hex_of(5, 32)),
        _ => panic!("expected parked"),
    }
    match TxStatus::to_be_removed(&"expired".to_string()) {
        TxStatus::ToBeRemoved(reason) => assert_eq!(reason, "expired"),
        _ => panic!("expected to be removed"),
    }
}

fn views() -> (PendingView, ParkedView, RemovalCacheView) {
    let pending = PendingView {
        accounts: vec![
            AccountTxs { account: [1; 20], txs: vec![record(0, 1, 0, vec![])] },
            AccountTxs { account: [2; 20], txs: vec![record(0, 2, 0, vec![])] },
        ],
        len: 2,
        tx_ttl_secs: 600,
        tx_ttl_nanos: 0,
    };
    let parked = ParkedView {
        accounts: vec![AccountTxs { account: [2; 20], txs: vec![record(5, 3, 0, vec![])] }],
        len: 1,
        max_parked_txs_per_account: 15,
        max_tx_count: 1000,
        tx_ttl_secs: 90,
        tx_ttl_nanos: 0,
    };
    let removal = RemovalCacheView {
        entries: vec![([9; 32], "expired".to_string()), ([4; 32], "failed".to_string())],
        max_size: 50,
    };
    (pending, parked, removal)
}

#[test]
fn info_shows_every_part() {
    let (pending, parked, removal) = views();
    let info = Info::new(&pending, &parked, removal, 4, show_all());
    let p = info.pending_txs.expect("pending shown");
    assert_eq!(p.txs.len(), 2);
    assert_eq!(p.tx_count, 2);
    assert_eq!(p.tx_ttl, "10m");
    let q = info.parked_txs.expect("parked shown");
    assert_eq!(q.txs.len(), 1);
    assert_eq!(q.max_parked_txs_per_account, 15);
    assert_eq!(q.max_total_parked_txs, 1000);
    assert_eq!(q.tx_ttl, "1m 30s");
    let c = info.txs_for_removal.expect("removal cache shown");
    assert_eq!(c.tx_count, 2);
    assert_eq!(c.max_cache_size, 50);
    // sorted by hash
    assert_eq!(c.txs[0].tx_hash, hex_of(4, 32));
    assert_eq!(c.txs[0].reason, "failed");
    assert_eq!(c.txs[1].tx_hash, hex_of(9, 32));
    assert_eq!(info.total_txs, 4);
}

#[test]
fn info_omits_and_filters_by_account() {
    let (pending, parked, removal) = views();
    let options = Show {
        omit_pending: false,
        omit_parked: true,
        omit_removal_cache: true,
        account: Some([2; 20]),
        verbose: false,
    };
    let info = Info::new(&pending, &parked, removal, 4, options);
    assert!(info.parked_txs.is_none());
    assert!(info.txs_for_removal.is_none());
    let p = info.pending_txs.expect("pending shown");
    assert_eq!(p.txs.len(), 1);
    assert_eq!(p.txs[0].txs[0].tx_hash, hex_of(2, 32));

    let (pending, parked, removal) = views();
    let options = Show { account: Some([7; 20]), ..show_all() };
    let info = Info::new(&pending, &parked, removal, 4, options);
    assert!(info.pending_txs.expect("pending shown").txs.is_empty());
    assert!(info.parked_txs.expect("parked shown").txs.is_empty());
}
