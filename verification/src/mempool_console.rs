//! The mempool's diagnostics console: which command to run, and the summaries it shows of the
//! pending and parked transactions and of those to be removed.
use vstd::prelude::*;

use crate::sorting::{sort_by_key, sorted_by_key};
use crate::text::{base64_encode, base64_standard, hex_lower};

verus! {

/// What `humantime::format_duration` displays for a duration of `secs` seconds and `nanos`
/// nanoseconds.
pub uninterp spec fn duration_text(secs: u64, nanos: u32) -> Seq<char>;

/// What `humantime::format_rfc3339` displays for the time `secs` seconds and `nanos`
/// nanoseconds after the Unix epoch.
pub uninterp spec fn rfc3339_text(secs: u64, nanos: u32) -> Seq<char>;

/// The first second of the year 10000, from which RFC 3339 cannot write a time.
pub const RFC3339_LIMIT_SECS: u64 = 253402300800;

/// Calls `hex::encode`, which writes each byte as two lowercase hexadecimal digits.
#[verifier::external_body]
fn hex_encode(bytes: &[u8]) -> (r: String)
    ensures
        r@ == hex_lower(bytes@),
{
    hex::encode(bytes)
}

/// Calls `humantime::format_duration` on the duration and writes it out.
#[verifier::external_body]
fn format_duration(secs: u64, nanos: u32) -> (r: String)
    requires
        nanos < 1000000000,
    ensures
        r@ == duration_text(secs, nanos),
{
    humantime::format_duration(std::time::Duration::new(secs, nanos)).to_string()
}

/// Calls `humantime::format_rfc3339` on the time and writes it out; times from the year 10000
/// on cannot be written.
#[verifier::external_body]
fn format_rfc3339(secs: u64, nanos: u32) -> (r: String)
    requires
        secs < RFC3339_LIMIT_SECS,
        nanos < 1000000000,
    ensures
        r@ == rfc3339_text(secs, nanos),
{
    humantime::format_rfc3339(std::time::UNIX_EPOCH + std::time::Duration::new(secs, nanos)).to_string()
}

/// Options of the `show` command.
#[derive(Debug, Clone, Copy)]
pub struct Show {
    pub omit_pending: bool,
    pub omit_parked: bool,
    pub omit_removal_cache: bool,
    /// Show only the transactions of this account.
    pub account: Option<[u8; 20]>,
    pub verbose: bool,
}

/// The commands of the mempool console.
#[derive(Debug, Clone, Copy)]
pub enum MempoolSubcommand {
    /// Show the state of the mempool.
    Show(Show),
    /// Check whether a transaction, by its hash, is in the mempool.
    Check([u8; 32]),
    /// Evict a transaction from the mempool.
    Evict([u8; 32]),
}

/// What the console does for a command.
pub enum MempoolStep {
    /// Answer with a failure.
    Failure(String),
    /// Gather the summary with these options and answer with it under the message.
    Summary(String, Show),
    /// Look the transaction up and answer with its status under the message.
    Status(String, [u8; 32]),
}

/// The mempool action of the diagnostics console: the command parsed from the options, and the
/// mempool it inspects.
pub struct MempoolAction<M> {
    parsed_command: Option<MempoolSubcommand>,
    mempool: M,
}

impl<M> MempoolAction<M> {
    pub closed spec fn command(&self) -> Option<MempoolSubcommand> {
        self.parsed_command
    }

    pub closed spec fn spec_mempool(&self) -> M {
        self.mempool
    }

    /// A mempool action with no command set yet.
    pub fn new(mempool: M) -> (r: Self)
        ensures
            r.command() is None,
            r.spec_mempool() == mempool,
    {
        MempoolAction { parsed_command: None, mempool }
    }

    /// The name of the action.
    pub fn name(&self) -> (r: &'static str)
        ensures
            r@ == "mempool"@,
    {
        "mempool"
    }

    /// The position of the action among the console's actions.
    pub fn display_order(&self) -> (r: usize)
        ensures
            r == 0,
    {
        0
    }

    /// Sets the parsed command.
    pub fn set_options(&mut self, command: MempoolSubcommand)
        ensures
            final(self).command() == Some(command),
            final(self).spec_mempool() == old(self).spec_mempool(),
    {
        self.parsed_command = Some(command);
    }

    /// The mempool the action inspects.
    pub fn mempool(&self) -> (r: &M)
        ensures
            *r == self.spec_mempool(),
    {
        &self.mempool
    }

    /// Takes the parsed command and decides what to do: with no command, fail; show a summary,
    /// under a message naming the account if one is asked for; check a transaction, under a
    /// message naming its hash; eviction is not implemented.
    pub fn execute(&mut self) -> (r: MempoolStep)
        ensures
            final(self).command() is None,
            final(self).spec_mempool() == old(self).spec_mempool(),
            match old(self).command() {
                None => r matches MempoolStep::Failure(m) && m@ == "internal error: command not set"@,
                Some(MempoolSubcommand::Show(show)) => r matches MempoolStep::Summary(m, s) && s
                    == show && m@ == (match show.account {
                    Some(a) => "mempool summary for account "@ + base64_standard(a@),
                    None => "mempool summary"@,
                }),
                Some(MempoolSubcommand::Check(hash)) => r matches MempoolStep::Status(m, h) && h
                    == hash && m@ == "status of tx "@ + hex_lower(hash@),
                Some(MempoolSubcommand::Evict(_)) => r matches MempoolStep::Failure(m) && m@
                    == "unimplemented"@,
            },
    {
        let command = self.parsed_command.take();
        match command {
            None => MempoolStep::Failure(crate::text::string_from("internal error: command not set")),
            Some(MempoolSubcommand::Show(show)) => {
                let msg = match show.account {
                    Some(account) => {
                        let mut m = crate::text::string_from("mempool summary for account ");
                        let encoded = base64_encode(&account);
                        m.append(encoded.as_str());
                        m
                    },
                    None => crate::text::string_from("mempool summary"),
                };
                MempoolStep::Summary(msg, show)
            },
            Some(MempoolSubcommand::Check(tx_hash)) => {
                let mut m = crate::text::string_from("status of tx ");
                let encoded = hex_encode(&tx_hash);
                m.append(encoded.as_str());
                MempoolStep::Status(m, tx_hash)
            },
            Some(MempoolSubcommand::Evict(_)) => MempoolStep::Failure(crate::text::string_from("unimplemented")),
        }
    }
}

/// A transaction in the mempool as the mempool reports it: nonce, hash, signature, verification
/// key and body as text, the time it was first seen, and its cost by asset ID.
pub struct TxRecord {
    pub nonce: u32,
    pub id: [u8; 32],
    pub signature: String,
    pub verification_key: String,
    pub body: String,
    pub first_seen_secs: u64,
    pub first_seen_nanos: u32,
    pub cost: Vec<([u8; 32], u128)>,
}

/// The transactions of one account, in nonce order.
pub struct AccountTxs {
    pub account: [u8; 20],
    pub txs: Vec<TxRecord>,
}

/// What the mempool reports of its pending transactions.
pub struct PendingView {
    pub accounts: Vec<AccountTxs>,
    pub len: usize,
    pub tx_ttl_secs: u64,
    pub tx_ttl_nanos: u32,
}

/// What the mempool reports of its parked transactions.
pub struct ParkedView {
    pub accounts: Vec<AccountTxs>,
    pub len: usize,
    pub max_parked_txs_per_account: usize,
    pub max_tx_count: usize,
    pub tx_ttl_secs: u64,
    pub tx_ttl_nanos: u32,
}

/// What the mempool reports of the transactions to be removed: each hash with the reason.
pub struct RemovalCacheView {
    pub entries: Vec<([u8; 32], String)>,
    pub max_size: usize,
}

/// A transaction as the console shows it.
pub struct Tx {
    pub nonce: u32,
    pub tx_hash: String,
    pub signature: String,
    pub verification_key: String,
    pub body: String,
    pub time_first_seen: String,
    pub cost: Vec<(String, u128)>,
}

/// The transactions of one account as the console shows them.
pub struct TxsForAccount {
    pub account: String,
    pub txs: Vec<Tx>,
}

/// The pending transactions as the console shows them.
pub struct PendingTxs {
    pub txs: Vec<TxsForAccount>,
    pub tx_count: usize,
    pub tx_ttl: String,
}

/// The parked transactions as the console shows them.
pub struct ParkedTxs {
    pub txs: Vec<TxsForAccount>,
    pub tx_count: usize,
    pub max_parked_txs_per_account: usize,
    pub max_total_parked_txs: usize,
    pub tx_ttl: String,
}

/// A transaction to be removed, with the reason.
pub struct TxForRemoval {
    pub tx_hash: String,
    pub reason: String,
}

/// The transactions to be removed as the console shows them.
pub struct RemovalCache {
    pub txs: Vec<TxForRemoval>,
    pub tx_count: usize,
    pub max_cache_size: usize,
}

/// The summary of the mempool that the `show` command answers with.
pub struct Info {
    pub pending_txs: Option<PendingTxs>,
    pub parked_txs: Option<ParkedTxs>,
    pub txs_for_removal: Option<RemovalCache>,
    pub total_txs: usize,
}

/// The status of a transaction that the `check` command answers with.
pub enum TxStatus {
    Absent,
    Pending(Tx),
    Parked(Tx),
    ToBeRemoved(String),
}

/// The text of an asset ID: `ibc/` and its hex.
pub open spec fn asset_text(id: Seq<u8>) -> Seq<char> {
    seq!['i', 'b', 'c', '/'] + hex_lower(id)
}

/// All times of the records can be written in RFC 3339.
pub open spec fn times_ok(txs: Seq<TxRecord>) -> bool {
    forall|i: int|
        0 <= i < txs.len() ==> (#[trigger] txs[i]).first_seen_secs < RFC3339_LIMIT_SECS
            && txs[i].first_seen_nanos < 1000000000
}

/// All times of the accounts' records can be written in RFC 3339.
pub open spec fn accounts_times_ok(accounts: Seq<AccountTxs>) -> bool {
    forall|i: int| 0 <= i < accounts.len() ==> times_ok((#[trigger] accounts[i]).txs@)
}

/// `t` shows the record `rec`: the cost is shown sorted by asset, each asset by its text.
pub open spec fn tx_shows(t: Tx, rec: TxRecord) -> bool {
    &&& t.nonce == rec.nonce
    &&& t.tx_hash@ == hex_lower(rec.id@)
    &&& t.signature@ == rec.signature@
    &&& t.verification_key@ == rec.verification_key@
    &&& t.body@ == rec.body@
    &&& t.time_first_seen@ == rfc3339_text(rec.first_seen_secs, rec.first_seen_nanos)
    &&& exists|sorted: Seq<([u8; 32], u128)>|
        {
            &&& sorted.to_multiset() == rec.cost@.to_multiset()
            &&& sorted_by_key(sorted)
            &&& t.cost@.len() == sorted.len()
            &&& forall|i: int|
                0 <= i < sorted.len() ==> #[trigger] t.cost@[i].0@ == asset_text(sorted[i].0@)
                    && t.cost@[i].1 == sorted[i].1
        }
}

/// Writes an asset ID as `ibc/` and its hex.
fn asset_string(id: &[u8; 32]) -> (r: String)
    ensures
        r@ == asset_text(id@),
{
    let mut s = crate::text::string_from("ibc/");
    proof {
        reveal_strlit("ibc/");
    }
    let hex = hex_encode(id);
    s.append(hex.as_str());
    s
}

/// A copy of the cost entries.
fn copy_costs(cost: &Vec<([u8; 32], u128)>) -> (r: Vec<([u8; 32], u128)>)
    ensures
        r@ == cost@,
{
    let mut r: Vec<([u8; 32], u128)> = Vec::new();
    let mut i: usize = 0;
    while i < cost.len()
        invariant
            0 <= i <= cost@.len(),
            r@ == cost@.subrange(0, i as int),
        decreases cost@.len() - i,
    {
        r.push(cost[i]);
        i = i + 1;
    }
    assert(cost@.subrange(0, cost@.len() as int) =~= cost@);
    r
}

impl Tx {
    /// Shows a mempool transaction.
    pub fn from(ttx: &TxRecord) -> (r: Tx)
        requires
            ttx.first_seen_secs < RFC3339_LIMIT_SECS,
            ttx.first_seen_nanos < 1000000000,
        ensures
            tx_shows(r, *ttx),
    {
        let sorted = sort_by_key(copy_costs(&ttx.cost));
        let mut cost: Vec<(String, u128)> = Vec::new();
        let mut i: usize = 0;
        while i < sorted.len()
            invariant
                0 <= i <= sorted@.len(),
                cost@.len() == i,
                forall|j: int|
                    0 <= j < i ==> #[trigger] cost@[j].0@ == asset_text(sorted@[j].0@) && cost@[j].1
                        == sorted@[j].1,
            decreases sorted@.len() - i,
        {
            let (asset, amount) = sorted[i];
            cost.push((asset_string(&asset), amount));
            i = i + 1;
        }
        let r = Tx {
            nonce: ttx.nonce,
            tx_hash: hex_encode(&ttx.id),
            signature: ttx.signature.clone(),
            verification_key: ttx.verification_key.clone(),
            body: ttx.body.clone(),
            time_first_seen: format_rfc3339(ttx.first_seen_secs, ttx.first_seen_nanos),
            cost,
        };
        assert(tx_shows(r, *ttx)) by {
            let s = sorted@;
            assert(s.to_multiset() == ttx.cost@.to_multiset());
            assert(sorted_by_key(s));
        }
        r
    }
}

/// `t` shows the transactions of `a`: the account in base64, each transaction in order.
pub open spec fn txs_for_account_shows(t: TxsForAccount, a: AccountTxs) -> bool {
    &&& t.account@ == base64_standard(a.account@)
    &&& t.txs@.len() == a.txs@.len()
    &&& forall|i: int| 0 <= i < a.txs@.len() ==> tx_shows(#[trigger] t.txs@[i], a.txs@[i])
}

impl TxsForAccount {
    /// Shows the transactions of an account.
    pub fn from(account_txs: &AccountTxs) -> (r: TxsForAccount)
        requires
            times_ok(account_txs.txs@),
        ensures
            txs_for_account_shows(r, *account_txs),
    {
        let mut txs: Vec<Tx> = Vec::new();
        let mut i: usize = 0;
        while i < account_txs.txs.len()
            invariant
                times_ok(account_txs.txs@),
                0 <= i <= account_txs.txs@.len(),
                txs@.len() == i,
                forall|j: int| 0 <= j < i ==> tx_shows(#[trigger] txs@[j], account_txs.txs@[j]),
            decreases account_txs.txs@.len() - i,
        {
            let rec = &account_txs.txs[i];
            proof {
                assert(times_ok(account_txs.txs@));
                assert(account_txs.txs@[i as int] == *rec);
            }
            txs.push(Tx::from(rec));
            i = i + 1;
        }
        TxsForAccount { account: base64_encode(&account_txs.account), txs }
    }
}

impl TxStatus {
    /// The status of a pending transaction.
    pub fn pending(ttx: &TxRecord) -> (r: TxStatus)
        requires
            ttx.first_seen_secs < RFC3339_LIMIT_SECS,
            ttx.first_seen_nanos < 1000000000,
        ensures
            r matches TxStatus::Pending(t) && tx_shows(t, *ttx),
    {
        TxStatus::Pending(Tx::from(ttx))
    }

    /// The status of a parked transaction.
    pub fn parked(ttx: &TxRecord) -> (r: TxStatus)
        requires
            ttx.first_seen_secs < RFC3339_LIMIT_SECS,
            ttx.first_seen_nanos < 1000000000,
        ensures
            r matches TxStatus::Parked(t) && tx_shows(t, *ttx),
    {
        TxStatus::Parked(Tx::from(ttx))
    }

    /// The status of a transaction to be removed, with the text of the reason.
    pub fn to_be_removed(reason: &String) -> (r: TxStatus)
        ensures
            r matches TxStatus::ToBeRemoved(s) && s@ == reason@,
    {
        TxStatus::ToBeRemoved(reason.clone())
    }
}

/// The index of the first group of transactions of `account`, if any.
pub open spec fn find_account(accounts: Seq<AccountTxs>, account: [u8; 20]) -> Option<int> {
    if exists|i: int| 0 <= i < accounts.len() && #[trigger] accounts[i].account@ == account@ {
        Some(
            choose|i: int|
                0 <= i < accounts.len() && #[trigger] accounts[i].account@ == account@ && forall|j: int|
                    0 <= j < i ==> (#[trigger] accounts[j]).account@ != account@,
        )
    } else {
        None
    }
}

/// `shown` shows the groups of `accounts`: all of them, or only the first of the requested
/// account.
pub open spec fn groups_show(shown: Seq<TxsForAccount>, accounts: Seq<AccountTxs>, account: Option<[u8; 20]>) -> bool {
    match account {
        None => shown.len() == accounts.len() && forall|i: int|
            0 <= i < accounts.len() ==> txs_for_account_shows(#[trigger] shown[i], accounts[i]),
        Some(a) => match find_account(accounts, a) {
            None => shown.len() == 0,
            Some(i) => shown.len() == 1 && txs_for_account_shows(shown[0], accounts[i]),
        },
    }
}

/// Shows the groups of transactions, all or only those of the requested account.
fn show_groups(accounts: &Vec<AccountTxs>, account: Option<[u8; 20]>) -> (r: Vec<TxsForAccount>)
    requires
        accounts_times_ok(accounts@),
    ensures
        groups_show(r@, accounts@, account),
{
    let mut r: Vec<TxsForAccount> = Vec::new();
    let mut i: usize = 0;
    while i < accounts.len()
        invariant
            accounts_times_ok(accounts@),
            0 <= i <= accounts@.len(),
            forall|j: int| 0 <= j < i ==> match account {
                None => true,
                Some(a) => (#[trigger] accounts@[j]).account@ != a@,
            },
            match account {
                None => r@.len() == i && forall|j: int|
                    0 <= j < i ==> txs_for_account_shows(#[trigger] r@[j], accounts@[j]),
                Some(_) => r@.len() == 0,
            },
        decreases accounts@.len() - i,
    {
        let group = &accounts[i];
        proof {
            assert(times_ok(accounts@[i as int].txs@));
        }
        match account {
            None => {
                r.push(TxsForAccount::from(group));
            },
            Some(a) => {
                let mut same = true;
                let mut k: usize = 0;
                while k < 20
                    invariant
                        0 <= k <= 20,
                        same == (forall|m: int| 0 <= m < k ==> group.account@[m] == a@[m]),
                    decreases 20 - k,
                {
                    if group.account[k] != a[k] {
                        same = false;
                    }
                    k = k + 1;
                }
                if same {
                    assert(group.account@ =~= a@);
                    r.push(TxsForAccount::from(group));
                    proof {
                        let f = find_account(accounts@, a);
                        assert(accounts@[i as int].account@ == a@);
                        let c = choose|c: int|
                            0 <= c < accounts@.len() && #[trigger] accounts@[c].account@ == a@ && forall|j: int|
                                0 <= j < c ==> (#[trigger] accounts@[j]).account@ != a@;
                        assert(c == i) by {
                            if c < i {
                                assert(accounts@[c].account@ != a@);
                            }
                            if c > i {
                                assert(accounts@[i as int].account@ != a@);
                            }
                        }
                    }
                    return r;
                }
                assert(group.account@ != a@) by {
                    if group.account@ == a@ {
                        assert(forall|m: int| 0 <= m < 20 ==> group.account@[m] == a@[m]);
                    }
                }
            },
        }
        i = i + 1;
    }
    proof {
        match account {
            None => {},
            Some(a) => {
                assert(!(exists|j: int| 0 <= j < accounts@.len() && #[trigger] accounts@[j].account@ == a@));
            },
        }
    }
    r
}

/// `shown` shows the pending transactions.
pub open spec fn pending_shows(shown: PendingTxs, p: PendingView, account: Option<[u8; 20]>) -> bool {
    &&& groups_show(shown.txs@, p.accounts@, account)
    &&& shown.tx_count == p.len
    &&& shown.tx_ttl@ == duration_text(p.tx_ttl_secs, p.tx_ttl_nanos)
}

/// `shown` shows the parked transactions.
pub open spec fn parked_shows(shown: ParkedTxs, p: ParkedView, account: Option<[u8; 20]>) -> bool {
    &&& groups_show(shown.txs@, p.accounts@, account)
    &&& shown.tx_count == p.len
    &&& shown.max_parked_txs_per_account == p.max_parked_txs_per_account
    &&& shown.max_total_parked_txs == p.max_tx_count
    &&& shown.tx_ttl@ == duration_text(p.tx_ttl_secs, p.tx_ttl_nanos)
}

/// `shown` shows the transactions to be removed, sorted by hash.
pub open spec fn removal_shows(shown: RemovalCache, c: RemovalCacheView) -> bool {
    &&& shown.tx_count == c.entries@.len()
    &&& shown.max_cache_size == c.max_size
    &&& exists|sorted: Seq<([u8; 32], String)>|
        {
            &&& sorted.to_multiset() == c.entries@.to_multiset()
            &&& sorted_by_key(sorted)
            &&& shown.txs@.len() == sorted.len()
            &&& forall|i: int|
                0 <= i < sorted.len() ==> #[trigger] shown.txs@[i].tx_hash@ == hex_lower(sorted[i].0@)
                    && shown.txs@[i].reason@ == sorted[i].1@
        }
}

/// `info` summarizes the mempool with the options: each part unless omitted, and the total.
pub open spec fn info_shows(info: Info, pending: PendingView, parked: ParkedView, removal: RemovalCacheView, total: usize, options: Show) -> bool {
    &&& (if options.omit_pending {
        info.pending_txs is None
    } else {
        info.pending_txs matches Some(p) && pending_shows(p, pending, options.account)
    })
    &&& (if options.omit_parked {
        info.parked_txs is None
    } else {
        info.parked_txs matches Some(p) && parked_shows(p, parked, options.account)
    })
    &&& (if options.omit_removal_cache {
        info.txs_for_removal is None
    } else {
        info.txs_for_removal matches Some(c) && removal_shows(c, removal)
    })
    &&& info.total_txs == total
}

impl Info {
    /// Summarizes the mempool, leaving out what the options omit and showing only the
    /// requested account's transactions if one is asked for.
    pub fn new(pending: &PendingView, parked: &ParkedView, removal_cache: RemovalCacheView, total: usize, options: Show) -> (r: Info)
        requires
            accounts_times_ok(pending.accounts@),
            accounts_times_ok(parked.accounts@),
            pending.tx_ttl_nanos < 1000000000,
            parked.tx_ttl_nanos < 1000000000,
        ensures
            info_shows(r, *pending, *parked, removal_cache, total, options),
    {
        let pending_txs = if options.omit_pending {
            None
        } else {
            Some(PendingTxs {
                txs: show_groups(&pending.accounts, options.account),
                tx_count: pending.len,
                tx_ttl: format_duration(pending.tx_ttl_secs, pending.tx_ttl_nanos),
            })
        };
        let parked_txs = if options.omit_parked {
            None
        } else {
            Some(ParkedTxs {
                txs: show_groups(&parked.accounts, options.account),
                tx_count: parked.len,
                max_parked_txs_per_account: parked.max_parked_txs_per_account,
                max_total_parked_txs: parked.max_tx_count,
                tx_ttl: format_duration(parked.tx_ttl_secs, parked.tx_ttl_nanos),
            })
        };
        let ghost entries = removal_cache.entries@;
        let txs_for_removal = if options.omit_removal_cache {
            None
        } else {
            let max_cache_size = removal_cache.max_size;
            let sorted = sort_by_key(removal_cache.entries);
            let mut txs: Vec<TxForRemoval> = Vec::new();
            let mut i: usize = 0;
            while i < sorted.len()
                invariant
                    0 <= i <= sorted@.len(),
                    txs@.len() == i,
                    forall|j: int|
                        0 <= j < i ==> #[trigger] txs@[j].tx_hash@ == hex_lower(sorted@[j].0@)
                            && txs@[j].reason@ == sorted@[j].1@,
                decreases sorted@.len() - i,
            {
                let e = &sorted[i];
                txs.push(TxForRemoval { tx_hash: hex_encode(&e.0), reason: e.1.clone() });
                i = i + 1;
            }
            let tx_count = txs.len();
            proof {
                assert(sorted@.to_multiset() == entries.to_multiset());
                assert(sorted@.to_multiset().len() == sorted@.len()) by {
                    vstd::seq_lib::to_multiset_len(sorted@);
                }
                vstd::seq_lib::to_multiset_len(entries);
            }
            Some(RemovalCache { txs, tx_count, max_cache_size })
        };
        Info { pending_txs, parked_txs, txs_for_removal, total_txs: total }
    }
}

} // verus!
