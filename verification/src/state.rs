//! The sequencer's application state: accounts, authorities, bridges, IBC and blocks.
use vstd::prelude::*;

use crate::chain::{
    digits_value, has_revision_suffix, revision_digits, revision_number_from_chain_id,
    spec_revision_number,
};
use crate::error::Error;
use crate::map::{AssocMap, Dup, KeyEq};
use crate::primitive::{AddressBytes, IbcPrefixed, RollupId, TracePrefixed, TraceView, TransactionId};

verus! {

/// The fee of an action: a base amount plus a multiplier per byte of payload.
#[derive(Debug, Clone, Copy, PartialEq, Eq, Structural)]
pub struct FeeComponents {
    pub base: u128,
    pub multiplier: u128,
}

impl View for FeeComponents {
    type V = FeeComponents;

    open spec fn view(&self) -> FeeComponents {
        *self
    }
}

impl Dup for FeeComponents {
    fn dup(&self) -> (r: Self) {
        *self
    }
}

/// The kinds of action, each with its own fee components.
#[derive(Debug, Clone, Copy, PartialEq, Eq, Structural)]
pub enum FeeKind {
    Transfer,
    RollupDataSubmission,
    Ics20Withdrawal,
    InitBridgeAccount,
    BridgeLock,
    BridgeUnlock,
    BridgeTransfer,
    BridgeSudoChange,
    IbcRelay,
    ValidatorUpdate,
    FeeAssetChange,
    FeeChange,
    IbcRelayerChange,
    SudoAddressChange,
    IbcSudoChange,
    RecoverIbcClient,
}

impl View for FeeKind {
    type V = FeeKind;

    open spec fn view(&self) -> FeeKind {
        *self
    }
}

impl KeyEq for FeeKind {
    fn key_eq(&self, other: &Self) -> (r: bool) {
        *self == *other
    }

    fn key_clone(&self) -> (r: Self) {
        *self
    }
}

/// A deposit of funds into a rollup, recorded when funds are locked into a bridge account.
pub struct Deposit {
    pub bridge_address: AddressBytes,
    pub rollup_id: RollupId,
    pub amount: u128,
    pub asset: TracePrefixed,
    pub destination_chain_address: String,
    pub source_transaction_id: TransactionId,
    pub source_action_index: u64,
}

/// The view of a deposit.
pub struct DepositView {
    pub bridge_address: Seq<u8>,
    pub rollup_id: Seq<u8>,
    pub amount: u128,
    pub asset: TraceView,
    pub destination_chain_address: Seq<char>,
    pub source_transaction_id: Seq<u8>,
    pub source_action_index: u64,
}

impl View for Deposit {
    type V = DepositView;

    open spec fn view(&self) -> DepositView {
        DepositView {
            bridge_address: self.bridge_address@,
            rollup_id: self.rollup_id@,
            amount: self.amount,
            asset: self.asset@,
            destination_chain_address: self.destination_chain_address@,
            source_transaction_id: self.source_transaction_id@,
            source_action_index: self.source_action_index,
        }
    }
}

impl Dup for Deposit {
    fn dup(&self) -> (r: Self) {
        Deposit {
            bridge_address: self.bridge_address,
            rollup_id: self.rollup_id,
            amount: self.amount,
            asset: self.asset.dup(),
            destination_chain_address: self.destination_chain_address.clone(),
            source_transaction_id: self.source_transaction_id,
            source_action_index: self.source_action_index,
        }
    }
}

/// A price-feed market, keyed by its currency pair.
pub struct Market {
    pub currency_pair: String,
    pub decimals: u64,
    pub min_provider_count: u64,
    pub enabled: bool,
}

/// The view of a market.
pub struct MarketView {
    pub currency_pair: Seq<char>,
    pub decimals: u64,
    pub min_provider_count: u64,
    pub enabled: bool,
}

impl View for Market {
    type V = MarketView;

    open spec fn view(&self) -> MarketView {
        MarketView {
            currency_pair: self.currency_pair@,
            decimals: self.decimals,
            min_provider_count: self.min_provider_count,
            enabled: self.enabled,
        }
    }
}

impl Dup for Market {
    fn dup(&self) -> (r: Self) {
        Market {
            currency_pair: self.currency_pair.clone(),
            decimals: self.decimals,
            min_provider_count: self.min_provider_count,
            enabled: self.enabled,
        }
    }
}

/// A sequencer block as far as the state keeps it.
pub struct SequencerBlock {
    pub height: u64,
    pub block_hash: [u8; 32],
    pub rollup_ids: Vec<RollupId>,
    pub data: Vec<u8>,
}

/// The view of a sequencer block.
pub struct BlockView {
    pub height: u64,
    pub block_hash: Seq<u8>,
    pub rollup_ids: Seq<RollupId>,
    pub data: Seq<u8>,
}

impl View for SequencerBlock {
    type V = BlockView;

    open spec fn view(&self) -> BlockView {
        BlockView {
            height: self.height,
            block_hash: self.block_hash@,
            rollup_ids: self.rollup_ids@,
            data: self.data@,
        }
    }
}

impl Dup for SequencerBlock {
    fn dup(&self) -> (r: Self) {
        SequencerBlock {
            height: self.height,
            block_hash: self.block_hash,
            rollup_ids: self.rollup_ids.dup(),
            data: self.data.dup(),
        }
    }
}

/// A copy of an optional string.
fn dup_opt_str(o: &Option<String>) -> (r: Option<String>)
    ensures
        opt_str(r) == opt_str(*o),
{
    match o {
        Some(s) => Some(s.clone()),
        None => None,
    }
}

/// A copy of a sequence of deposits.
fn dup_deposits(d: &Vec<Deposit>) -> (r: Vec<Deposit>)
    ensures
        r@.map_values(|x: Deposit| x@) == d@.map_values(|x: Deposit| x@),
{
    let mut r: Vec<Deposit> = Vec::new();
    let mut i: usize = 0;
    while i < d.len()
        invariant
            0 <= i <= d@.len(),
            r@.len() == i,
            forall|j: int| 0 <= j < i ==> #[trigger] r@[j]@ == d@[j]@,
        decreases d@.len() - i,
    {
        r.push(d[i].dup());
        i = i + 1;
    }
    assert(r@.map_values(|x: Deposit| x@) =~= d@.map_values(|x: Deposit| x@));
    r
}

/// The mathematical view of the sequencer state.
pub struct StateView {
    pub base_prefix: Option<Seq<char>>,
    pub ibc_compat_prefix: Option<Seq<char>>,
    pub native_asset: Option<TraceView>,
    pub chain_id: Option<Seq<char>>,
    pub revision_number: Option<u64>,
    pub block_height: Option<u64>,
    pub block_timestamp: Option<u64>,
    pub sudo_address: Option<Seq<u8>>,
    pub ibc_sudo_address: Option<Seq<u8>>,
    pub ibc_relayers: Set<Seq<u8>>,
    pub allowed_fee_assets: Set<Seq<u8>>,
    pub balances: Map<(Seq<u8>, Seq<u8>), u128>,
    pub nonces: Map<Seq<u8>, u32>,
    pub fees: Map<FeeKind, FeeComponents>,
    pub bridge_rollup_ids: Map<Seq<u8>, Seq<u8>>,
    pub bridge_assets: Map<Seq<u8>, Seq<u8>>,
    pub bridge_sudo_addresses: Map<Seq<u8>, Seq<u8>>,
    pub bridge_withdrawers: Map<Seq<u8>, Seq<u8>>,
    pub withdrawal_events: Map<(Seq<u8>, Seq<char>), u64>,
    pub last_transaction_ids: Map<Seq<u8>, Seq<u8>>,
    pub ibc_assets: Map<Seq<u8>, TraceView>,
    pub block_fees: Map<Seq<u8>, u128>,
    pub channel_balances: Map<(Seq<char>, Seq<u8>), u128>,
    pub validator_set: Map<Seq<u8>, u64>,
    pub validator_updates: Map<Seq<u8>, u64>,
    pub deposits: Seq<DepositView>,
    pub market_map: Option<Map<Seq<char>, MarketView>>,
    pub market_map_last_updated_height: Option<u64>,
    pub block_hashes_by_height: Map<u64, Seq<u8>>,
    pub blocks_by_hash: Map<Seq<u8>, BlockView>,
    pub rollup_ids_by_hash: Map<Seq<u8>, Seq<RollupId>>,
    pub storage_versions: Map<u64, u64>,
}

impl StateView {
    /// The balance of an account in an asset; absent balances are zero.
    pub open spec fn balance(self, account: Seq<u8>, asset: Seq<u8>) -> u128 {
        if self.balances.contains_key((account, asset)) {
            self.balances[(account, asset)]
        } else {
            0
        }
    }

    /// The state with one balance set.
    pub open spec fn with_balance(self, account: Seq<u8>, asset: Seq<u8>, amount: u128) -> Self {
        StateView { balances: self.balances.insert((account, asset), amount), ..self }
    }

    /// The nonce of an account; absent nonces are zero.
    pub open spec fn nonce(self, account: Seq<u8>) -> u32 {
        if self.nonces.contains_key(account) {
            self.nonces[account]
        } else {
            0
        }
    }

    /// The block fees collected in an asset; absent amounts are zero.
    pub open spec fn block_fee(self, asset: Seq<u8>) -> u128 {
        if self.block_fees.contains_key(asset) {
            self.block_fees[asset]
        } else {
            0
        }
    }

    /// The balance of an asset escrowed on a channel; absent balances are zero.
    pub open spec fn channel_balance(self, channel: Seq<char>, asset: Seq<u8>) -> u128 {
        if self.channel_balances.contains_key((channel, asset)) {
            self.channel_balances[(channel, asset)]
        } else {
            0
        }
    }

    /// Whether an account is a bridge account.
    pub open spec fn is_bridge_account(self, account: Seq<u8>) -> bool {
        self.bridge_rollup_ids.contains_key(account)
    }
}

/// The sequencer state.
pub struct SequencerState {
    base_prefix: Option<String>,
    ibc_compat_prefix: Option<String>,
    native_asset: Option<TracePrefixed>,
    chain_id: Option<String>,
    revision_number: Option<u64>,
    block_height: Option<u64>,
    block_timestamp: Option<u64>,
    sudo_address: Option<AddressBytes>,
    ibc_sudo_address: Option<AddressBytes>,
    ibc_relayers: AssocMap<AddressBytes, ()>,
    allowed_fee_assets: AssocMap<IbcPrefixed, ()>,
    balances: AssocMap<(AddressBytes, IbcPrefixed), u128>,
    nonces: AssocMap<AddressBytes, u32>,
    fees: AssocMap<FeeKind, FeeComponents>,
    bridge_rollup_ids: AssocMap<AddressBytes, RollupId>,
    bridge_assets: AssocMap<AddressBytes, IbcPrefixed>,
    bridge_sudo_addresses: AssocMap<AddressBytes, AddressBytes>,
    bridge_withdrawers: AssocMap<AddressBytes, AddressBytes>,
    withdrawal_events: AssocMap<(AddressBytes, String), u64>,
    last_transaction_ids: AssocMap<AddressBytes, TransactionId>,
    ibc_assets: AssocMap<IbcPrefixed, TracePrefixed>,
    block_fees: AssocMap<IbcPrefixed, u128>,
    channel_balances: AssocMap<(String, IbcPrefixed), u128>,
    validator_set: AssocMap<[u8; 32], u64>,
    validator_updates: AssocMap<[u8; 32], u64>,
    deposits: Vec<Deposit>,
    market_map: Option<AssocMap<String, Market>>,
    market_map_last_updated_height: Option<u64>,
    block_hashes_by_height: AssocMap<u64, [u8; 32]>,
    blocks_by_hash: AssocMap<[u8; 32], SequencerBlock>,
    rollup_ids_by_hash: AssocMap<[u8; 32], Vec<RollupId>>,
    storage_versions: AssocMap<u64, u64>,
}

/// The view of an optional string.
pub open spec fn opt_str(o: Option<String>) -> Option<Seq<char>> {
    match o {
        Some(s) => Some(s@),
        None => None,
    }
}

/// The view of an optional address.
pub open spec fn opt_addr(o: Option<AddressBytes>) -> Option<Seq<u8>> {
    match o {
        Some(a) => Some(a@),
        None => None,
    }
}

/// The view of an optional market map.
pub open spec fn opt_markets(o: Option<AssocMap<String, Market>>) -> Option<Map<Seq<char>, MarketView>> {
    match o {
        Some(m) => Some(m@),
        None => None,
    }
}

impl View for SequencerState {
    type V = StateView;

    closed spec fn view(&self) -> StateView {
        StateView {
            base_prefix: opt_str(self.base_prefix),
            ibc_compat_prefix: opt_str(self.ibc_compat_prefix),
            native_asset: match self.native_asset {
                Some(t) => Some(t@),
                None => None,
            },
            chain_id: opt_str(self.chain_id),
            revision_number: self.revision_number,
            block_height: self.block_height,
            block_timestamp: self.block_timestamp,
            sudo_address: opt_addr(self.sudo_address),
            ibc_sudo_address: opt_addr(self.ibc_sudo_address),
            ibc_relayers: self.ibc_relayers@.dom(),
            allowed_fee_assets: self.allowed_fee_assets@.dom(),
            balances: self.balances@,
            nonces: self.nonces@,
            fees: self.fees@,
            bridge_rollup_ids: self.bridge_rollup_ids@,
            bridge_assets: self.bridge_assets@,
            bridge_sudo_addresses: self.bridge_sudo_addresses@,
            bridge_withdrawers: self.bridge_withdrawers@,
            withdrawal_events: self.withdrawal_events@,
            last_transaction_ids: self.last_transaction_ids@,
            ibc_assets: self.ibc_assets@,
            block_fees: self.block_fees@,
            channel_balances: self.channel_balances@,
            validator_set: self.validator_set@,
            validator_updates: self.validator_updates@,
            deposits: self.deposits@.map_values(|d: Deposit| d@),
            market_map: opt_markets(self.market_map),
            market_map_last_updated_height: self.market_map_last_updated_height,
            block_hashes_by_height: self.block_hashes_by_height@,
            blocks_by_hash: self.blocks_by_hash@,
            rollup_ids_by_hash: self.rollup_ids_by_hash@,
            storage_versions: self.storage_versions@,
        }
    }
}


impl SequencerState {
    /// All maps of the state are well formed.
    pub closed spec fn wf(&self) -> bool {
        &&& self.ibc_relayers.wf()
        &&& self.allowed_fee_assets.wf()
        &&& self.balances.wf()
        &&& self.nonces.wf()
        &&& self.fees.wf()
        &&& self.bridge_rollup_ids.wf()
        &&& self.bridge_assets.wf()
        &&& self.bridge_sudo_addresses.wf()
        &&& self.bridge_withdrawers.wf()
        &&& self.withdrawal_events.wf()
        &&& self.last_transaction_ids.wf()
        &&& self.ibc_assets.wf()
        &&& self.block_fees.wf()
        &&& self.channel_balances.wf()
        &&& self.validator_set.wf()
        &&& self.validator_updates.wf()
        &&& (self.market_map matches Some(m) ==> m.wf())
        &&& self.block_hashes_by_height.wf()
        &&& self.blocks_by_hash.wf()
        &&& self.rollup_ids_by_hash.wf()
        &&& self.storage_versions.wf()
    }

    /// A copy of the state.
    pub fn dup(&self) -> (r: Self)
        requires
            self.wf(),
        ensures
            r.wf(),
            r@ == self@,
    {
        let native_asset = match &self.native_asset {
            Some(t) => Some(t.dup()),
            None => None,
        };
        let market_map = match &self.market_map {
            Some(m) => Some(m.dup()),
            None => None,
        };
        let r = SequencerState {
            base_prefix: dup_opt_str(&self.base_prefix),
            ibc_compat_prefix: dup_opt_str(&self.ibc_compat_prefix),
            native_asset,
            chain_id: dup_opt_str(&self.chain_id),
            revision_number: self.revision_number,
            block_height: self.block_height,
            block_timestamp: self.block_timestamp,
            sudo_address: self.sudo_address,
            ibc_sudo_address: self.ibc_sudo_address,
            ibc_relayers: self.ibc_relayers.dup(),
            allowed_fee_assets: self.allowed_fee_assets.dup(),
            balances: self.balances.dup(),
            nonces: self.nonces.dup(),
            fees: self.fees.dup(),
            bridge_rollup_ids: self.bridge_rollup_ids.dup(),
            bridge_assets: self.bridge_assets.dup(),
            bridge_sudo_addresses: self.bridge_sudo_addresses.dup(),
            bridge_withdrawers: self.bridge_withdrawers.dup(),
            withdrawal_events: self.withdrawal_events.dup(),
            last_transaction_ids: self.last_transaction_ids.dup(),
            ibc_assets: self.ibc_assets.dup(),
            block_fees: self.block_fees.dup(),
            channel_balances: self.channel_balances.dup(),
            validator_set: self.validator_set.dup(),
            validator_updates: self.validator_updates.dup(),
            deposits: dup_deposits(&self.deposits),
            market_map,
            market_map_last_updated_height: self.market_map_last_updated_height,
            block_hashes_by_height: self.block_hashes_by_height.dup(),
            blocks_by_hash: self.blocks_by_hash.dup(),
            rollup_ids_by_hash: self.rollup_ids_by_hash.dup(),
            storage_versions: self.storage_versions.dup(),
        };
        proof {
            assert(r@.native_asset == self@.native_asset);
            assert(r@.market_map == self@.market_map);
        }
        r
    }

    /// An empty state: nothing stored.
    pub fn new() -> (r: Self)
        ensures
            r.wf(),
            r@ == empty_state_view(),
    {
        let r = SequencerState {
            base_prefix: None,
            ibc_compat_prefix: None,
            native_asset: None,
            chain_id: None,
            revision_number: None,
            block_height: None,
            block_timestamp: None,
            sudo_address: None,
            ibc_sudo_address: None,
            ibc_relayers: AssocMap::new(),
            allowed_fee_assets: AssocMap::new(),
            balances: AssocMap::new(),
            nonces: AssocMap::new(),
            fees: AssocMap::new(),
            bridge_rollup_ids: AssocMap::new(),
            bridge_assets: AssocMap::new(),
            bridge_sudo_addresses: AssocMap::new(),
            bridge_withdrawers: AssocMap::new(),
            withdrawal_events: AssocMap::new(),
            last_transaction_ids: AssocMap::new(),
            ibc_assets: AssocMap::new(),
            block_fees: AssocMap::new(),
            channel_balances: AssocMap::new(),
            validator_set: AssocMap::new(),
            validator_updates: AssocMap::new(),
            deposits: Vec::new(),
            market_map: None,
            market_map_last_updated_height: None,
            block_hashes_by_height: AssocMap::new(),
            blocks_by_hash: AssocMap::new(),
            rollup_ids_by_hash: AssocMap::new(),
            storage_versions: AssocMap::new(),
        };
        proof {
            assert(r@.ibc_relayers =~= Set::empty());
            assert(r@.allowed_fee_assets =~= Set::empty());
            assert(r@.rollup_ids_by_hash =~= Map::empty());
            assert(r@.deposits =~= Seq::empty());
        }
        r
    }

    // ----- prefixes, chain, blocks --------------------------------------------------------

    /// The base address prefix.
    pub fn base_prefix(&self) -> (r: Option<&String>)
        ensures
            opt_str(match r { Some(s) => Some(*s), None => None }) == self@.base_prefix,
    {
        self.base_prefix.as_ref()
    }

    /// Stores the base address prefix (unchecked).
    pub fn set_base_prefix(&mut self, prefix: String)
        ensures
            final(self)@ == (StateView { base_prefix: Some(prefix@), ..old(self)@ }),
            final(self).wf() == old(self).wf(),
    {
        self.base_prefix = Some(prefix);
    }

    /// The address prefix of addresses sent over IBC in the bech32 compatible format.
    pub fn ibc_compat_prefix(&self) -> (r: Option<&String>)
        ensures
            opt_str(match r { Some(s) => Some(*s), None => None }) == self@.ibc_compat_prefix,
    {
        self.ibc_compat_prefix.as_ref()
    }

    /// Stores the IBC compatible address prefix (unchecked).
    pub fn set_ibc_compat_prefix(&mut self, prefix: String)
        ensures
            final(self)@ == (StateView { ibc_compat_prefix: Some(prefix@), ..old(self)@ }),
            final(self).wf() == old(self).wf(),
    {
        self.ibc_compat_prefix = Some(prefix);
    }

    /// The native asset.
    pub fn native_asset(&self) -> (r: Option<&TracePrefixed>)
        ensures
            match r { Some(t) => self@.native_asset == Some(t@), None => self@.native_asset is None },
    {
        self.native_asset.as_ref()
    }

    /// Stores the native asset.
    pub fn put_native_asset(&mut self, asset: TracePrefixed)
        ensures
            final(self)@ == (StateView { native_asset: Some(asset@), ..old(self)@ }),
            final(self).wf() == old(self).wf(),
    {
        self.native_asset = Some(asset);
    }

    /// The chain ID.
    pub fn chain_id(&self) -> (r: Option<&String>)
        ensures
            opt_str(match r { Some(s) => Some(*s), None => None }) == self@.chain_id,
    {
        self.chain_id.as_ref()
    }

    /// Stores the chain ID and the revision number that its suffix carries.
    pub fn put_chain_id_and_revision_number(&mut self, chain_id: String)
        requires
            has_revision_suffix(chain_id@) ==> digits_value(revision_digits(chain_id@)) <= u64::MAX,
        ensures
            final(self)@ == (StateView {
                chain_id: Some(chain_id@),
                revision_number: Some(spec_revision_number(chain_id@) as u64),
                ..old(self)@
            }),
            final(self).wf() == old(self).wf(),
    {
        let revision_number = revision_number_from_chain_id(chain_id.as_str());
        self.chain_id = Some(chain_id);
        self.revision_number = Some(revision_number);
    }

    /// The revision number.
    pub fn revision_number(&self) -> (r: Option<u64>)
        ensures
            r == self@.revision_number,
    {
        self.revision_number
    }

    /// The block height.
    pub fn block_height(&self) -> (r: Option<u64>)
        ensures
            r == self@.block_height,
    {
        self.block_height
    }

    /// Stores the block height.
    pub fn put_block_height(&mut self, height: u64)
        ensures
            final(self)@ == (StateView { block_height: Some(height), ..old(self)@ }),
            final(self).wf() == old(self).wf(),
    {
        self.block_height = Some(height);
    }

    /// The block timestamp, in seconds since the Unix epoch.
    pub fn block_timestamp(&self) -> (r: Option<u64>)
        ensures
            r == self@.block_timestamp,
    {
        self.block_timestamp
    }

    /// Stores the block timestamp.
    pub fn put_block_timestamp(&mut self, timestamp: u64)
        ensures
            final(self)@ == (StateView { block_timestamp: Some(timestamp), ..old(self)@ }),
            final(self).wf() == old(self).wf(),
    {
        self.block_timestamp = Some(timestamp);
    }

    /// The storage version recorded for a height.
    pub fn get_storage_version_by_height(&self, height: u64) -> (r: Result<u64, Error>)
        requires
            self.wf(),
        ensures
            match spec_storage_version(self@, height) {
                Some(v) => r == Ok::<u64, Error>(v),
                None => r == Err::<u64, Error>(Error::NotFound),
            },
    {
        match self.storage_versions.get(&height) {
            Some(v) => Ok(*v),
            None => Err(Error::NotFound),
        }
    }

    /// Records the storage version of a height.
    pub fn put_storage_version_by_height(&mut self, height: u64, version: u64)
        requires
            old(self).wf(),
        ensures
            final(self).wf(),
            final(self)@ == (StateView {
                storage_versions: old(self)@.storage_versions.insert(height, version),
                ..old(self)@
            }),
    {
        self.storage_versions.insert(height, version);
    }

    // ----- authority ----------------------------------------------------------------------

    /// The sudo address.
    pub fn sudo_address(&self) -> (r: Option<AddressBytes>)
        ensures
            opt_addr(r) == self@.sudo_address,
    {
        self.sudo_address
    }

    /// Stores the sudo address.
    pub fn put_sudo_address(&mut self, address: AddressBytes)
        ensures
            final(self)@ == (StateView { sudo_address: Some(address@), ..old(self)@ }),
            final(self).wf() == old(self).wf(),
    {
        self.sudo_address = Some(address);
    }

    /// The IBC sudo address.
    pub fn ibc_sudo_address(&self) -> (r: Option<AddressBytes>)
        ensures
            opt_addr(r) == self@.ibc_sudo_address,
    {
        self.ibc_sudo_address
    }

    /// Stores the IBC sudo address.
    pub fn put_ibc_sudo_address(&mut self, address: AddressBytes)
        ensures
            final(self)@ == (StateView { ibc_sudo_address: Some(address@), ..old(self)@ }),
            final(self).wf() == old(self).wf(),
    {
        self.ibc_sudo_address = Some(address);
    }

    /// Whether an address is an IBC relayer.
    pub fn is_ibc_relayer(&self, address: &AddressBytes) -> (r: bool)
        requires
            self.wf(),
        ensures
            r == self@.ibc_relayers.contains(address@),
    {
        self.ibc_relayers.contains_key(address)
    }

    /// Registers an IBC relayer.
    pub fn put_ibc_relayer_address(&mut self, address: AddressBytes)
        requires
            old(self).wf(),
        ensures
            final(self).wf(),
            final(self)@ == (StateView {
                ibc_relayers: old(self)@.ibc_relayers.insert(address@),
                ..old(self)@
            }),
    {
        self.ibc_relayers.insert(address, ());
        assert(self@.ibc_relayers =~= old(self)@.ibc_relayers.insert(address@));
    }

    /// Unregisters an IBC relayer.
    pub fn delete_ibc_relayer_address(&mut self, address: &AddressBytes)
        requires
            old(self).wf(),
        ensures
            final(self).wf(),
            final(self)@ == (StateView {
                ibc_relayers: old(self)@.ibc_relayers.remove(address@),
                ..old(self)@
            }),
    {
        self.ibc_relayers.remove(address);
        assert(self@.ibc_relayers =~= old(self)@.ibc_relayers.remove(address@));
    }

    /// The number of validators in the validator set.
    pub fn validator_count(&self) -> (r: usize)
        requires
            self.wf(),
        ensures
            r == self@.validator_set.dom().len(),
    {
        self.validator_set.len()
    }

    /// The power of a validator.
    pub fn validator_power(&self, key: &[u8; 32]) -> (r: Option<u64>)
        requires
            self.wf(),
        ensures
            match r {
                Some(p) => self@.validator_set.contains_key(key@) && p == self@.validator_set[key@],
                None => !self@.validator_set.contains_key(key@),
            },
    {
        match self.validator_set.get(key) {
            Some(p) => Some(*p),
            None => None,
        }
    }

    /// Sets a validator's power in the validator set.
    pub fn put_validator(&mut self, key: [u8; 32], power: u64)
        requires
            old(self).wf(),
        ensures
            final(self).wf(),
            final(self)@ == (StateView {
                validator_set: old(self)@.validator_set.insert(key@, power),
                ..old(self)@
            }),
    {
        self.validator_set.insert(key, power);
    }

    /// Records a pending validator update, replacing an earlier one for the same key.
    pub fn push_validator_update(&mut self, key: [u8; 32], power: u64)
        requires
            old(self).wf(),
        ensures
            final(self).wf(),
            final(self)@ == (StateView {
                validator_updates: old(self)@.validator_updates.insert(key@, power),
                ..old(self)@
            }),
    {
        self.validator_updates.insert(key, power);
    }

    // ----- fee assets and fees ------------------------------------------------------------

    /// Whether an asset may pay fees.
    pub fn is_allowed_fee_asset(&self, asset: &IbcPrefixed) -> (r: bool)
        requires
            self.wf(),
        ensures
            r == self@.allowed_fee_assets.contains(asset@),
    {
        self.allowed_fee_assets.contains_key(asset)
    }

    /// The assets allowed to pay fees, each once.
    pub fn allowed_fee_assets(&self) -> (r: Vec<IbcPrefixed>)
        requires
            self.wf(),
        ensures
            r@.map_values(|a: IbcPrefixed| a@).no_duplicates(),
            r@.map_values(|a: IbcPrefixed| a@).to_set() == self@.allowed_fee_assets,
    {
        proof {
            self.allowed_fee_assets.lemma_key_seq();
        }
        self.allowed_fee_assets.keys()
    }

    /// Allows an asset to pay fees.
    pub fn put_allowed_fee_asset(&mut self, asset: IbcPrefixed)
        requires
            old(self).wf(),
        ensures
            final(self).wf(),
            final(self)@ == (StateView {
                allowed_fee_assets: old(self)@.allowed_fee_assets.insert(asset@),
                ..old(self)@
            }),
    {
        self.allowed_fee_assets.insert(asset, ());
        assert(self@.allowed_fee_assets =~= old(self)@.allowed_fee_assets.insert(asset@));
    }

    /// Disallows an asset to pay fees.
    pub fn delete_allowed_fee_asset(&mut self, asset: &IbcPrefixed)
        requires
            old(self).wf(),
        ensures
            final(self).wf(),
            final(self)@ == (StateView {
                allowed_fee_assets: old(self)@.allowed_fee_assets.remove(asset@),
                ..old(self)@
            }),
    {
        self.allowed_fee_assets.remove(asset);
        assert(self@.allowed_fee_assets =~= old(self)@.allowed_fee_assets.remove(asset@));
    }

    /// Whether no asset may pay fees.
    pub fn no_allowed_fee_assets(&self) -> (r: bool)
        requires
            self.wf(),
        ensures
            r == (self@.allowed_fee_assets == Set::<Seq<u8>>::empty()),
    {
        let r = self.allowed_fee_assets.is_empty();
        proof {
            if !r {
                assert(self.allowed_fee_assets@ != Map::<Seq<u8>, ()>::empty());
                if self@.allowed_fee_assets == Set::<Seq<u8>>::empty() {
                    assert(self.allowed_fee_assets@ =~= Map::<Seq<u8>, ()>::empty());
                }
            }
        }
        r
    }

    /// The fee components of a kind of action.
    pub fn get_fees(&self, kind: FeeKind) -> (r: Option<FeeComponents>)
        requires
            self.wf(),
        ensures
            match r {
                Some(f) => self@.fees.contains_key(kind) && f == self@.fees[kind],
                None => !self@.fees.contains_key(kind),
            },
    {
        match self.fees.get(&kind) {
            Some(f) => Some(*f),
            None => None,
        }
    }

    /// Stores the fee components of a kind of action.
    pub fn put_fees(&mut self, kind: FeeKind, fees: FeeComponents)
        requires
            old(self).wf(),
        ensures
            final(self).wf(),
            final(self)@ == (StateView { fees: old(self)@.fees.insert(kind, fees), ..old(self)@ }),
    {
        self.fees.insert(kind, fees);
    }

    /// The fees collected in the current block in an asset.
    pub fn get_block_fees(&self, asset: &IbcPrefixed) -> (r: u128)
        requires
            self.wf(),
        ensures
            r == self@.block_fee(asset@),
    {
        match self.block_fees.get(asset) {
            Some(v) => *v,
            None => 0,
        }
    }

    /// Adds to the fees collected in the current block in an asset.
    pub fn increase_block_fees(&mut self, asset: IbcPrefixed, amount: u128) -> (r: Result<(), Error>)
        requires
            old(self).wf(),
        ensures
            final(self).wf(),
            old(self)@.block_fee(asset@) + amount <= u128::MAX ==> r is Ok && final(self)@ == (
            StateView {
                block_fees: old(self)@.block_fees.insert(
                    asset@,
                    (old(self)@.block_fee(asset@) + amount) as u128,
                ),
                ..old(self)@
            }),
            old(self)@.block_fee(asset@) + amount > u128::MAX ==> r == Err::<(), Error>(
                Error::BalanceOverflow,
            ) && final(self)@ == old(self)@,
    {
        let current = self.get_block_fees(&asset);
        match current.checked_add(amount) {
            Some(v) => {
                self.block_fees.insert(asset, v);
                Ok(())
            },
            None => Err(Error::BalanceOverflow),
        }
    }

    // ----- accounts -----------------------------------------------------------------------

    /// The balance of an account in an asset.
    pub fn get_account_balance(&self, account: &AddressBytes, asset: &IbcPrefixed) -> (r: u128)
        requires
            self.wf(),
        ensures
            r == self@.balance(account@, asset@),
    {
        match self.balances.get(&(*account, *asset)) {
            Some(v) => *v,
            None => 0,
        }
    }

    /// Sets the balance of an account in an asset.
    pub fn put_account_balance(&mut self, account: AddressBytes, asset: IbcPrefixed, amount: u128)
        requires
            old(self).wf(),
        ensures
            final(self).wf(),
            final(self)@ == old(self)@.with_balance(account@, asset@, amount),
    {
        self.balances.insert((account, asset), amount);
    }

    /// Adds to the balance of an account; fails on overflow, leaving the state unchanged.
    pub fn increase_balance(&mut self, account: AddressBytes, asset: IbcPrefixed, amount: u128) -> (r: Result<(), Error>)
        requires
            old(self).wf(),
        ensures
            final(self).wf(),
            old(self)@.balance(account@, asset@) + amount <= u128::MAX ==> r is Ok && final(self)@
                == old(self)@.with_balance(
                account@,
                asset@,
                (old(self)@.balance(account@, asset@) + amount) as u128,
            ),
            old(self)@.balance(account@, asset@) + amount > u128::MAX ==> r == Err::<(), Error>(
                Error::BalanceOverflow,
            ) && final(self)@ == old(self)@,
    {
        let current = self.get_account_balance(&account, &asset);
        match current.checked_add(amount) {
            Some(v) => {
                self.put_account_balance(account, asset, v);
                Ok(())
            },
            None => Err(Error::BalanceOverflow),
        }
    }

    /// Subtracts from the balance of an account; fails if the balance is too small, leaving the
    /// state unchanged.
    pub fn decrease_balance(&mut self, account: AddressBytes, asset: IbcPrefixed, amount: u128) -> (r: Result<(), Error>)
        requires
            old(self).wf(),
        ensures
            final(self).wf(),
            old(self)@.balance(account@, asset@) >= amount ==> r is Ok && final(self)@ == old(
                self,
            )@.with_balance(
                account@,
                asset@,
                (old(self)@.balance(account@, asset@) - amount) as u128,
            ),
            old(self)@.balance(account@, asset@) < amount ==> r == Err::<(), Error>(
                Error::InsufficientFunds,
            ) && final(self)@ == old(self)@,
    {
        let current = self.get_account_balance(&account, &asset);
        if current >= amount {
            self.put_account_balance(account, asset, current - amount);
            Ok(())
        } else {
            Err(Error::InsufficientFunds)
        }
    }

    /// The nonce of an account.
    pub fn get_account_nonce(&self, account: &AddressBytes) -> (r: u32)
        requires
            self.wf(),
        ensures
            r == self@.nonce(account@),
    {
        match self.nonces.get(account) {
            Some(v) => *v,
            None => 0,
        }
    }

    /// Sets the nonce of an account.
    pub fn put_account_nonce(&mut self, account: AddressBytes, nonce: u32)
        requires
            old(self).wf(),
        ensures
            final(self).wf(),
            final(self)@ == (StateView {
                nonces: old(self)@.nonces.insert(account@, nonce),
                ..old(self)@
            }),
    {
        self.nonces.insert(account, nonce);
    }
}

impl SequencerState {
    // ----- bridge accounts ----------------------------------------------------------------

    /// The rollup ID of a bridge account, if the account is one.
    pub fn get_bridge_account_rollup_id(&self, account: &AddressBytes) -> (r: Option<RollupId>)
        requires
            self.wf(),
        ensures
            match r {
                Some(id) => self@.bridge_rollup_ids.contains_key(account@) && id@
                    == self@.bridge_rollup_ids[account@],
                None => !self@.bridge_rollup_ids.contains_key(account@),
            },
    {
        match self.bridge_rollup_ids.get(account) {
            Some(id) => Some(*id),
            None => None,
        }
    }

    /// Whether an account is a bridge account.
    pub fn is_a_bridge_account(&self, account: &AddressBytes) -> (r: bool)
        requires
            self.wf(),
        ensures
            r == self@.is_bridge_account(account@),
    {
        self.bridge_rollup_ids.contains_key(account)
    }

    /// Stores the rollup ID of a bridge account.
    pub fn put_bridge_account_rollup_id(&mut self, account: AddressBytes, rollup_id: RollupId)
        requires
            old(self).wf(),
        ensures
            final(self).wf(),
            final(self)@ == (StateView {
                bridge_rollup_ids: old(self)@.bridge_rollup_ids.insert(account@, rollup_id@),
                ..old(self)@
            }),
    {
        self.bridge_rollup_ids.insert(account, rollup_id);
    }

    /// The asset of a bridge account.
    pub fn get_bridge_account_ibc_asset(&self, account: &AddressBytes) -> (r: Option<IbcPrefixed>)
        requires
            self.wf(),
        ensures
            match r {
                Some(a) => self@.bridge_assets.contains_key(account@) && a@
                    == self@.bridge_assets[account@],
                None => !self@.bridge_assets.contains_key(account@),
            },
    {
        match self.bridge_assets.get(account) {
            Some(a) => Some(*a),
            None => None,
        }
    }

    /// Stores the asset of a bridge account.
    pub fn put_bridge_account_ibc_asset(&mut self, account: AddressBytes, asset: IbcPrefixed)
        requires
            old(self).wf(),
        ensures
            final(self).wf(),
            final(self)@ == (StateView {
                bridge_assets: old(self)@.bridge_assets.insert(account@, asset@),
                ..old(self)@
            }),
    {
        self.bridge_assets.insert(account, asset);
    }

    /// The sudo address of a bridge account.
    pub fn get_bridge_account_sudo_address(&self, account: &AddressBytes) -> (r: Option<AddressBytes>)
        requires
            self.wf(),
        ensures
            match r {
                Some(a) => self@.bridge_sudo_addresses.contains_key(account@) && a@
                    == self@.bridge_sudo_addresses[account@],
                None => !self@.bridge_sudo_addresses.contains_key(account@),
            },
    {
        match self.bridge_sudo_addresses.get(account) {
            Some(a) => Some(*a),
            None => None,
        }
    }

    /// Stores the sudo address of a bridge account.
    pub fn put_bridge_account_sudo_address(&mut self, account: AddressBytes, sudo: AddressBytes)
        requires
            old(self).wf(),
        ensures
            final(self).wf(),
            final(self)@ == (StateView {
                bridge_sudo_addresses: old(self)@.bridge_sudo_addresses.insert(account@, sudo@),
                ..old(self)@
            }),
    {
        self.bridge_sudo_addresses.insert(account, sudo);
    }

    /// The withdrawer address of a bridge account.
    pub fn get_bridge_account_withdrawer_address(&self, account: &AddressBytes) -> (r: Option<AddressBytes>)
        requires
            self.wf(),
        ensures
            match r {
                Some(a) => self@.bridge_withdrawers.contains_key(account@) && a@
                    == self@.bridge_withdrawers[account@],
                None => !self@.bridge_withdrawers.contains_key(account@),
            },
    {
        match self.bridge_withdrawers.get(account) {
            Some(a) => Some(*a),
            None => None,
        }
    }

    /// Stores the withdrawer address of a bridge account.
    pub fn put_bridge_account_withdrawer_address(&mut self, account: AddressBytes, withdrawer: AddressBytes)
        requires
            old(self).wf(),
        ensures
            final(self).wf(),
            final(self)@ == (StateView {
                bridge_withdrawers: old(self)@.bridge_withdrawers.insert(account@, withdrawer@),
                ..old(self)@
            }),
    {
        self.bridge_withdrawers.insert(account, withdrawer);
    }

    /// The rollup block in which a withdrawal event of a bridge account was processed.
    pub fn get_withdrawal_event_block_for_bridge_account(&self, account: &AddressBytes, event_id: &String) -> (r: Option<u64>)
        requires
            self.wf(),
        ensures
            match r {
                Some(b) => self@.withdrawal_events.contains_key((account@, event_id@)) && b
                    == self@.withdrawal_events[(account@, event_id@)],
                None => !self@.withdrawal_events.contains_key((account@, event_id@)),
            },
    {
        match self.withdrawal_events.get(&(*account, event_id.clone())) {
            Some(b) => Some(*b),
            None => None,
        }
    }

    /// Records the rollup block in which a withdrawal event of a bridge account was processed.
    pub fn put_withdrawal_event_block_for_bridge_account(&mut self, account: AddressBytes, event_id: String, block: u64)
        requires
            old(self).wf(),
        ensures
            final(self).wf(),
            final(self)@ == (StateView {
                withdrawal_events: old(self)@.withdrawal_events.insert((account@, event_id@), block),
                ..old(self)@
            }),
    {
        self.withdrawal_events.insert((account, event_id), block);
    }

    /// Records the last transaction of a bridge account.
    pub fn put_last_transaction_id_for_bridge_account(&mut self, account: AddressBytes, tx_id: TransactionId)
        requires
            old(self).wf(),
        ensures
            final(self).wf(),
            final(self)@ == (StateView {
                last_transaction_ids: old(self)@.last_transaction_ids.insert(account@, tx_id@),
                ..old(self)@
            }),
    {
        self.last_transaction_ids.insert(account, tx_id);
    }

    /// Records a deposit made into a rollup.
    pub fn push_deposit(&mut self, deposit: Deposit)
        ensures
            final(self).wf() == old(self).wf(),
            final(self)@ == (StateView { deposits: old(self)@.deposits.push(deposit@), ..old(self)@ }),
    {
        self.deposits.push(deposit);
        assert(self@.deposits =~= old(self)@.deposits.push(deposit@));
    }

    // ----- IBC ----------------------------------------------------------------------------

    /// The trace-prefixed denomination of an asset ID, if known.
    pub fn map_ibc_to_trace_prefixed_asset(&self, asset: &IbcPrefixed) -> (r: Option<&TracePrefixed>)
        requires
            self.wf(),
        ensures
            match r {
                Some(t) => self@.ibc_assets.contains_key(asset@) && t@ == self@.ibc_assets[asset@],
                None => !self@.ibc_assets.contains_key(asset@),
            },
    {
        self.ibc_assets.get(asset)
    }

    /// Whether an asset ID is known.
    pub fn has_ibc_asset(&self, asset: &IbcPrefixed) -> (r: bool)
        requires
            self.wf(),
        ensures
            r == self@.ibc_assets.contains_key(asset@),
    {
        self.ibc_assets.contains_key(asset)
    }

    /// Registers a trace-prefixed denomination under its ID.
    pub fn put_ibc_asset(&mut self, asset: TracePrefixed)
        requires
            old(self).wf(),
        ensures
            final(self).wf(),
            final(self)@ == (StateView {
                ibc_assets: old(self)@.ibc_assets.insert(
                    crate::primitive::denom_id(crate::primitive::Denom::TracePrefixed(asset)),
                    asset@,
                ),
                ..old(self)@
            }),
    {
        let denom = crate::primitive::Denom::TracePrefixed(asset);
        let id = denom.to_ibc_prefixed();
        match denom {
            crate::primitive::Denom::TracePrefixed(t) => {
                self.ibc_assets.insert(id, t);
            },
            crate::primitive::Denom::IbcPrefixed(_) => {},
        }
    }

    /// The balance of an asset escrowed on a channel.
    pub fn get_ibc_channel_balance(&self, channel: &String, asset: &IbcPrefixed) -> (r: u128)
        requires
            self.wf(),
        ensures
            r == self@.channel_balance(channel@, asset@),
    {
        match self.channel_balances.get(&(channel.clone(), *asset)) {
            Some(v) => *v,
            None => 0,
        }
    }

    /// Sets the balance of an asset escrowed on a channel.
    pub fn put_ibc_channel_balance(&mut self, channel: String, asset: IbcPrefixed, balance: u128)
        requires
            old(self).wf(),
        ensures
            final(self).wf(),
            final(self)@ == (StateView {
                channel_balances: old(self)@.channel_balances.insert((channel@, asset@), balance),
                ..old(self)@
            }),
    {
        self.channel_balances.insert((channel, asset), balance);
    }

    // ----- blocks -------------------------------------------------------------------------

    /// Stores a block under its height and hash, with its rollup IDs.
    pub fn put_sequencer_block(&mut self, block: SequencerBlock)
        requires
            old(self).wf(),
        ensures
            final(self).wf(),
            final(self)@ == spec_put_sequencer_block(old(self)@, block@),
    {
        self.block_hashes_by_height.insert(block.height, block.block_hash);
        self.rollup_ids_by_hash.insert(block.block_hash, block.rollup_ids.dup());
        self.blocks_by_hash.insert(block.block_hash, block);
    }

    /// The hash of the block at a height.
    pub fn get_block_hash_by_height(&self, height: u64) -> (r: Result<[u8; 32], Error>)
        requires
            self.wf(),
        ensures
            match r {
                Ok(h) => self@.block_hashes_by_height.contains_key(height) && h@
                    == self@.block_hashes_by_height[height],
                Err(e) => !self@.block_hashes_by_height.contains_key(height) && e == Error::NotFound,
            },
    {
        match self.block_hashes_by_height.get(&height) {
            Some(h) => Ok(*h),
            None => Err(Error::NotFound),
        }
    }

    /// The block with a hash.
    pub fn get_sequencer_block_by_hash(&self, hash: &[u8; 32]) -> (r: Result<&SequencerBlock, Error>)
        requires
            self.wf(),
        ensures
            match r {
                Ok(b) => self@.blocks_by_hash.contains_key(hash@) && b@ == self@.blocks_by_hash[hash@],
                Err(e) => !self@.blocks_by_hash.contains_key(hash@) && e == Error::NotFound,
            },
    {
        match self.blocks_by_hash.get(hash) {
            Some(b) => Ok(b),
            None => Err(Error::NotFound),
        }
    }

    /// The rollup IDs of the block with a hash.
    pub fn get_rollup_ids_by_block_hash(&self, hash: &[u8; 32]) -> (r: Result<Vec<RollupId>, Error>)
        requires
            self.wf(),
        ensures
            match r {
                Ok(ids) => self@.rollup_ids_by_hash.contains_key(hash@) && ids@ == self@.rollup_ids_by_hash[hash@],
                Err(e) => !self@.rollup_ids_by_hash.contains_key(hash@) && e == Error::NotFound,
            },
    {
        match self.rollup_ids_by_hash.get(hash) {
            Some(ids) => Ok(ids.dup()),
            None => Err(Error::NotFound),
        }
    }

    /// The block at a height: the block with the hash stored for that height.
    pub fn get_sequencer_block_by_height(&self, height: u64) -> (r: Result<&SequencerBlock, Error>)
        requires
            self.wf(),
        ensures
            match spec_block_by_height(self@, height) {
                Some(b) => r is Ok && r->Ok_0@ == b,
                None => r is Err && r->Err_0 == Error::NotFound,
            },
    {
        let hash = self.get_block_hash_by_height(height)?;
        self.get_sequencer_block_by_hash(&hash)
    }

    // ----- validators ---------------------------------------------------------------------

    /// Replaces the validator set.
    pub fn put_validator_set(&mut self, set: AssocMap<[u8; 32], u64>)
        requires
            old(self).wf(),
            set.wf(),
        ensures
            final(self).wf(),
            final(self)@ == (StateView { validator_set: set@, ..old(self)@ }),
    {
        self.validator_set = set;
    }

    /// A copy of the validator set.
    pub fn get_validator_set(&self) -> (r: AssocMap<[u8; 32], u64>)
        requires
            self.wf(),
        ensures
            r.wf(),
            r@ == self@.validator_set,
    {
        self.validator_set.dup()
    }

    /// A copy of the pending validator updates.
    pub fn get_validator_updates(&self) -> (r: AssocMap<[u8; 32], u64>)
        requires
            self.wf(),
        ensures
            r.wf(),
            r@ == self@.validator_updates,
    {
        self.validator_updates.dup()
    }

    /// Removes all pending validator updates.
    pub fn clear_validator_updates(&mut self)
        requires
            old(self).wf(),
        ensures
            final(self).wf(),
            final(self)@ == (StateView { validator_updates: Map::empty(), ..old(self)@ }),
    {
        self.validator_updates = AssocMap::new();
    }

    // ----- markets ------------------------------------------------------------------------

    /// The stored market map, if any.
    pub fn get_market_map(&self) -> (r: Option<&AssocMap<String, Market>>)
        requires
            self.wf(),
        ensures
            match r {
                Some(m) => self@.market_map == Some(m@) && m.wf(),
                None => self@.market_map is None,
            },
    {
        self.market_map.as_ref()
    }

    /// Stores a market map.
    pub fn put_market_map(&mut self, markets: AssocMap<String, Market>)
        requires
            old(self).wf(),
            markets.wf(),
        ensures
            final(self).wf(),
            final(self)@ == (StateView { market_map: Some(markets@), ..old(self)@ }),
    {
        self.market_map = Some(markets);
    }

    /// Records the height at which the market map was last updated.
    pub fn put_market_map_last_updated_height(&mut self, height: u64)
        ensures
            final(self).wf() == old(self).wf(),
            final(self)@ == (StateView { market_map_last_updated_height: Some(height), ..old(self)@ }),
    {
        self.market_map_last_updated_height = Some(height);
    }
}

/// The state with a block stored under its height and hash, with its rollup IDs.
pub open spec fn spec_put_sequencer_block(v: StateView, block: BlockView) -> StateView {
    StateView {
        block_hashes_by_height: v.block_hashes_by_height.insert(block.height, block.block_hash),
        rollup_ids_by_hash: v.rollup_ids_by_hash.insert(block.block_hash, block.rollup_ids),
        blocks_by_hash: v.blocks_by_hash.insert(block.block_hash, block),
        ..v
    }
}

/// The block stored at a height: the block with the hash stored for that height.
pub open spec fn spec_block_by_height(v: StateView, height: u64) -> Option<BlockView> {
    if v.block_hashes_by_height.contains_key(height) && v.blocks_by_hash.contains_key(
        v.block_hashes_by_height[height],
    ) {
        Some(v.blocks_by_hash[v.block_hashes_by_height[height]])
    } else {
        None
    }
}

/// The storage version recorded for a height.
pub open spec fn spec_storage_version(v: StateView, height: u64) -> Option<u64> {
    if v.storage_versions.contains_key(height) {
        Some(v.storage_versions[height])
    } else {
        None
    }
}

/// The view of a state with nothing stored.
pub open spec fn empty_state_view() -> StateView {
    StateView {
        base_prefix: None,
        ibc_compat_prefix: None,
        native_asset: None,
        chain_id: None,
        revision_number: None,
        block_height: None,
        block_timestamp: None,
        sudo_address: None,
        ibc_sudo_address: None,
        ibc_relayers: Set::empty(),
        allowed_fee_assets: Set::empty(),
        balances: Map::empty(),
        nonces: Map::empty(),
        fees: Map::empty(),
        bridge_rollup_ids: Map::empty(),
        bridge_assets: Map::empty(),
        bridge_sudo_addresses: Map::empty(),
        bridge_withdrawers: Map::empty(),
        withdrawal_events: Map::empty(),
        last_transaction_ids: Map::empty(),
        ibc_assets: Map::empty(),
        block_fees: Map::empty(),
        channel_balances: Map::empty(),
        validator_set: Map::empty(),
        validator_updates: Map::empty(),
        deposits: Seq::empty(),
        market_map: None,
        market_map_last_updated_height: None,
        block_hashes_by_height: Map::empty(),
        blocks_by_hash: Map::empty(),
        rollup_ids_by_hash: Map::empty(),
        storage_versions: Map::empty(),
    }
}

} // verus!
