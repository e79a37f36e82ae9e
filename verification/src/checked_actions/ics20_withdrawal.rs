//! A checked ICS20 withdrawal: funds sent to another chain over IBC, from the signer's account
//! or from a bridge account on behalf of its rollup.
use vstd::prelude::*;

use crate::actions::{IbcHeight, Ics20Withdrawal, Ics20WithdrawalFromRollup};
use crate::address::{ensure_base_prefix, spec_ensure_base_prefix};
use crate::checked_actions::bridge_unlock::{
    byte_len,
    spec_record_withdrawal_event,
    MAX_WITHDRAWAL_EVENT_ID_BYTES,
};
use crate::error::Error;
use crate::map::KeyEq;
use crate::primitive::{
    bech32_text,
    bech32m_text,
    denom_id,
    denom_text,
    encode_bech32,
    encode_bech32m,
    try_build_address,
    valid_prefix,
    Address,
    AddressBytes,
    Denom,
    IbcPrefixed,
};
use crate::state::{SequencerState, StateView};
use crate::text::{decimal, push_decimal, string_from};

verus! {

/// The longest rollup return address, in bytes.
pub const MAX_ROLLUP_RETURN_ADDRESS_BYTES: usize = 256;

/// The port of ICS20 transfers.
pub open spec fn transfer_port() -> Seq<char> {
    seq!['t', 'r', 'a', 'n', 's', 'f', 'e', 'r']
}

/// The data of an ICS20 fungible token packet.
pub struct FungibleTokenPacketData {
    pub amount: String,
    pub denom: String,
    pub sender: String,
    pub receiver: String,
    pub memo: String,
}

/// An IBC packet carrying a fungible token transfer, not yet checked against the IBC state.
pub struct Ics20Packet {
    pub source_port: String,
    pub source_channel: String,
    pub timeout_height: IbcHeight,
    pub timeout_timestamp: u64,
    pub data: FungibleTokenPacketData,
}

/// The view of a packet.
pub struct PacketView {
    pub source_port: Seq<char>,
    pub source_channel: Seq<char>,
    pub timeout_height: IbcHeight,
    pub timeout_timestamp: u64,
    pub amount: Seq<char>,
    pub denom: Seq<char>,
    pub sender: Seq<char>,
    pub receiver: Seq<char>,
    pub memo: Seq<char>,
}

impl View for Ics20Packet {
    type V = PacketView;

    open spec fn view(&self) -> PacketView {
        PacketView {
            source_port: self.source_port@,
            source_channel: self.source_channel@,
            timeout_height: self.timeout_height,
            timeout_timestamp: self.timeout_timestamp,
            amount: self.data.amount@,
            denom: self.data.denom@,
            sender: self.data.sender@,
            receiver: self.data.receiver@,
            memo: self.data.memo@,
        }
    }
}

/// The checks of the memo of a withdrawal from a bridge account: a non-empty rollup return
/// address and event ID of at most 256 bytes each, and a non-zero rollup block number.
pub open spec fn spec_rollup_memo_checks(m: Ics20WithdrawalFromRollup) -> Result<(), Error> {
    if m.rollup_return_address@.len() == 0 {
        Err(Error::EmptyRollupReturnAddress)
    } else if byte_len(m.rollup_return_address@) > MAX_ROLLUP_RETURN_ADDRESS_BYTES {
        Err(Error::RollupReturnAddressTooLong)
    } else if m.rollup_withdrawal_event_id@.len() == 0 {
        Err(Error::EmptyWithdrawalEventId)
    } else if byte_len(m.rollup_withdrawal_event_id@) > MAX_WITHDRAWAL_EVENT_ID_BYTES {
        Err(Error::WithdrawalEventIdTooLong)
    } else if m.rollup_block_number == 0 {
        Err(Error::ZeroRollupBlockNumber)
    } else {
        Ok(())
    }
}

/// The checks of the bridge part of a withdrawal: where a bridge address is given, it has the
/// base prefix and the memo parsed as a withdrawal from its rollup that passes its checks.
pub open spec fn spec_bridge_part_checks(v: StateView, bridge: Option<Address>, memo: Option<Ics20WithdrawalFromRollup>) -> Result<(), Error> {
    match bridge {
        None => Ok(()),
        Some(b) => match spec_ensure_base_prefix(v, b.prefix@) {
            Err(e) => Err(e),
            Ok(_) => match memo {
                None => Err(Error::InvalidMemo),
                Some(m) => spec_rollup_memo_checks(m),
            },
        },
    }
}

/// The sender written into the packet: the return address in bech32m form, or, for a
/// compatible address, in bech32 form under the stored IBC compatible prefix.
pub open spec fn spec_sender(v: StateView, a: Ics20Withdrawal) -> Result<Seq<char>, Error> {
    let bytes = a.return_address.bytes@;
    if a.use_compat_address {
        match v.ibc_compat_prefix {
            None => Err(Error::IbcCompatPrefixNotFound),
            Some(p) => if !valid_prefix(p) {
                Err(Error::InvalidPrefix)
            } else {
                match bech32_text(p, bytes) {
                    None => Err(Error::AddressEncodingFailed),
                    Some(s) => Ok(s),
                }
            },
        }
    } else {
        match bech32m_text(a.return_address.prefix@, bytes) {
            None => Err(Error::AddressEncodingFailed),
            Some(s) => Ok(s),
        }
    }
}

/// The account the funds leave: the bridge account if given, else the signer.
pub open spec fn spec_withdrawal_address(a: Ics20Withdrawal, signer: Seq<u8>) -> Seq<u8> {
    match a.bridge_address {
        Some(b) => b.bytes@,
        None => signer,
    }
}

/// The bridge account and the rollup withdrawal event of a withdrawal from a bridge account.
pub open spec fn spec_rollup_event(a: Ics20Withdrawal, memo: Option<Ics20WithdrawalFromRollup>) -> Option<(Seq<u8>, Seq<char>, u64)> {
    match a.bridge_address {
        Some(b) => Some(
            (
                b.bytes@,
                memo->Some_0.rollup_withdrawal_event_id@,
                memo->Some_0.rollup_block_number,
            ),
        ),
        None => None,
    }
}

/// The checks at every stage: a withdrawal from a bridge account is signed by its withdrawer
/// and its event was not used before; otherwise the signer is not a bridge account.
pub open spec fn spec_ics20_mutable_checks(v: StateView, event: Option<(Seq<u8>, Seq<char>, u64)>, withdrawal_address: Seq<u8>, signer: Seq<u8>) -> Result<(), Error> {
    match event {
        Some((bridge, event_id, _)) => if !v.bridge_withdrawers.contains_key(bridge) {
            Err(Error::BridgeWithdrawerNotFound)
        } else if v.bridge_withdrawers[bridge] != signer {
            Err(Error::NotAuthorized)
        } else if v.withdrawal_events.contains_key((withdrawal_address, event_id)) {
            Err(Error::WithdrawalEventAlreadyUsed)
        } else {
            Ok(())
        },
        None => if v.is_bridge_account(signer) {
            Err(Error::SignerIsBridgeWithoutBridgeAddress)
        } else {
            Ok(())
        },
    }
}

/// The checks of constructing a withdrawal, given what parsing its memo gave: the return
/// address has the base prefix, the timeout time and the amount are non-zero, the bridge part
/// passes, the sender can be written, then the mutable checks.
pub open spec fn spec_ics20_withdrawal_checks(v: StateView, a: Ics20Withdrawal, memo: Option<Ics20WithdrawalFromRollup>, signer: Seq<u8>) -> Result<(), Error> {
    match spec_ensure_base_prefix(v, a.return_address.prefix@) {
        Err(e) => Err(e),
        Ok(_) => if a.timeout_time == 0 {
            Err(Error::ZeroTimeoutTime)
        } else if a.amount == 0 {
            Err(Error::ZeroAmount)
        } else {
            match spec_bridge_part_checks(v, a.bridge_address, memo) {
                Err(e) => Err(e),
                Ok(_) => match spec_sender(v, a) {
                    Err(e) => Err(e),
                    Ok(_) => spec_ics20_mutable_checks(
                        v,
                        spec_rollup_event(a, memo),
                        spec_withdrawal_address(a, signer),
                        signer,
                    ),
                },
            }
        },
    }
}

/// The packet of a withdrawal with the given sender.
pub open spec fn spec_packet(a: Ics20Withdrawal, sender: Seq<char>) -> PacketView {
    PacketView {
        source_port: transfer_port(),
        source_channel: a.source_channel@,
        timeout_height: a.timeout_height,
        timeout_timestamp: a.timeout_time,
        amount: decimal(a.amount as nat),
        denom: denom_text(a.denom),
        sender: sender,
        receiver: a.destination_chain_address@,
        memo: a.memo@,
    }
}

/// This chain is the source of the asset sent on `channel` of `port`: the asset is
/// trace-prefixed and its trace does not start with that port and channel.
pub open spec fn spec_is_source(port: Seq<char>, channel: Seq<char>, asset: Denom) -> bool {
    match asset {
        Denom::TracePrefixed(t) => !(t@.trace.len() > 0 && t@.trace[0].0 == port) || !(t@.trace.len()
            > 0 && t@.trace[0].1 == channel),
        Denom::IbcPrefixed(_) => false,
    }
}

/// Whether this chain is the source of `asset` sent on `source_channel` of `source_port`.
pub fn is_source(source_port: &String, source_channel: &String, asset: &Denom) -> (r: bool)
    ensures
        r == spec_is_source(source_port@, source_channel@, *asset),
{
    match asset {
        Denom::TracePrefixed(t) => !t.has_leading_port(source_port) || !t.has_leading_channel(
            source_channel,
        ),
        Denom::IbcPrefixed(_) => false,
    }
}

/// The state after a withdrawal, given whether its packet passed the IBC send check: the
/// mutable checks pass and a block timestamp is stored; the rollup withdrawal event is
/// recorded; the amount leaves the withdrawal account; if this chain is the source of the
/// asset, the amount is escrowed on the channel.
pub open spec fn spec_ics20_withdrawal_execute(
    v: StateView,
    amount: u128,
    denom: Denom,
    withdrawal_address: Seq<u8>,
    event: Option<(Seq<u8>, Seq<char>, u64)>,
    port: Seq<char>,
    channel: Seq<char>,
    signer: Seq<u8>,
    packet_check_passed: bool,
) -> Result<StateView, Error> {
    match spec_ics20_mutable_checks(v, event, withdrawal_address, signer) {
        Err(e) => Err(e),
        Ok(_) => if v.block_timestamp is None {
            Err(Error::BlockTimestampNotFound)
        } else if !packet_check_passed {
            Err(Error::IbcPacketCheckFailed)
        } else {
            let asset = denom_id(denom);
            let v1 = match event {
                Some((_, event_id, block)) => spec_record_withdrawal_event(
                    v,
                    withdrawal_address,
                    event_id,
                    block,
                ),
                None => v,
            };
            let balance = v1.balance(withdrawal_address, asset);
            if balance < amount {
                Err(Error::InsufficientFunds)
            } else {
                let v2 = v1.with_balance(withdrawal_address, asset, (balance - amount) as u128);
                if spec_is_source(port, channel, denom) {
                    let escrowed = v2.channel_balance(channel, asset);
                    if escrowed + amount > u128::MAX {
                        Err(Error::BalanceOverflow)
                    } else {
                        Ok(
                            StateView {
                                channel_balances: v2.channel_balances.insert(
                                    (channel, asset),
                                    (escrowed + amount) as u128,
                                ),
                                ..v2
                            },
                        )
                    }
                } else {
                    Ok(v2)
                }
            }
        },
    }
}

/// Writes the sender of the packet.
fn sender_text(a: &Ics20Withdrawal, state: &SequencerState) -> (r: Result<String, Error>)
    ensures
        match spec_sender(state@, *a) {
            Ok(s) => r is Ok && r->Ok_0@ == s,
            Err(e) => r == Err::<String, Error>(e),
        },
{
    if a.use_compat_address {
        let prefix = match state.ibc_compat_prefix() {
            Some(p) => p,
            None => return Err(Error::IbcCompatPrefixNotFound),
        };
        let compat = match try_build_address(a.return_address.bytes, prefix.as_str()) {
            Some(c) => c,
            None => return Err(Error::InvalidPrefix),
        };
        match encode_bech32(compat.prefix.as_str(), &compat.bytes) {
            Some(s) => Ok(s),
            None => Err(Error::AddressEncodingFailed),
        }
    } else {
        match encode_bech32m(a.return_address.prefix.as_str(), &a.return_address.bytes) {
            Some(s) => Ok(s),
            None => Err(Error::AddressEncodingFailed),
        }
    }
}

/// An ICS20 withdrawal that passed its checks, with the packet it sends.
pub struct CheckedIcs20Withdrawal {
    amount: u128,
    denom: Denom,
    fee_asset: Denom,
    withdrawal_address: AddressBytes,
    bridge_address_and_rollup_withdrawal: Option<(Address, Ics20WithdrawalFromRollup)>,
    ibc_packet: Ics20Packet,
    tx_signer: AddressBytes,
}

impl CheckedIcs20Withdrawal {
    pub closed spec fn amount(&self) -> u128 {
        self.amount
    }

    pub closed spec fn denom(&self) -> Denom {
        self.denom
    }

    pub closed spec fn spec_fee_asset(&self) -> Denom {
        self.fee_asset
    }

    pub closed spec fn withdrawal_address(&self) -> Seq<u8> {
        self.withdrawal_address@
    }

    /// The bridge account, event ID and rollup block of a withdrawal from a bridge account.
    pub closed spec fn rollup_event(&self) -> Option<(Seq<u8>, Seq<char>, u64)> {
        match self.bridge_address_and_rollup_withdrawal {
            Some((b, m)) => Some((b.bytes@, m.rollup_withdrawal_event_id@, m.rollup_block_number)),
            None => None,
        }
    }

    pub closed spec fn packet(&self) -> PacketView {
        self.ibc_packet@
    }

    pub closed spec fn signer(&self) -> Seq<u8> {
        self.tx_signer@
    }

    /// Checks the action against the state and builds its packet; `parsed_memo` is what parsing
    /// the action's memo as a withdrawal from a rollup gave, if it parsed.
    pub fn new(action: Ics20Withdrawal, parsed_memo: Option<Ics20WithdrawalFromRollup>, tx_signer: AddressBytes, state: &SequencerState) -> (r: Result<Self, Error>)
        requires
            state.wf(),
        ensures
            match r {
                Ok(c) => spec_ics20_withdrawal_checks(state@, action, parsed_memo, tx_signer@) is Ok
                    && c.amount() == action.amount && c.denom() == action.denom
                    && c.spec_fee_asset() == action.fee_asset && c.withdrawal_address()
                    == spec_withdrawal_address(action, tx_signer@) && c.rollup_event()
                    == spec_rollup_event(action, parsed_memo) && c.signer() == tx_signer@
                    && c.packet() == spec_packet(action, spec_sender(state@, action)->Ok_0),
                Err(e) => spec_ics20_withdrawal_checks(state@, action, parsed_memo, tx_signer@)
                    == Err::<(), Error>(e),
            },
    {
        ensure_base_prefix(state, &action.return_address)?;
        if action.timeout_time == 0 {
            return Err(Error::ZeroTimeoutTime);
        }
        if action.amount == 0 {
            return Err(Error::ZeroAmount);
        }
        let withdrawal_address = match &action.bridge_address {
            Some(b) => b.bytes,
            None => tx_signer,
        };
        let ghost a = action;
        let bridge_address_and_rollup_withdrawal = match &action.bridge_address {
            Some(bridge_address) => {
                ensure_base_prefix(state, bridge_address)?;
                let m = match parsed_memo {
                    Some(m) => m,
                    None => return Err(Error::InvalidMemo),
                };
                if m.rollup_return_address.as_str().is_empty() {
                    return Err(Error::EmptyRollupReturnAddress);
                }
                if m.rollup_return_address.as_str().len() > MAX_ROLLUP_RETURN_ADDRESS_BYTES {
                    return Err(Error::RollupReturnAddressTooLong);
                }
                if m.rollup_withdrawal_event_id.as_str().is_empty() {
                    return Err(Error::EmptyWithdrawalEventId);
                }
                if m.rollup_withdrawal_event_id.as_str().len() > MAX_WITHDRAWAL_EVENT_ID_BYTES {
                    return Err(Error::WithdrawalEventIdTooLong);
                }
                if m.rollup_block_number == 0 {
                    return Err(Error::ZeroRollupBlockNumber);
                }
                Some((bridge_address.dup(), m))
            },
            None => None,
        };
        let sender = sender_text(&action, state)?;
        let mut amount_text = String::new();
        push_decimal(&mut amount_text, action.amount);
        let denom_text = action.denom.to_text();
        let Ics20Withdrawal {
            amount,
            denom,
            destination_chain_address,
            return_address: _,
            timeout_height,
            timeout_time,
            source_channel,
            fee_asset,
            memo,
            bridge_address: _,
            use_compat_address: _,
        } = action;
        let ibc_packet = Ics20Packet {
            source_port: string_from("transfer"),
            source_channel,
            timeout_height,
            timeout_timestamp: timeout_time,
            data: FungibleTokenPacketData {
                amount: amount_text,
                denom: denom_text,
                sender,
                receiver: destination_chain_address,
                memo,
            },
        };
        proof {
            reveal_strlit("transfer");
            assert(ibc_packet@.source_port =~= transfer_port());
            assert(ibc_packet@ == spec_packet(a, spec_sender(state@, a)->Ok_0));
        }
        let checked = CheckedIcs20Withdrawal {
            amount,
            denom,
            fee_asset,
            withdrawal_address,
            bridge_address_and_rollup_withdrawal,
            ibc_packet,
            tx_signer,
        };
        checked.run_mutable_checks(state)?;
        Ok(checked)
    }

    /// Runs the checks that depend on mutable state.
    pub fn run_mutable_checks(&self, state: &SequencerState) -> (r: Result<(), Error>)
        requires
            state.wf(),
        ensures
            r == spec_ics20_mutable_checks(state@, self.rollup_event(), self.withdrawal_address(), self.signer()),
    {
        match &self.bridge_address_and_rollup_withdrawal {
            Some((bridge_address, rollup_withdrawal)) => {
                let withdrawer = match state.get_bridge_account_withdrawer_address(&bridge_address.bytes) {
                    Some(w) => w,
                    None => return Err(Error::BridgeWithdrawerNotFound),
                };
                if !withdrawer.key_eq(&self.tx_signer) {
                    return Err(Error::NotAuthorized);
                }
                if state.get_withdrawal_event_block_for_bridge_account(
                    &self.withdrawal_address,
                    &rollup_withdrawal.rollup_withdrawal_event_id,
                ).is_some() {
                    return Err(Error::WithdrawalEventAlreadyUsed);
                }
                Ok(())
            },
            None => if state.is_a_bridge_account(&self.tx_signer) {
                Err(Error::SignerIsBridgeWithoutBridgeAddress)
            } else {
                Ok(())
            },
        }
    }

    /// The packet that the withdrawal sends.
    pub fn ibc_packet(&self) -> (r: &Ics20Packet)
        ensures
            r@ == self.packet(),
    {
        &self.ibc_packet
    }

    /// The asset and the amount that leave the withdrawal account.
    pub fn transfer_asset_and_amount(&self) -> (r: (IbcPrefixed, u128))
        ensures
            r.0@ == denom_id(self.denom()),
            r.1 == self.amount(),
    {
        (self.denom.to_ibc_prefixed(), self.amount)
    }

    /// The asset that pays the fee.
    pub fn fee_asset(&self) -> (r: &Denom)
        ensures
            *r == self.spec_fee_asset(),
    {
        &self.fee_asset
    }

    /// Executes the withdrawal, given whether its packet passed the IBC send check against the
    /// current block timestamp; on success the packet is to be sent. On failure the state is
    /// unchanged.
    pub fn execute(&self, state: &mut SequencerState, packet_check_passed: bool) -> (r: Result<(), Error>)
        requires
            old(state).wf(),
        ensures
            final(state).wf(),
            match spec_ics20_withdrawal_execute(
                old(state)@,
                self.amount(),
                self.denom(),
                self.withdrawal_address(),
                self.rollup_event(),
                self.packet().source_port,
                self.packet().source_channel,
                self.signer(),
                packet_check_passed,
            ) {
                Ok(v) => r is Ok && final(state)@ == v,
                Err(e) => r == Err::<(), Error>(e) && final(state)@ == old(state)@,
            },
    {
        self.run_mutable_checks(state)?;
        if state.block_timestamp().is_none() {
            return Err(Error::BlockTimestampNotFound);
        }
        if !packet_check_passed {
            return Err(Error::IbcPacketCheckFailed);
        }
        let asset = self.denom.to_ibc_prefixed();
        let balance = state.get_account_balance(&self.withdrawal_address, &asset);
        if balance < self.amount {
            return Err(Error::InsufficientFunds);
        }
        let channel = &self.ibc_packet.source_channel;
        let escrow = is_source(&self.ibc_packet.source_port, channel, &self.denom);
        let escrowed = state.get_ibc_channel_balance(channel, &asset);
        if escrow && escrowed > u128::MAX - self.amount {
            return Err(Error::BalanceOverflow);
        }
        if let Some((_, rollup_withdrawal)) = &self.bridge_address_and_rollup_withdrawal {
            state.put_withdrawal_event_block_for_bridge_account(
                self.withdrawal_address,
                rollup_withdrawal.rollup_withdrawal_event_id.clone(),
                rollup_withdrawal.rollup_block_number,
            );
        }
        state.put_account_balance(self.withdrawal_address, asset, balance - self.amount);
        if escrow {
            state.put_ibc_channel_balance(channel.clone(), asset, escrowed + self.amount);
        }
        Ok(())
    }
}

} // verus!
