//! Actions checked against the state, ready to execute.

pub mod fee_asset_change;
pub mod fee_change;
pub mod ibc_relayer_change;
pub mod ibc_sudo_change;
pub mod rollup_data_submission;
pub mod transfer;
pub mod validator_update;
pub mod bridge_sudo_change;
pub mod init_bridge_account;
pub mod bridge_lock;
pub mod bridge_unlock;
pub mod bridge_transfer;
pub mod markets_change;
pub mod ics20_withdrawal;
pub mod sudo_address_change;
pub mod ibc_relay;
pub mod recover_ibc_client;
pub mod checked_action;
