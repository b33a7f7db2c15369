//! Choice of the REST endpoint that serves a contract address.

use crate::text::starts_with;
use vstd::prelude::*;

verus! {

/// The endpoint that serves the addresses with a known human-readable prefix,
/// or `None` for an address of no known chain. The prefixes are tried in the
/// order given here.
pub open spec fn chain_endpoint(address: Seq<char>) -> Option<Seq<char>> {
    if "ki"@.is_prefix_of(address) {
        Some("https://api-mainnet.blockchain.ki"@)
    } else if "tki"@.is_prefix_of(address) {
        Some("https://api-challenge.blockchain.ki"@)
    } else if "juno"@.is_prefix_of(address) {
        Some("https://api-juno-ia.cosmosia.notional.ventures/"@)
    } else if "osmo"@.is_prefix_of(address) {
        Some("https://lcd.osmosis.zone/"@)
    } else if "chihuahua"@.is_prefix_of(address) {
        Some("https://api.chihuahua.wtf/"@)
    } else if "stars"@.is_prefix_of(address) {
        Some("https://rest.stargaze-apis.com/"@)
    } else {
        None
    }
}

/// An address whose prefix belongs to no known chain.
#[derive(Debug, PartialEq, Eq)]
pub struct InvalidAddress {
    pub address: String,
}

impl InvalidAddress {
    /// The text shown to the user: a fixed lead followed by the address.
    pub open spec fn message_text(self) -> Seq<char> {
        "Invalid bech32 address => "@ + self.address@
    }

    pub fn message(&self) -> (text: String)
        ensures
            text@ == self.message_text(),
    {
        let mut text = "Invalid bech32 address => ".to_owned();
        text.append(self.address.as_str());
        text
    }
}

/// Picks the endpoint for `contract_address` by its prefix.
pub fn find_chain_by_prefix(contract_address: String) -> (result: Result<String, InvalidAddress>)
    ensures
        match result {
            Ok(url) => chain_endpoint(contract_address@) == Some(url@),
            Err(e) => chain_endpoint(contract_address@).is_none() && e.address == contract_address,
        },
{
    let address = contract_address.as_str();
    if starts_with(address, "ki") {
        Ok("https://api-mainnet.blockchain.ki".to_owned())
    } else if starts_with(address, "tki") {
        Ok("https://api-challenge.blockchain.ki".to_owned())
    } else if starts_with(address, "juno") {
        Ok("https://api-juno-ia.cosmosia.notional.ventures/".to_owned())
    } else if starts_with(address, "osmo") {
        Ok("https://lcd.osmosis.zone/".to_owned())
    } else if starts_with(address, "chihuahua") {
        Ok("https://api.chihuahua.wtf/".to_owned())
    } else if starts_with(address, "stars") {
        Ok("https://rest.stargaze-apis.com/".to_owned())
    } else {
        Err(InvalidAddress { address: contract_address })
    }
}

} // verus!
