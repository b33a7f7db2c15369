use cw_state::{find_chain_by_prefix, InvalidAddress};

fn endpoint(address: &str) -> Result<String, InvalidAddress> {
    find_chain_by_prefix(address.to_string())
}

#[test]
fn ki_address_goes_to_mainnet() {
    assert_eq!(endpoint("ki1abc"), Ok("https://api-mainnet.blockchain.ki".to_string()));
    assert_eq!(endpoint("ki"), Ok("https://api-mainnet.blockchain.ki".to_string()));
}

#[test]
fn tki_address_goes_to_challenge() {
    assert_eq!(endpoint("tki1abc"), Ok("https://api-challenge.blockchain.ki".to_string()));
}

#[test]
fn juno_address_goes_to_juno() {
    assert_eq!(
        endpoint("juno1xyz"),
        Ok("https://api-juno-ia.cosmosia.notional.ventures/".to_string())
    );
}

#[test]
fn osmo_address_goes_to_osmosis() {
    assert_eq!(endpoint("osmo1xyz"), Ok("https://lcd.osmosis.zone/".to_string()));
}

#[test]
fn chihuahua_address_goes_to_chihuahua() {
    assert_eq!(endpoint("chihuahua1xyz"), Ok("https://api.chihuahua.wtf/".to_string()));
}

#[test]
fn stars_address_goes_to_stargaze() {
    assert_eq!(endpoint("stars1xyz"), Ok("https://rest.stargaze-apis.com/".to_string()));
}

#[test]
fn unknown_prefix_is_rejected_with_the_address() {
    assert_eq!(
        endpoint("cosmos1xyz"),
        Err(InvalidAddress { address: "cosmos1xyz".to_string() })
    );
    assert_eq!(endpoint(""), Err(InvalidAddress { address: String::new() }));
    assert_eq!(endpoint("k"), Err(InvalidAddress { address: "k".to_string() }));
}

#[test]
fn prefix_must_stand_at_the_start() {
    assert!(endpoint("xki1abc").is_err());
    assert!(endpoint("1juno").is_err());
    assert!(endpoint("Juno1xyz").is_err());
}

#[test]
fn rejection_message_names_the_address() {
    let error = endpoint("cosmos1xyz").unwrap_err();
    assert_eq!(error.message(), "Invalid bech32 address => cosmos1xyz");
}
