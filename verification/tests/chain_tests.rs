use tradecore::chain::{Blockchain, Chain};
use tradecore::text::dec_string;

#[test]
fn dec_string_renders_exact_digits() {
    assert_eq!(dec_string(0), "0");
    assert_eq!(dec_string(7), "7");
    assert_eq!(dec_string(42161), "42161");
    assert_eq!(dec_string(1313161554), "1313161554");
    assert_eq!(dec_string(u32::MAX), "4294967295");
}

#[test]
fn blockchain_names_are_canonical() {
    assert_eq!(Blockchain::Ethereum.as_str(), "Ethereum");
    assert_eq!(Blockchain::ArbitrumNova.as_str(), "ArbitrumNova");
    assert_eq!(Blockchain::ZKsync.as_str(), "ZKsync");
    assert_eq!(Blockchain::HarmonyShard0.as_str(), "HarmonyShard0");
}

#[test]
fn chain_constructor_builds_hypersync_url() {
    let chain = Chain::new(Blockchain::Polygon, 137);
    assert_eq!(chain.name, Blockchain::Polygon);
    assert_eq!(chain.chain_id, 137);
    assert_eq!(chain.hypersync_url, "https://137.hypersync.xyz");
    assert!(chain.rpc_url.is_none());
    assert_eq!(chain.native_currency_decimals, 18);
}

#[test]
fn ethereum_chain_fields() {
    let eth_chain = Chain::new(Blockchain::Ethereum, 1);
    assert_eq!(eth_chain.name, Blockchain::Ethereum);
    assert_eq!(eth_chain.chain_id, 1);
    assert_eq!(eth_chain.hypersync_url.as_str(), "https://1.hypersync.xyz");
}

#[test]
fn arbitrum_chain_fields() {
    let arbitrum_chain = Chain::new(Blockchain::Arbitrum, 42161);
    assert_eq!(arbitrum_chain.name, Blockchain::Arbitrum);
    assert_eq!(arbitrum_chain.chain_id, 42161);
    assert_eq!(arbitrum_chain.hypersync_url.as_str(), "https://42161.hypersync.xyz");
}

#[test]
fn chain_set_rpc_url() {
    let mut chain = Chain::new(Blockchain::Ethereum, 1);
    assert!(chain.rpc_url.is_none());

    let rpc_url = "https://mainnet.infura.io/v3/YOUR-PROJECT-ID".to_string();
    chain.set_rpc_url(rpc_url.clone());

    assert_eq!(chain.rpc_url, Some(rpc_url));
}

#[test]
fn chain_from_chain_id_valid() {
    assert!(Chain::from_chain_id(1).is_some());
    assert!(Chain::from_chain_id(137).is_some());
    assert!(Chain::from_chain_id(42161).is_some());
    assert!(Chain::from_chain_id(8453).is_some());

    let eth_chain = Chain::from_chain_id(1).unwrap();
    assert_eq!(eth_chain.name, Blockchain::Ethereum);
    assert_eq!(eth_chain.chain_id, 1);
    assert_eq!(eth_chain.hypersync_url, "https://1.hypersync.xyz");
}

#[test]
fn chain_from_chain_id_matches_requested_id() {
    let traces = Chain::from_chain_id(10300).unwrap();
    assert_eq!(traces.name, Blockchain::GnosisTraces);
    assert_eq!(traces.chain_id, 10300);

    let holesky_token = Chain::from_chain_id(17001).unwrap();
    assert_eq!(holesky_token.name, Blockchain::HoleskyTokenTest);
    assert_eq!(holesky_token.chain_id, 17001);
}

#[test]
fn chain_from_chain_id_invalid() {
    assert!(Chain::from_chain_id(999999).is_none());
    assert!(Chain::from_chain_id(0).is_none());
}
