use chain_fusion::eth_call::{from_hex, to_hex};
use chain_fusion::evm_rpc::{EthSepoliaService, RpcService};
use chain_fusion::guard::TaskType;
use chain_fusion::lifecycle::InitArg;
use chain_fusion::state::{EcdsaCurve, EcdsaKeyId, InvalidStateError, State};

fn init_arg(filter_addresses: Vec<&str>, coprocessor: &str) -> InitArg {
    InitArg {
        rpc_service: RpcService::EthSepolia(EthSepoliaService::Sepolia),
        chain_id: 11155111,
        filter_addresses: filter_addresses.into_iter().map(|s| s.to_string()).collect(),
        coprocessor_evm_address: coprocessor.to_string(),
        filter_events: vec!["NewJob(uint256)".to_string()],
        ecdsa_key_id: EcdsaKeyId { name: "key_1".to_string(), curve: EcdsaCurve::Secp256K1 },
    }
}

#[test]
fn valid_configuration_builds_empty_state() {
    let state = State::try_from(init_arg(
        vec!["0x00000000000000000000000000000000000000ff", "0X0102030405060708090A0b0c0d0e0f1011121314"],
        "5FbDB2315678afecb367f032d93F642f64180aa3",
    ))
    .unwrap();
    let mut first = [0u8; 20];
    first[19] = 0xff;
    let second: [u8; 20] = [1, 2, 3, 4, 5, 6, 7, 8, 9, 10, 11, 12, 13, 14, 15, 16, 17, 18, 19, 20];
    assert_eq!(state.get_filter_addresses(), vec![first, second]);
    assert_eq!(state.coprocessor_evm_address[0], 0x5f);
    assert_eq!(state.coprocessor_evm_address[19], 0xa3);
    assert_eq!(state.chain_id, 11155111);
    assert_eq!(state.get_filter_events(), vec!["NewJob(uint256)".to_string()]);
    assert_eq!(state.key_id().name, "key_1");
    assert_eq!(state.nonce, None);
    assert_eq!(state.evm_address(), None);
    assert!(!state.has_logs_to_process());
    assert!(!state.active_tasks.contains(TaskType::ScrapeLogs));
    assert!(!state.active_tasks.contains(TaskType::ProcessLogs));
}

fn expect_invalid(arg: InitArg) {
    match State::try_from(arg) {
        Ok(_) => panic!("accepted a malformed address"),
        Err(InvalidStateError::InvalidEthereumContractAddress(msg)) => {
            assert!(msg.starts_with("ERROR: "), "{}", msg);
            assert!(msg.len() > "ERROR: ".len());
        }
    }
}

#[test]
fn malformed_filter_address_fails_initialisation() {
    expect_invalid(init_arg(vec!["0x1234"], "0x5FbDB2315678afecb367f032d93F642f64180aa3"));
    expect_invalid(init_arg(
        vec!["0x5FbDB2315678afecb367f032d93F642f64180aa3", "0xzzzzzzzzzzzzzzzzzzzzzzzzzzzzzzzzzzzzzzzz"],
        "0x5FbDB2315678afecb367f032d93F642f64180aa3",
    ));
}

#[test]
fn malformed_coprocessor_address_fails_initialisation() {
    expect_invalid(init_arg(vec![], "0x5FbDB2315678afecb367f032d93F642f64180aa"));
    expect_invalid(init_arg(vec![], ""));
}

#[test]
fn to_hex_prefixes_lowercase_digits() {
    assert_eq!(to_hex(&[]), "0x");
    assert_eq!(to_hex(&[0x00, 0x0f, 0xAB, 0xff]), "0x000fabff");
}

#[test]
fn from_hex_decodes_after_prefix() {
    assert_eq!(from_hex("0x000fABff").unwrap(), vec![0x00, 0x0f, 0xab, 0xff]);
    assert_eq!(from_hex("0x").unwrap(), Vec::<u8>::new());
    assert_eq!(from_hex("zz0a").unwrap(), vec![0x0a]);
    assert_eq!(from_hex("0x0x0a").unwrap(), vec![0x0a]);
    assert_eq!(from_hex("0x0X0B").unwrap(), vec![0x0b]);
    assert!(from_hex("0x123").is_err());
    assert!(from_hex("0xgg").is_err());
}
