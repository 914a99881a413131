use poagov::abi::{
    AbiEvent, AbiFunction, AbiValue, ContractAbi, EventInput, LogParam, ParamKind, RawLog,
};
use poagov::client::{
    ballot_created_logs_request, ballot_info_request, get_ballot_created_logs, get_ballot_info,
    get_last_mined_block_number, get_voting_state, last_mined_block_number_request,
    read_reply_text, voting_state_request, BlockNumber, EventFilter, RpcMethod, RpcParams,
    RpcRequest, RpcVersion,
};
use poagov::config::{ContractType, ContractVersion, PoaContract};
use poagov::error::Error;
use poagov::primitives::{Address, H256, U256};
use poagov::response::common::{
    read_field, read_fields, BallotCreatedLog, BallotType, Field, FieldKind, KeyType,
};
use poagov::utils::MAX_UTC_SECS;
use poagov::response::narrow::VotingData;
use poagov::response::v1::{
    KeysVotingState, ProxyVotingState, QuorumState, ThresholdVotingState, VotingState,
};
use poagov::response::v2::{
    BallotInfo, EmissionBallotInfo, KeysBallotInfo, ProxyBallotInfo, ThresholdBallotInfo,
};
use poagov::utils::UtcTime;

const CREATOR: &str = "82e4e61e7f5139ff0a4157a5bc687ef42294c248";
const RECEIVER: &str = "9a1f6adb5bd804b5d8bd21dd7aeb44edecbaa313";

fn address(text: &str) -> Address {
    let bytes = hex::decode(text).unwrap();
    let mut out = [0u8; 20];
    out.copy_from_slice(&bytes);
    Address { bytes: out }
}

fn uint(n: u64) -> U256 {
    U256 { limbs: [n, 0, 0, 0] }
}

fn dec(text: &str) -> U256 {
    U256 { limbs: ethabi::ethereum_types::U256::from_dec_str(text).unwrap().0 }
}

fn raw(value: &AbiValue) -> ethabi::Token {
    match value {
        AbiValue::Address(a) => ethabi::Token::Address(ethabi::Address::from(a.bytes)),
        AbiValue::FixedBytes(b) => ethabi::Token::FixedBytes(b.clone()),
        AbiValue::Bytes(b) => ethabi::Token::Bytes(b.clone()),
        AbiValue::Uint(u) => ethabi::Token::Uint(ethabi::ethereum_types::U256(u.limbs)),
        AbiValue::Int(u) => ethabi::Token::Int(ethabi::ethereum_types::U256(u.limbs)),
        AbiValue::Bool(b) => ethabi::Token::Bool(*b),
        AbiValue::String(s) => ethabi::Token::String(s.clone()),
        AbiValue::FixedArray(items) => ethabi::Token::FixedArray(items.iter().map(raw).collect()),
        AbiValue::Array(items) => ethabi::Token::Array(items.iter().map(raw).collect()),
        AbiValue::Tuple(items) => ethabi::Token::Tuple(items.iter().map(raw).collect()),
    }
}

fn reply_with(values: &[AbiValue]) -> String {
    let tokens: Vec<ethabi::Token> = values.iter().map(raw).collect();
    format!(
        "{{\"jsonrpc\":\"2.0\",\"result\":\"0x{}\",\"id\":1}}",
        hex::encode(ethabi::encode(&tokens))
    )
}

fn kinds_of(values: &[AbiValue]) -> Vec<ParamKind> {
    values
        .iter()
        .map(|value| match value {
            AbiValue::Address(_) => ParamKind::Address,
            AbiValue::Uint(_) => ParamKind::Uint(256),
            AbiValue::Int(_) => ParamKind::Int(256),
            AbiValue::Bool(_) => ParamKind::Bool,
            AbiValue::String(_) => ParamKind::String,
            _ => panic!("no kind"),
        })
        .collect()
}

fn ballot_created_event() -> AbiEvent {
    AbiEvent {
        name: "BallotCreated".to_string(),
        inputs: vec![
            EventInput { name: "id".to_string(), kind: ParamKind::Uint(256), indexed: true },
            EventInput { name: "ballotType".to_string(), kind: ParamKind::Uint(256), indexed: true },
            EventInput { name: "creator".to_string(), kind: ParamKind::Address, indexed: true },
        ],
        anonymous: false,
    }
}

fn contract(kind: ContractType, version: ContractVersion, outputs: Vec<ParamKind>) -> PoaContract {
    let (name, inputs) = match version {
        ContractVersion::V1 => ("votingState", vec![ParamKind::Uint(256)]),
        ContractVersion::V2 => match kind {
            ContractType::Keys | ContractType::Emission => {
                ("getBallotInfo", vec![ParamKind::Uint(256)])
            }
            _ => ("getBallotInfo", vec![ParamKind::Uint(256), ParamKind::Address]),
        },
    };
    PoaContract {
        kind,
        version,
        addr: address("1111111111111111111111111111111111111111"),
        abi: ContractAbi {
            functions: vec![AbiFunction { name: name.to_string(), inputs, outputs }],
            events: vec![ballot_created_event()],
        },
    }
}

fn threshold_v1_values() -> Vec<AbiValue> {
    vec![
        AbiValue::Uint(uint(1539007740)),
        AbiValue::Uint(uint(1539180540)),
        AbiValue::Uint(uint(3)),
        AbiValue::Int(uint(1)),
        AbiValue::Bool(true),
        AbiValue::Uint(uint(2)),
        AbiValue::Uint(uint(0)),
        AbiValue::Uint(uint(3)),
        AbiValue::Uint(uint(4)),
        AbiValue::Address(address(CREATOR)),
        AbiValue::String("raise the threshold".to_string()),
    ]
}

fn keys_v1_values() -> Vec<AbiValue> {
    vec![
        AbiValue::Uint(uint(1539007740)),
        AbiValue::Uint(uint(1539180540)),
        AbiValue::Address(address(RECEIVER)),
        AbiValue::Uint(uint(2)),
        AbiValue::Address(address("2222222222222222222222222222222222222222")),
        AbiValue::Uint(uint(5)),
        AbiValue::Int(U256 { limbs: [u64::MAX - 1, u64::MAX, u64::MAX, u64::MAX] }),
        AbiValue::Bool(false),
        AbiValue::Uint(uint(1)),
        AbiValue::Uint(uint(3)),
        AbiValue::Uint(uint(9)),
        AbiValue::Uint(uint(4)),
        AbiValue::Address(address(CREATOR)),
        AbiValue::String("swap a key".to_string()),
    ]
}

fn proxy_v1_values() -> Vec<AbiValue> {
    vec![
        AbiValue::Uint(uint(10)),
        AbiValue::Uint(uint(20)),
        AbiValue::Uint(uint(7)),
        AbiValue::Int(uint(7)),
        AbiValue::Bool(true),
        AbiValue::Uint(uint(3)),
        AbiValue::Uint(uint(2)),
        AbiValue::Uint(uint(6)),
        AbiValue::Address(address(RECEIVER)),
        AbiValue::Uint(uint(1)),
        AbiValue::Address(address(CREATOR)),
        AbiValue::String(String::new()),
    ]
}

fn emission_v2_values() -> Vec<AbiValue> {
    vec![
        AbiValue::Uint(uint(1539000000)),
        AbiValue::Uint(uint(1539007740)),
        AbiValue::Uint(uint(1539180540)),
        AbiValue::Bool(false),
        AbiValue::Bool(true),
        AbiValue::Address(address(CREATOR)),
        AbiValue::String("send the funds".to_string()),
        AbiValue::Uint(dec("10441000000000000000000")),
        AbiValue::Uint(uint(1)),
        AbiValue::Uint(uint(2)),
        AbiValue::Uint(uint(3)),
        AbiValue::Address(address(RECEIVER)),
    ]
}

#[test]
fn test_get_last_mined_block_core() {
    let request = last_mined_block_number_request();
    assert_eq!(
        request,
        RpcRequest {
            jsonrpc: RpcVersion::V2,
            id: 1,
            method: RpcMethod::GetLastMinedBlockNumber,
            params: RpcParams::Empty,
        }
    );
    let res = get_last_mined_block_number("{\"jsonrpc\":\"2.0\",\"result\":\"0x5f4b64\",\"id\":1}");
    assert!(res.is_ok());
    let last_mined_block_number = res.unwrap();
    assert!(last_mined_block_number >= 6245220);
    assert_eq!(last_mined_block_number, 6245220);
}

#[test]
fn test_get_last_mined_block_sokol() {
    let res = get_last_mined_block_number("{\"jsonrpc\":\"2.0\",\"id\":1,\"result\":\"0x5D3177\"}");
    assert!(res.is_ok());
    let last_mined_block_number = res.unwrap();
    assert!(last_mined_block_number >= 6107511);
    assert_eq!(last_mined_block_number, 6107511);
}

#[test]
fn test_get_last_mined_block_xdai() {
    let res = get_last_mined_block_number("{\"result\":\"0x124D06\",\"id\":1}");
    assert!(res.is_ok());
    let last_mined_block_number = res.unwrap();
    assert!(last_mined_block_number >= 1199366);
    assert_eq!(last_mined_block_number, 1199366);
}

#[test]
fn last_mined_block_number_rejects_what_is_no_number() {
    assert_eq!(
        get_last_mined_block_number("{\"jsonrpc\":\"2.0\",\"result\":\"0xzz\",\"id\":1}"),
        Err(Error::MalformedHex("0xzz".to_string()))
    );
    assert_eq!(
        get_last_mined_block_number("{\"jsonrpc\":\"2.0\",\"result\":17,\"id\":1}"),
        Err(Error::MalformedResponse)
    );
    assert_eq!(
        get_last_mined_block_number("{\"jsonrpc\":\"2.0\",\"result\":[\"0x1\"],\"id\":1}"),
        Err(Error::MalformedResponse)
    );
}

#[test]
fn reply_envelope_is_unwrapped() {
    assert_eq!(
        read_reply_text("{\"jsonrpc\":\"2.0\",\"result\":\"a\\\"b\",\"id\":1}"),
        Ok("a\"b".to_string())
    );
    assert_eq!(
        read_reply_text(
            "{\"jsonrpc\":\"2.0\",\"error\":{\"code\":-32601,\"message\":\"Method not found\"},\"id\":1}"
        ),
        Err(Error::JsonRpcResponseFailure { code: -32601, message: "Method not found".to_string() })
    );
    assert_eq!(
        read_reply_text(
            "{\"jsonrpc\":\"2.0\",\"error\":{\"code\":-32000,\"message\":\"execution reverted\"},\"id\":1}"
        ),
        Err(Error::JsonRpcResponseFailure {
            code: -32000,
            message: "execution reverted".to_string()
        })
    );
    assert_eq!(
        read_reply_text("[{\"jsonrpc\":\"2.0\",\"result\":\"0x1\",\"id\":1}]"),
        Err(Error::MalformedResponse)
    );
    assert_eq!(read_reply_text("not json"), Err(Error::MalformedResponse));
    assert_eq!(read_reply_text("{\"jsonrpc\":\"2.0\",\"id\":1}"), Err(Error::MalformedResponse));
}

#[test]
fn rpc_method_names() {
    assert_eq!(RpcMethod::CallContractFunction.name(), "eth_call");
    assert_eq!(RpcMethod::GetLogs.name(), "eth_getLogs");
    assert_eq!(RpcMethod::GetLastMinedBlockNumber.name(), "eth_blockNumber");
    assert_eq!(poagov::client::REQUEST_ID, 1);
}

#[test]
fn test_get_voting_state_for_threshold_v1() {
    let values = threshold_v1_values();
    let contract = contract(ContractType::Threshold, ContractVersion::V1, kinds_of(&values));
    let ballot_id = uint(0);
    assert!(voting_state_request(&contract, ballot_id).is_ok());
    let res = get_voting_state(&contract, &reply_with(&values));
    assert!(res.is_ok());
    if let VotingState::Threshold(threshold_voting_state) = res.unwrap() {
        let expected_creator = address("82e4e61e7f5139ff0a4157a5bc687ef42294c248");
        let expected_proposed_value = uint(4);
        assert_eq!(threshold_voting_state.creator, expected_creator);
        assert_eq!(threshold_voting_state.proposed_value, expected_proposed_value);
    } else {
        panic!("not a threshold state");
    }
}

#[test]
fn threshold_v1_decodes_every_field() {
    let values = threshold_v1_values();
    let contract = contract(ContractType::Threshold, ContractVersion::V1, kinds_of(&values));
    assert_eq!(
        get_voting_state(&contract, &reply_with(&values)),
        Ok(VotingState::Threshold(ThresholdVotingState {
            start_time: UtcTime { secs: 1539007740 },
            end_time: UtcTime { secs: 1539180540 },
            total_voters: uint(3),
            progress: uint(1),
            is_finalized: true,
            quorum_state: QuorumState::Accepted,
            index: uint(0),
            min_threshold_of_voters: uint(3),
            proposed_value: uint(4),
            creator: address(CREATOR),
            memo: "raise the threshold".to_string(),
        }))
    );
}

#[test]
fn keys_v1_decodes_every_field() {
    let values = keys_v1_values();
    let contract = contract(ContractType::Keys, ContractVersion::V1, kinds_of(&values));
    let state = get_voting_state(&contract, &reply_with(&values)).unwrap();
    assert_eq!(state.contract_name(), "VotingToChangeKeys.sol");
    assert_eq!(
        state,
        VotingState::Keys(KeysVotingState {
            start_time: UtcTime { secs: 1539007740 },
            end_time: UtcTime { secs: 1539180540 },
            affected_key: address(RECEIVER),
            affected_key_type: KeyType::VotingKey,
            mining_key: address("2222222222222222222222222222222222222222"),
            total_voters: uint(5),
            progress: U256 { limbs: [u64::MAX - 1, u64::MAX, u64::MAX, u64::MAX] },
            is_finalized: false,
            quorum_state: QuorumState::InProgress,
            ballot_type: BallotType::SwapKey,
            index: uint(9),
            min_threshold_of_voters: uint(4),
            creator: address(CREATOR),
            memo: "swap a key".to_string(),
        })
    );
}

#[test]
fn proxy_v1_decodes_every_field() {
    let values = proxy_v1_values();
    let contract = contract(ContractType::Proxy, ContractVersion::V1, kinds_of(&values));
    let state = get_voting_state(&contract, &reply_with(&values)).unwrap();
    assert_eq!(state.contract_name(), "VotingToChangeProxyAddress.sol");
    assert_eq!(
        state,
        VotingState::Proxy(ProxyVotingState {
            start_time: UtcTime { secs: 10 },
            end_time: UtcTime { secs: 20 },
            total_voters: uint(7),
            progress: uint(7),
            is_finalized: true,
            quorum_state: QuorumState::Rejected,
            index: uint(2),
            min_threshold_of_voters: uint(6),
            proposed_value: address(RECEIVER),
            contract_type: uint(1),
            creator: address(CREATOR),
            memo: String::new(),
        })
    );
}

#[test]
fn test_get_voting_state_for_all_v1_contracts() {
    let ballot_id = uint(0);
    let all = [
        (ContractType::Keys, keys_v1_values()),
        (ContractType::Threshold, threshold_v1_values()),
        (ContractType::Proxy, proxy_v1_values()),
    ];
    for (contract_type, values) in all.iter() {
        let contract = contract(*contract_type, ContractVersion::V1, kinds_of(values));
        assert!(voting_state_request(&contract, ballot_id).is_ok());
        let res = get_voting_state(&contract, &reply_with(values));
        assert!(res.is_ok());
    }
}

#[test]
fn test_get_ballot_info_for_emission_v2() {
    let values = emission_v2_values();
    let contract = contract(ContractType::Emission, ContractVersion::V2, kinds_of(&values));
    let ballot_id = uint(0);
    assert!(ballot_info_request(&contract, ballot_id).is_ok());
    let res = get_ballot_info(&contract, &reply_with(&values));
    assert!(res.is_ok());
    if let BallotInfo::Emission(emission_ballot_info) = res.unwrap() {
        let expected_creator = address("82e4e61e7f5139ff0a4157a5bc687ef42294c248");
        let expected_receiver = address("9a1f6adb5bd804b5d8bd21dd7aeb44edecbaa313");
        let expected_amount = dec("10441000000000000000000");
        assert_eq!(emission_ballot_info.creator, expected_creator);
        assert_eq!(emission_ballot_info.receiver, expected_receiver);
        assert_eq!(emission_ballot_info.amount, expected_amount);
    } else {
        panic!("not an emission ballot");
    }
}

#[test]
fn emission_v2_decodes_every_field() {
    let values = emission_v2_values();
    let contract = contract(ContractType::Emission, ContractVersion::V2, kinds_of(&values));
    let info = get_ballot_info(&contract, &reply_with(&values)).unwrap();
    assert_eq!(info.contract_name(), "VotingToManageEmissionFunds.sol");
    assert_eq!(
        info,
        BallotInfo::Emission(EmissionBallotInfo {
            creation_time: UtcTime { secs: 1539000000 },
            start_time: UtcTime { secs: 1539007740 },
            end_time: UtcTime { secs: 1539180540 },
            is_canceled: false,
            is_finalized: true,
            creator: address(CREATOR),
            memo: "send the funds".to_string(),
            amount: dec("10441000000000000000000"),
            burn_votes: uint(1),
            freeze_votes: uint(2),
            send_votes: uint(3),
            receiver: address(RECEIVER),
        })
    );
}

fn keys_v2_values() -> Vec<AbiValue> {
    vec![
        AbiValue::Uint(uint(100)),
        AbiValue::Uint(uint(200)),
        AbiValue::Address(address(RECEIVER)),
        AbiValue::Uint(uint(1)),
        AbiValue::Address(address("3333333333333333333333333333333333333333")),
        AbiValue::Address(address("4444444444444444444444444444444444444444")),
        AbiValue::Address(address("2222222222222222222222222222222222222222")),
        AbiValue::Uint(uint(8)),
        AbiValue::Int(uint(2)),
        AbiValue::Bool(false),
        AbiValue::Uint(uint(1)),
        AbiValue::Address(address(CREATOR)),
        AbiValue::String("add a key".to_string()),
        AbiValue::Bool(true),
    ]
}

fn threshold_v2_values() -> Vec<AbiValue> {
    vec![
        AbiValue::Uint(uint(100)),
        AbiValue::Uint(uint(200)),
        AbiValue::Uint(uint(8)),
        AbiValue::Uint(uint(2)),
        AbiValue::Bool(false),
        AbiValue::Uint(uint(5)),
        AbiValue::Address(address(CREATOR)),
        AbiValue::String("threshold".to_string()),
        AbiValue::Bool(false),
        AbiValue::Bool(true),
    ]
}

fn proxy_v2_values() -> Vec<AbiValue> {
    vec![
        AbiValue::Uint(uint(100)),
        AbiValue::Uint(uint(200)),
        AbiValue::Uint(uint(8)),
        AbiValue::Uint(uint(2)),
        AbiValue::Bool(true),
        AbiValue::Address(address(RECEIVER)),
        AbiValue::Uint(uint(3)),
        AbiValue::Address(address(CREATOR)),
        AbiValue::String("proxy".to_string()),
        AbiValue::Bool(false),
        AbiValue::Bool(true),
    ]
}

#[test]
fn test_get_ballot_info_for_all_v2_contracts() {
    let ballot_id = uint(0);
    let all = [
        (ContractType::Keys, keys_v2_values()),
        (ContractType::Threshold, threshold_v2_values()),
        (ContractType::Proxy, proxy_v2_values()),
        (ContractType::Emission, emission_v2_values()),
    ];
    for (contract_type, values) in all.iter() {
        let contract = contract(*contract_type, ContractVersion::V2, kinds_of(values));
        assert!(ballot_info_request(&contract, ballot_id).is_ok());
        let res = get_ballot_info(&contract, &reply_with(values));
        assert!(res.is_ok());
    }
}

#[test]
fn test_get_ballot_info_for_v2_contracts_on_xdai_network() {
    let ballot_id = uint(0);
    let all = [
        (ContractType::Keys, keys_v2_values()),
        (ContractType::Threshold, threshold_v2_values()),
        (ContractType::Proxy, proxy_v2_values()),
        (ContractType::Emission, emission_v2_values()),
    ];
    for (contract_type, values) in all.iter() {
        let contract = contract(*contract_type, ContractVersion::V2, kinds_of(values));
        assert!(ballot_info_request(&contract, ballot_id).is_ok());
        let res = get_ballot_info(&contract, &reply_with(values));
        assert!(res.is_ok());
    }
}

#[test]
fn v2_records_decode_every_field() {
    let values = keys_v2_values();
    let keys = contract(ContractType::Keys, ContractVersion::V2, kinds_of(&values));
    assert_eq!(
        get_ballot_info(&keys, &reply_with(&values)),
        Ok(BallotInfo::Keys(KeysBallotInfo {
            start_time: UtcTime { secs: 100 },
            end_time: UtcTime { secs: 200 },
            affected_key: address(RECEIVER),
            affected_key_type: KeyType::MiningKey,
            new_voting_key: address("3333333333333333333333333333333333333333"),
            new_payout_key: address("4444444444444444444444444444444444444444"),
            mining_key: address("2222222222222222222222222222222222222222"),
            total_voters: uint(8),
            progress: uint(2),
            is_finalized: false,
            ballot_type: BallotType::AddKey,
            creator: address(CREATOR),
            memo: "add a key".to_string(),
            can_be_finalized_now: true,
        }))
    );
    let values = threshold_v2_values();
    let threshold = contract(ContractType::Threshold, ContractVersion::V2, kinds_of(&values));
    assert_eq!(
        get_ballot_info(&threshold, &reply_with(&values)),
        Ok(BallotInfo::Threshold(ThresholdBallotInfo {
            start_time: UtcTime { secs: 100 },
            end_time: UtcTime { secs: 200 },
            total_voters: uint(8),
            progress: uint(2),
            is_finalized: false,
            proposed_value: uint(5),
            creator: address(CREATOR),
            memo: "threshold".to_string(),
            can_be_finalized_now: false,
        }))
    );
    let values = proxy_v2_values();
    let proxy = contract(ContractType::Proxy, ContractVersion::V2, kinds_of(&values));
    assert_eq!(
        get_ballot_info(&proxy, &reply_with(&values)),
        Ok(BallotInfo::Proxy(ProxyBallotInfo {
            start_time: UtcTime { secs: 100 },
            end_time: UtcTime { secs: 200 },
            total_voters: uint(8),
            progress: uint(2),
            is_finalized: true,
            proposed_value: address(RECEIVER),
            contract_type: uint(3),
            creator: address(CREATOR),
            memo: "proxy".to_string(),
            can_be_finalized_now: false,
        }))
    );
}

#[test]
fn call_input_is_what_ethabi_encodes() {
    let values = threshold_v1_values();
    let v1 = contract(ContractType::Threshold, ContractVersion::V1, kinds_of(&values));
    let request = voting_state_request(&v1, uint(7)).unwrap();
    #[allow(deprecated)]
    let function = ethabi::Function {
        name: "votingState".to_string(),
        inputs: vec![ethabi::Param {
            name: "ballotId".to_string(),
            kind: ethabi::ParamType::Uint(256),
            internal_type: None,
        }],
        outputs: vec![],
        constant: None,
        state_mutability: ethabi::StateMutability::View,
    };
    let expected = function.encode_input(&[ethabi::Token::Uint(7.into())]).unwrap();
    assert_eq!(expected.len(), 36);
    assert_eq!(expected[35], 7);
    assert_eq!(request.jsonrpc, RpcVersion::V2);
    assert_eq!(request.id, 1);
    assert_eq!(request.method, RpcMethod::CallContractFunction);
    match request.params {
        RpcParams::Call(call) => {
            assert_eq!(call.to, v1.addr);
            assert_eq!(call.data, expected);
            assert_eq!(call.block, BlockNumber::Latest);
        }
        _ => panic!("not a call"),
    }
}

#[test]
fn ballot_info_call_adds_the_zero_address_where_two_inputs_are_declared() {
    let values = threshold_v2_values();
    let two = contract(ContractType::Threshold, ContractVersion::V2, kinds_of(&values));
    let request = ballot_info_request(&two, uint(7)).unwrap();
    let selector = ethabi::short_signature(
        "getBallotInfo",
        &[ethabi::ParamType::Uint(256), ethabi::ParamType::Address],
    );
    let mut expected = selector.to_vec();
    expected.extend(ethabi::encode(&[
        ethabi::Token::Uint(7.into()),
        ethabi::Token::Address(ethabi::Address::zero()),
    ]));
    match request.params {
        RpcParams::Call(call) => {
            assert_eq!(call.data.len(), 68);
            assert_eq!(call.data, expected);
        }
        _ => panic!("not a call"),
    }
    let values = keys_v2_values();
    let one = contract(ContractType::Keys, ContractVersion::V2, kinds_of(&values));
    let request = ballot_info_request(&one, uint(7)).unwrap();
    let mut expected =
        ethabi::short_signature("getBallotInfo", &[ethabi::ParamType::Uint(256)]).to_vec();
    expected.extend(ethabi::encode(&[ethabi::Token::Uint(7.into())]));
    match request.params {
        RpcParams::Call(call) => assert_eq!(call.data, expected),
        _ => panic!("not a call"),
    }
}

#[test]
fn emission_v1_is_rejected_before_any_request() {
    let values = emission_v2_values();
    let outputs = kinds_of(&values);
    assert_eq!(
        PoaContract::new(
            ContractType::Emission,
            ContractVersion::V1,
            address(CREATOR),
            ContractAbi { functions: vec![], events: vec![] },
        ),
        Err(Error::EmissionFundsV1ContractDoesNotExist)
    );
    assert!(PoaContract::new(
        ContractType::Emission,
        ContractVersion::V2,
        address(CREATOR),
        ContractAbi { functions: vec![], events: vec![] },
    )
    .is_ok());
    let forged = contract(ContractType::Emission, ContractVersion::V1, outputs);
    assert_eq!(
        voting_state_request(&forged, uint(7)),
        Err(Error::EmissionFundsV1ContractDoesNotExist)
    );
    assert_eq!(
        get_voting_state(&forged, &reply_with(&values)),
        Err(Error::EmissionFundsV1ContractDoesNotExist)
    );
    assert_eq!(
        VotingState::from_output(ContractType::Emission, values),
        Err(Error::EmissionFundsV1ContractDoesNotExist)
    );
}

#[test]
fn missing_function_is_an_invalid_abi() {
    let values = threshold_v1_values();
    let v1 = contract(ContractType::Threshold, ContractVersion::V1, kinds_of(&values));
    assert_eq!(
        ballot_info_request(&v1, uint(1)),
        Err(Error::InvalidAbi("getBallotInfo".to_string()))
    );
    assert_eq!(
        get_ballot_info(&v1, &reply_with(&values)),
        Err(Error::InvalidAbi("getBallotInfo".to_string()))
    );
    let v2 = contract(ContractType::Threshold, ContractVersion::V2, vec![]);
    assert_eq!(
        voting_state_request(&v2, uint(1)),
        Err(Error::InvalidAbi("votingState".to_string()))
    );
    assert!(v1.function("votingState").is_ok());
    assert!(v1.event("BallotCreated").is_ok());
    assert_eq!(v1.event("Vote"), Err(Error::InvalidAbi("Vote".to_string())));
}

#[test]
fn wrong_argument_kinds_are_not_encoded() {
    let mut contract = contract(ContractType::Threshold, ContractVersion::V1, vec![]);
    contract.abi.functions[0].inputs = vec![ParamKind::Bool];
    assert_eq!(
        voting_state_request(&contract, uint(1)),
        Err(Error::FailedToEncodeInput("Invalid data".to_string()))
    );
    let function = AbiFunction {
        name: "f".to_string(),
        inputs: vec![ParamKind::Uint(256)],
        outputs: vec![],
    };
    for argument in [
        AbiValue::Bytes(vec![1, 2, 3]),
        AbiValue::FixedBytes(vec![0; 32]),
        AbiValue::Int(uint(1)),
        AbiValue::Bool(true),
        AbiValue::String("1".to_string()),
    ] {
        assert_eq!(
            poagov::client::call_request(address(CREATOR), &function, &vec![argument]),
            Err(Error::FailedToEncodeInput("Invalid data".to_string()))
        );
    }
    assert_eq!(
        poagov::client::call_request(address(CREATOR), &function, &vec![]),
        Err(Error::FailedToEncodeInput("Invalid data".to_string()))
    );
    let request =
        poagov::client::call_request(address(CREATOR), &function, &vec![AbiValue::Uint(uint(1))]);
    assert!(request.is_ok());
}

#[test]
fn arguments_beyond_the_limits_are_not_handed_to_the_encoder() {
    assert_eq!(poagov::abi::MAX_ARGUMENTS, 32);
    assert_eq!(poagov::abi::MAX_TEXT_BYTES, 16384);
    let text = AbiFunction {
        name: "f".to_string(),
        inputs: vec![ParamKind::String],
        outputs: vec![],
    };
    let at_the_limit = vec![AbiValue::String("a".repeat(16384))];
    assert!(poagov::abi::can_encode(&at_the_limit));
    let request = poagov::client::call_request(address(CREATOR), &text, &at_the_limit).unwrap();
    match request.params {
        RpcParams::Call(call) => assert_eq!(call.data.len(), 4 + 32 + 32 + 16384),
        _ => panic!("not a call"),
    }
    let too_long = vec![AbiValue::String("a".repeat(16385))];
    assert!(!poagov::abi::can_encode(&too_long));
    assert_eq!(
        poagov::client::call_request(address(CREATOR), &text, &too_long),
        Err(Error::UnsupportedArguments)
    );
    // Two bytes to a character: the bytes count, not the characters.
    let wide = vec![AbiValue::String("é".repeat(8193))];
    assert_eq!(
        poagov::client::call_request(address(CREATOR), &text, &wide),
        Err(Error::UnsupportedArguments)
    );
    assert!(poagov::abi::can_encode(&vec![AbiValue::String("é".repeat(8192))]));
    for nested in [
        AbiValue::Array(vec![]),
        AbiValue::FixedArray(vec![AbiValue::Uint(uint(1))]),
        AbiValue::Tuple(vec![AbiValue::Uint(uint(1))]),
    ] {
        assert_eq!(
            poagov::client::call_request(address(CREATOR), &text, &vec![nested]),
            Err(Error::UnsupportedArguments)
        );
    }
    let many: Vec<AbiValue> = (0..33).map(|n| AbiValue::Uint(uint(n))).collect();
    assert_eq!(
        poagov::client::call_request(address(CREATOR), &text, &many),
        Err(Error::UnsupportedArguments)
    );
    let kinds: Vec<ParamKind> = (0..32).map(|_| ParamKind::Uint(256)).collect();
    let wide_function = AbiFunction { name: "g".to_string(), inputs: kinds, outputs: vec![] };
    let arguments: Vec<AbiValue> = (0..32).map(|n| AbiValue::Uint(uint(n))).collect();
    let request =
        poagov::client::call_request(address(CREATOR), &wide_function, &arguments).unwrap();
    match request.params {
        RpcParams::Call(call) => assert_eq!(call.data.len(), 4 + 32 * 32),
        _ => panic!("not a call"),
    }
    assert!(poagov::abi::can_encode(&vec![]));
    assert!(poagov::abi::can_encode(&vec![AbiValue::Bytes(vec![0; 100000])]));
}

#[test]
fn malformed_call_replies_are_rejected() {
    let values = threshold_v1_values();
    let contract = contract(ContractType::Threshold, ContractVersion::V1, kinds_of(&values));
    assert_eq!(
        get_voting_state(&contract, "{\"jsonrpc\":\"2.0\",\"result\":\"0x123\",\"id\":1}"),
        Err(Error::MalformedHex("0x123".to_string()))
    );
    assert_eq!(
        get_voting_state(&contract, "{\"jsonrpc\":\"2.0\",\"result\":\"0x12\",\"id\":1}"),
        Err(Error::FailedToDecodeOutput("Invalid data".to_string()))
    );
    assert_eq!(
        get_voting_state(&contract, "{\"jsonrpc\":\"2.0\",\"result\":null,\"id\":1}"),
        Err(Error::MalformedResponse)
    );
    assert_eq!(
        get_voting_state(
            &contract,
            "{\"jsonrpc\":\"2.0\",\"error\":{\"code\":3,\"message\":\"no\"},\"id\":1}"
        ),
        Err(Error::JsonRpcResponseFailure { code: 3, message: "no".to_string() })
    );
}

#[test]
fn output_of_another_shape_is_malformed() {
    let mut values = threshold_v1_values();
    values.pop();
    let short = contract(ContractType::Threshold, ContractVersion::V1, kinds_of(&values));
    assert_eq!(get_voting_state(&short, &reply_with(&values)), Err(Error::MalformedOutput));
    let mut values = threshold_v1_values();
    values[8] = AbiValue::Address(address(CREATOR));
    let other = contract(ContractType::Threshold, ContractVersion::V1, kinds_of(&values));
    assert_eq!(get_voting_state(&other, &reply_with(&values)), Err(Error::MalformedOutput));
    assert_eq!(
        ThresholdVotingState::try_from(vec![AbiValue::Bytes(vec![])]),
        Err(Error::MalformedOutput)
    );
    assert_eq!(KeysVotingState::try_from(vec![]), Err(Error::MalformedOutput));
}

#[test]
fn codes_out_of_range_are_rejected() {
    let mut values = threshold_v1_values();
    values[5] = AbiValue::Uint(uint(4));
    assert_eq!(
        VotingState::from_output(ContractType::Threshold, values),
        Err(Error::UnrecognizedQuorumState)
    );
    let mut values = keys_v1_values();
    values[3] = AbiValue::Uint(uint(4));
    assert_eq!(
        VotingState::from_output(ContractType::Keys, values),
        Err(Error::UnrecognizedKeyType)
    );
    let mut values = keys_v1_values();
    values[9] = AbiValue::Uint(uint(7));
    assert_eq!(
        VotingState::from_output(ContractType::Keys, values),
        Err(Error::UnrecognizedBallotType)
    );
    let mut values = keys_v2_values();
    values[10] = AbiValue::Uint(U256 { limbs: [1, 1, 0, 0] });
    assert_eq!(
        BallotInfo::from_output(ContractType::Keys, values),
        Err(Error::UnrecognizedBallotType)
    );
    let mut values = threshold_v1_values();
    values[0] = AbiValue::Uint(uint(i64::MAX as u64));
    assert_eq!(
        VotingState::from_output(ContractType::Threshold, values),
        Err(Error::TimestampOutOfRange)
    );
    let mut values = threshold_v1_values();
    values[1] = AbiValue::Uint(uint(u64::MAX));
    assert_eq!(
        VotingState::from_output(ContractType::Threshold, values),
        Err(Error::TimestampOutOfRange)
    );
}

#[test]
fn the_first_position_that_fails_decides() {
    let mut values = keys_v1_values();
    values[3] = AbiValue::Uint(uint(9));
    values[9] = AbiValue::Uint(uint(9));
    values.truncate(12);
    assert_eq!(
        VotingState::from_output(ContractType::Keys, values),
        Err(Error::UnrecognizedKeyType)
    );
}

#[test]
fn enumerations_from_codes() {
    assert_eq!(KeyType::try_from(uint(0)), Ok(KeyType::InvalidKey));
    assert_eq!(KeyType::try_from(uint(1)), Ok(KeyType::MiningKey));
    assert_eq!(KeyType::try_from(uint(2)), Ok(KeyType::VotingKey));
    assert_eq!(KeyType::try_from(uint(3)), Ok(KeyType::PayoutKey));
    assert_eq!(KeyType::try_from(uint(4)), Err(Error::UnrecognizedKeyType));
    assert_eq!(BallotType::try_from(uint(0)), Ok(BallotType::InvalidKey));
    assert_eq!(BallotType::try_from(uint(1)), Ok(BallotType::AddKey));
    assert_eq!(BallotType::try_from(uint(2)), Ok(BallotType::RemoveKey));
    assert_eq!(BallotType::try_from(uint(3)), Ok(BallotType::SwapKey));
    assert_eq!(BallotType::try_from(uint(4)), Ok(BallotType::Threshold));
    assert_eq!(BallotType::try_from(uint(5)), Ok(BallotType::Proxy));
    assert_eq!(BallotType::try_from(uint(6)), Ok(BallotType::Emission));
    assert_eq!(BallotType::try_from(uint(7)), Err(Error::UnrecognizedBallotType));
    assert_eq!(
        BallotType::try_from(U256 { limbs: [2, 0, 0, 1] }),
        Err(Error::UnrecognizedBallotType)
    );
    assert_eq!(QuorumState::try_from(uint(0)), Ok(QuorumState::Invalid));
    assert_eq!(QuorumState::try_from(uint(1)), Ok(QuorumState::InProgress));
    assert_eq!(QuorumState::try_from(uint(2)), Ok(QuorumState::Accepted));
    assert_eq!(QuorumState::try_from(uint(3)), Ok(QuorumState::Rejected));
    assert_eq!(QuorumState::try_from(uint(4)), Err(Error::UnrecognizedQuorumState));
    assert_eq!(ContractType::from(BallotType::InvalidKey), ContractType::Keys);
    assert_eq!(ContractType::from(BallotType::AddKey), ContractType::Keys);
    assert_eq!(ContractType::from(BallotType::RemoveKey), ContractType::Keys);
    assert_eq!(ContractType::from(BallotType::SwapKey), ContractType::Keys);
    assert_eq!(ContractType::from(BallotType::Threshold), ContractType::Threshold);
    assert_eq!(ContractType::from(BallotType::Proxy), ContractType::Proxy);
    assert_eq!(ContractType::from(BallotType::Emission), ContractType::Emission);
}

#[test]
fn single_fields() {
    assert_eq!(
        read_field(FieldKind::Timestamp, &AbiValue::Uint(U256 { limbs: [60, 5, 5, 5] })),
        Ok(Field::Time(UtcTime { secs: 60 }))
    );
    assert_eq!(
        read_field(FieldKind::Timestamp, &AbiValue::Uint(uint(MAX_UTC_SECS as u64))),
        Ok(Field::Time(UtcTime { secs: 8210266876799 }))
    );
    assert_eq!(
        read_field(FieldKind::Timestamp, &AbiValue::Uint(uint(MAX_UTC_SECS as u64 + 1))),
        Err(Error::TimestampOutOfRange)
    );
    assert_eq!(
        read_field(FieldKind::Timestamp, &AbiValue::Uint(uint(u64::MAX))),
        Err(Error::TimestampOutOfRange)
    );
    assert_eq!(
        read_field(FieldKind::Uint, &AbiValue::Tuple(vec![AbiValue::Uint(uint(1))])),
        Err(Error::MalformedOutput)
    );
    assert_eq!(read_field(FieldKind::Uint, &AbiValue::Int(uint(1))), Err(Error::MalformedOutput));
    assert_eq!(read_field(FieldKind::Int, &AbiValue::Uint(uint(1))), Err(Error::MalformedOutput));
    assert_eq!(read_field(FieldKind::Int, &AbiValue::Int(uint(1))), Ok(Field::Number(uint(1))));
    assert_eq!(read_field(FieldKind::Bool, &AbiValue::Bool(true)), Ok(Field::Flag(true)));
    assert_eq!(
        read_field(FieldKind::Text, &AbiValue::String("m".to_string())),
        Ok(Field::Text("m".to_string()))
    );
    assert_eq!(
        read_fields(&vec![FieldKind::Bool, FieldKind::Uint], &vec![AbiValue::Bool(false)]),
        Err(Error::MalformedOutput)
    );
    assert_eq!(
        read_fields(
            &vec![FieldKind::Bool],
            &vec![AbiValue::Bool(false), AbiValue::Uint(uint(1))]
        ),
        Ok(vec![Field::Flag(false)])
    );
    assert_eq!(read_fields(&vec![], &vec![]), Ok(vec![]));
}

fn topic_of(n: u64) -> H256 {
    let mut bytes = [0u8; 32];
    bytes[24..].copy_from_slice(&n.to_be_bytes());
    H256 { bytes }
}

fn topic_of_address(text: &str) -> H256 {
    let mut bytes = [0u8; 32];
    bytes[12..].copy_from_slice(&hex::decode(text).unwrap());
    H256 { bytes }
}

fn signature() -> H256 {
    let hash = ethabi::long_signature(
        "BallotCreated",
        &[ethabi::ParamType::Uint(256), ethabi::ParamType::Uint(256), ethabi::ParamType::Address],
    );
    H256 { bytes: hash.0 }
}

fn log_json(id: u64, ballot_type: u64, block: Option<u64>) -> String {
    let block = match block {
        Some(n) => format!("\"0x{:x}\"", n),
        None => "null".to_string(),
    };
    format!(
        "{{\"address\":\"0x1111111111111111111111111111111111111111\",\"topics\":[\"0x{}\",\"0x{}\",\"0x{}\",\"0x{}\"],\"data\":\"0x\",\"blockHash\":null,\"blockNumber\":{},\"transactionHash\":null,\"transactionIndex\":null,\"logIndex\":null,\"transactionLogIndex\":null,\"logType\":null,\"removed\":false}}",
        hex::encode(signature().bytes),
        hex::encode(topic_of(id).bytes),
        hex::encode(topic_of(ballot_type).bytes),
        hex::encode(topic_of_address(CREATOR).bytes),
        block
    )
}

fn logs_reply(logs: &[String]) -> String {
    format!("{{\"jsonrpc\":\"2.0\",\"result\":[{}],\"id\":1}}", logs.join(","))
}

#[test]
fn test_get_ballot_created_logs_for_keys_v1_contract() {
    let contract = contract(ContractType::Keys, ContractVersion::V1, vec![]);
    assert!(
        ballot_created_logs_request(&contract, BlockNumber::Earliest, BlockNumber::Latest).is_ok()
    );
    let logs: Vec<String> = (0..69).map(|id| log_json(id, 1 + id % 3, Some(1000 + id))).collect();
    let res = get_ballot_created_logs(&contract, &logs_reply(&logs));
    assert!(res.is_ok());
    let ballot_created_logs = res.unwrap();
    assert!(ballot_created_logs.len() >= 69);
    assert_eq!(
        ballot_created_logs[68],
        BallotCreatedLog {
            block_number: 1068,
            ballot_id: uint(68),
            ballot_type: BallotType::SwapKey,
            creator: address(CREATOR),
        }
    );
}

#[test]
fn test_get_ballot_created_logs_for_keys_v2_contract() {
    let contract = contract(ContractType::Keys, ContractVersion::V2, vec![]);
    assert!(
        ballot_created_logs_request(&contract, BlockNumber::Earliest, BlockNumber::Latest).is_ok()
    );
    let logs = vec![log_json(0, 1, Some(77)), log_json(1, 2, Some(78))];
    let res = get_ballot_created_logs(&contract, &logs_reply(&logs));
    assert!(res.is_ok());
    let ballot_created_logs = res.unwrap();
    assert!(ballot_created_logs.len() >= 2);
    assert_eq!(
        ballot_created_logs,
        vec![
            BallotCreatedLog {
                block_number: 77,
                ballot_id: uint(0),
                ballot_type: BallotType::AddKey,
                creator: address(CREATOR),
            },
            BallotCreatedLog {
                block_number: 78,
                ballot_id: uint(1),
                ballot_type: BallotType::RemoveKey,
                creator: address(CREATOR),
            },
        ]
    );
}

#[test]
fn log_filter_names_the_event_the_contract_and_the_window() {
    let contract = contract(ContractType::Keys, ContractVersion::V1, vec![]);
    let request =
        ballot_created_logs_request(&contract, BlockNumber::Number(5), BlockNumber::Number(9))
            .unwrap();
    let expected = EventFilter {
        topic: signature(),
        address: contract.addr,
        from_block: BlockNumber::Number(5),
        to_block: BlockNumber::Number(9),
    };
    assert_eq!(
        request,
        RpcRequest {
            jsonrpc: RpcVersion::V2,
            id: 1,
            method: RpcMethod::GetLogs,
            params: RpcParams::Logs(expected),
        }
    );
    assert_eq!(
        EventFilter::new(
            &ballot_created_event(),
            contract.addr,
            BlockNumber::Number(5),
            BlockNumber::Number(9)
        ),
        expected
    );
    assert_ne!(signature(), H256 { bytes: [0u8; 32] });
    let mut bare = contract.clone();
    bare.abi.events.clear();
    assert_eq!(
        ballot_created_logs_request(&bare, BlockNumber::Earliest, BlockNumber::Latest),
        Err(Error::InvalidAbi("BallotCreated".to_string()))
    );
    assert_eq!(
        get_ballot_created_logs(&bare, &logs_reply(&[])),
        Err(Error::InvalidAbi("BallotCreated".to_string()))
    );
}

#[test]
fn unknown_ballot_type_in_a_log_is_rejected() {
    let contract = contract(ContractType::Keys, ContractVersion::V2, vec![]);
    let logs = vec![log_json(0, 1, Some(77)), log_json(1, 7, Some(78))];
    assert_eq!(
        get_ballot_created_logs(&contract, &logs_reply(&logs)),
        Err(Error::UnrecognizedBallotType)
    );
    let params = vec![
        LogParam { name: "id".to_string(), value: AbiValue::Uint(uint(1)) },
        LogParam { name: "ballotType".to_string(), value: AbiValue::Uint(uint(7)) },
        LogParam { name: "creator".to_string(), value: AbiValue::Address(address(CREATOR)) },
    ];
    assert_eq!(BallotCreatedLog::from_ethabi_log(&params, 3), Err(Error::UnrecognizedBallotType));
}

#[test]
fn logs_that_cannot_be_read_are_rejected() {
    let contract = contract(ContractType::Keys, ContractVersion::V2, vec![]);
    assert_eq!(get_ballot_created_logs(&contract, &logs_reply(&[])), Ok(vec![]));
    assert_eq!(
        get_ballot_created_logs(&contract, &logs_reply(&[log_json(0, 1, None)])),
        Err(Error::FailedToParseBallotCreatedLog("missing block number".to_string()))
    );
    assert_eq!(
        get_ballot_created_logs(&contract, "{\"jsonrpc\":\"2.0\",\"result\":\"0x\",\"id\":1}"),
        Err(Error::MalformedResponse)
    );
    assert_eq!(
        get_ballot_created_logs(&contract, "{\"jsonrpc\":\"2.0\",\"result\":[{}],\"id\":1}"),
        Err(Error::MalformedResponse)
    );
    let event = ballot_created_event();
    let log = RawLog {
        topics: vec![topic_of(1), topic_of(1), topic_of(1), topic_of(1)],
        data: vec![],
        block_number: Some(1),
    };
    assert_eq!(
        poagov::client::read_log_ballot(&event, &log),
        Err(Error::FailedToParseRawLogToLog("Invalid data".to_string()))
    );
    let log = RawLog { topics: vec![signature(), topic_of(1)], data: vec![], block_number: Some(1) };
    assert_eq!(
        poagov::client::read_log_ballot(&event, &log),
        Err(Error::FailedToParseRawLogToLog("Invalid data".to_string()))
    );
}

fn id_param(n: u64) -> LogParam {
    LogParam { name: "id".to_string(), value: AbiValue::Uint(uint(n)) }
}

fn ballot_type_param(n: u64) -> LogParam {
    LogParam { name: "ballotType".to_string(), value: AbiValue::Uint(uint(n)) }
}

fn creator_param() -> LogParam {
    LogParam { name: "creator".to_string(), value: AbiValue::Address(address(CREATOR)) }
}

#[test]
fn log_fields_are_found_by_name() {
    let expected = BallotCreatedLog {
        block_number: 44,
        ballot_id: uint(12),
        ballot_type: BallotType::Proxy,
        creator: address(CREATOR),
    };
    assert_eq!(
        BallotCreatedLog::from_ethabi_log(
            &vec![creator_param(), id_param(12), ballot_type_param(5)],
            44
        ),
        Ok(expected)
    );
    assert_eq!(
        BallotCreatedLog::from_ethabi_log(&vec![ballot_type_param(5), creator_param()], 44),
        Err(Error::FailedToParseBallotCreatedLog("missing `id`".to_string()))
    );
    assert_eq!(
        BallotCreatedLog::from_ethabi_log(&vec![id_param(12), creator_param()], 44),
        Err(Error::FailedToParseBallotCreatedLog("missing `ballot_type`".to_string()))
    );
    assert_eq!(
        BallotCreatedLog::from_ethabi_log(&vec![id_param(12), ballot_type_param(5)], 44),
        Err(Error::FailedToParseBallotCreatedLog("missing `creator`".to_string()))
    );
    assert_eq!(
        BallotCreatedLog::from_ethabi_log(&vec![], 44),
        Err(Error::FailedToParseBallotCreatedLog("missing `id`".to_string()))
    );
    let stranger = LogParam { name: "memo".to_string(), value: AbiValue::Bool(true) };
    assert_eq!(
        BallotCreatedLog::from_ethabi_log(
            &vec![id_param(12), stranger, ballot_type_param(5), creator_param()],
            44
        ),
        Err(Error::FailedToParseBallotCreatedLog("unknown field: memo".to_string()))
    );
    let wrong_kind = LogParam { name: "id".to_string(), value: AbiValue::Bool(true) };
    assert_eq!(
        BallotCreatedLog::from_ethabi_log(
            &vec![id_param(12), ballot_type_param(5), creator_param(), wrong_kind],
            44
        ),
        Err(Error::FailedToParseBallotCreatedLog("missing `id`".to_string()))
    );
    let bytes = LogParam { name: "creator".to_string(), value: AbiValue::FixedBytes(vec![0; 32]) };
    assert_eq!(
        BallotCreatedLog::from_ethabi_log(&vec![id_param(12), ballot_type_param(5), bytes], 44),
        Err(Error::FailedToParseBallotCreatedLog("missing `creator`".to_string()))
    );
    assert_eq!(
        BallotCreatedLog::from_ethabi_log(
            &vec![id_param(12), ballot_type_param(5), creator_param(), id_param(13)],
            44
        )
        .map(|log| log.ballot_id),
        Ok(uint(13))
    );
}

#[test]
fn an_indexed_text_comes_out_of_a_log_as_its_hash() {
    let event = AbiEvent {
        name: "Memo".to_string(),
        inputs: vec![
            EventInput { name: "text".to_string(), kind: ParamKind::String, indexed: true },
            EventInput { name: "flag".to_string(), kind: ParamKind::Bool, indexed: false },
        ],
        anonymous: true,
    };
    let mut data = vec![0u8; 32];
    data[31] = 1;
    let log = RawLog { topics: vec![topic_of(7)], data, block_number: Some(1) };
    assert_eq!(
        poagov::client::read_log_ballot(&event, &log),
        Err(Error::FailedToParseBallotCreatedLog("unknown field: text".to_string()))
    );
}

#[test]
fn narrowed_voting_data() {
    match VotingData::keys(keys_v1_values()).unwrap() {
        VotingData::Keys(data) => {
            assert_eq!(data.total_voters, 5);
            assert_eq!(data.progress, -2);
            assert_eq!(data.index, 9);
            assert_eq!(data.min_threshold_of_voters, 4);
            assert_eq!(data.creator, address(CREATOR));
            assert_eq!(data.ballot_type, BallotType::SwapKey);
        }
        _ => panic!("not keys"),
    }
    let data = VotingData::threshold(threshold_v1_values()).unwrap();
    assert_eq!(data.start_time(), UtcTime { secs: 1539007740 });
    assert_eq!(data.end_time(), UtcTime { secs: 1539180540 });
    assert_eq!(data.memo(), "raise the threshold");
    match data {
        VotingData::Threshold(data) => {
            assert_eq!(data.progress, 1);
            assert_eq!(data.proposed_value, 4);
            assert_eq!(data.min_threshold_of_voters, 3);
        }
        _ => panic!("not threshold"),
    }
    match VotingData::proxy(proxy_v1_values()).unwrap() {
        VotingData::Proxy(data) => {
            assert_eq!(data.progress, 7);
            assert_eq!(data.contract_type, 1);
            assert_eq!(data.proposed_value, address(RECEIVER));
        }
        _ => panic!("not proxy"),
    }
    let mut values = threshold_v1_values();
    values[6] = AbiValue::Uint(U256 { limbs: [0, 1, 0, 0] });
    assert_eq!(VotingData::threshold(values), Err(Error::ValueOutOfRange));
    let mut values = threshold_v1_values();
    values[3] = AbiValue::Int(uint(4));
    assert_eq!(VotingData::threshold(values), Err(Error::ValueOutOfRange));
    let mut values = threshold_v1_values();
    values.pop();
    assert_eq!(VotingData::threshold(values), Err(Error::MalformedOutput));
}
