//! Requests to the JSON-RPC endpoint, and what its replies mean. Nothing here touches
//! the network: a request is a value to send, a reply is the text that came back.

use vstd::prelude::*;

use crate::abi::{
    can_encode, decode_output, decoded_output, encodable, encode_input, encoded_input,
    event_signature, event_signature_hash, first_event, first_function, parse_log, parsed_log,
    wide_addresses, AbiEvent, AbiFunction, AbiValue, RawLog,
};
use crate::config::{ContractType, ContractVersion, PoaContract};
use crate::error::{agrees, agrees_on_view, Error, ErrorView};
use crate::primitives::{zero_address, Address, H256, U256};
use crate::response::common::{ballot_created_log, BallotCreatedLog};
use crate::response::v1::VotingState;
use crate::response::v2::BallotInfo;
use crate::utils::{hex_bytes, hex_string_to_bytes, hex_string_to_u64, hex_u64};

verus! {

/// The identifier that every request carries.
pub const REQUEST_ID: u64 = 1;

/// The remote procedures that the library calls.
#[derive(Clone, Copy, Debug, PartialEq, Eq, Structural)]
pub enum RpcMethod {
    CallContractFunction,
    GetLogs,
    GetLastMinedBlockNumber,
}

impl RpcMethod {
    /// The method's name on the wire.
    pub fn name(&self) -> (r: &'static str)
        ensures
            r@ == (match self {
                RpcMethod::CallContractFunction => "eth_call"@,
                RpcMethod::GetLogs => "eth_getLogs"@,
                RpcMethod::GetLastMinedBlockNumber => "eth_blockNumber"@,
            }),
    {
        match self {
            RpcMethod::CallContractFunction => "eth_call",
            RpcMethod::GetLogs => "eth_getLogs",
            RpcMethod::GetLastMinedBlockNumber => "eth_blockNumber",
        }
    }
}

/// A block, by number or by its place in the chain.
#[derive(Clone, Copy, Debug, PartialEq, Eq, Structural)]
pub enum BlockNumber {
    Latest,
    Earliest,
    Pending,
    Number(u64),
}

/// Which logs to return: those of one event, from one contract, in a range of blocks
/// that includes both ends.
#[derive(Clone, Copy, Debug, PartialEq, Eq)]
pub struct EventFilter {
    /// The event's signature hash, the first topic of each of its logs.
    pub topic: H256,
    pub address: Address,
    pub from_block: BlockNumber,
    pub to_block: BlockNumber,
}

impl EventFilter {
    /// The filter for an event's logs from the contract at `addr`, in blocks `from` to
    /// `to`.
    pub fn new(event: &AbiEvent, addr: Address, from: BlockNumber, to: BlockNumber) -> (r: Self)
        ensures
            r == (EventFilter {
                topic: event_signature_hash(event.name@, event.kinds()),
                address: addr,
                from_block: from,
                to_block: to,
            }),
    {
        let kinds = event.param_kinds();
        EventFilter {
            topic: event_signature(&event.name, &kinds),
            address: addr,
            from_block: from,
            to_block: to,
        }
    }
}

/// A read-only call of a contract's function.
#[derive(Clone, Debug, PartialEq, Eq)]
pub struct CallRequest {
    pub to: Address,
    /// The function's selector and its encoded arguments.
    pub data: Vec<u8>,
    /// The block whose state the call reads.
    pub block: BlockNumber,
}

/// What a request passes to its method.
#[derive(Clone, Debug, PartialEq, Eq)]
pub enum RpcParams {
    Empty,
    Logs(EventFilter),
    Call(CallRequest),
}

/// The version of JSON-RPC that the requests are written in.
#[derive(Clone, Copy, Debug, PartialEq, Eq, Structural)]
pub enum RpcVersion {
    /// JSON-RPC 2.0.
    V2,
}

/// One JSON-RPC request. Every request of the library is written in JSON-RPC 2.0 and
/// carries [`REQUEST_ID`] as its identifier.
#[derive(Clone, Debug, PartialEq, Eq)]
pub struct RpcRequest {
    pub jsonrpc: RpcVersion,
    pub id: u64,
    pub method: RpcMethod,
    pub params: RpcParams,
}

impl RpcRequest {
    /// Whether the request has the version and the identifier of every request.
    pub open spec fn is_framed(self) -> bool {
        self.jsonrpc == RpcVersion::V2 && self.id == REQUEST_ID
    }

    /// Whether this is the call of a contract with the given data, against the latest
    /// block.
    pub open spec fn is_call(self, to: Address, data: Seq<u8>) -> bool {
        &&& self.is_framed()
        &&& self.method == RpcMethod::CallContractFunction
        &&& self.params matches RpcParams::Call(call)
        &&& call.to == to
        &&& call.data@ == data
        &&& call.block == BlockNumber::Latest
    }

    /// Whether this asks for the logs that the filter lets through.
    pub open spec fn is_logs(self, filter: EventFilter) -> bool {
        &&& self.is_framed()
        &&& self.method == RpcMethod::GetLogs
        &&& self.params == RpcParams::Logs(filter)
    }

    /// Whether this asks for the number of the last block mined.
    pub open spec fn is_block_number(self) -> bool {
        &&& self.is_framed()
        &&& self.method == RpcMethod::GetLastMinedBlockNumber
        &&& self.params == RpcParams::Empty
    }
}

/// What the endpoint answered, as far as the envelope goes.
#[derive(Clone, Debug, PartialEq, Eq)]
pub enum RpcReply {
    /// One response that carries a result: the result, as JSON text.
    Success(String),
    /// One response that carries an error object.
    Failure { code: i64, message: String },
    /// A batch of responses, which no single request can be answered with.
    Batch,
    /// Anything else.
    Malformed,
}

/// The reply that a response body holds, as `jsonrpc_core` reads it.
pub uninterp spec fn rpc_reply(body: Seq<char>) -> RpcReply;

/// `serde_json::from_str` into a `jsonrpc_core::Response`, variant for variant; the
/// result of a success is written back to text with `serde_json::Value::to_string`, the
/// code of a failure is read with `ErrorCode::code`. A body that is no response is
/// [`RpcReply::Malformed`].
#[verifier::external_body]
fn read_reply(body: &str) -> (r: RpcReply)
    ensures
        r == rpc_reply(body@),
{
    match serde_json::from_str::<jsonrpc_core::Response>(body) {
        Err(_) => RpcReply::Malformed,
        Ok(jsonrpc_core::Response::Batch(_)) => RpcReply::Batch,
        Ok(jsonrpc_core::Response::Single(jsonrpc_core::Output::Success(success))) => {
            RpcReply::Success(success.result.to_string())
        },
        Ok(jsonrpc_core::Response::Single(jsonrpc_core::Output::Failure(failure))) => {
            RpcReply::Failure { code: failure.error.code.code(), message: failure.error.message }
        },
    }
}

/// The text that a JSON text holds, if it is one JSON string.
pub uninterp spec fn json_string_value(json: Seq<char>) -> Option<Seq<char>>;

/// `serde_json::from_str` into a `String`: the unescaped content of a JSON string,
/// nothing for any other JSON value or for text that is no JSON.
#[verifier::external_body]
fn read_json_string(json: &str) -> (r: Option<String>)
    ensures
        match r {
            Some(text) => json_string_value(json@) == Some(text@),
            None => json_string_value(json@) is None,
        },
{
    serde_json::from_str::<String>(json).ok()
}

/// The logs that a JSON text holds, if it is an array of logs as `web3` reads them.
pub uninterp spec fn json_log_list(json: Seq<char>) -> Option<Seq<RawLog>>;

/// `serde_json::from_str` into a `Vec<web3::types::Log>`; of each log the topics, the
/// data and the block number are kept. Nothing for text that is no such array.
#[verifier::external_body]
fn read_json_logs(json: &str) -> (r: Option<Vec<RawLog>>)
    ensures
        match r {
            Some(logs) => json_log_list(json@) == Some(logs@),
            None => json_log_list(json@) is None,
        },
{
    let logs = serde_json::from_str::<Vec<web3::types::Log>>(json).ok()?;
    Some(logs.into_iter().map(|log| RawLog {
        topics: log.topics.into_iter().map(|topic| H256 { bytes: topic.0 }).collect(),
        data: log.data.0,
        block_number: log.block_number.map(|number| number.0[0]),
    }).collect())
}

/// The result that a reply carries. An error object is
/// [`Error::JsonRpcResponseFailure`] with its code and message; a batch and a body that
/// is no response are [`Error::MalformedResponse`].
pub open spec fn reply_result(reply: RpcReply) -> Result<Seq<char>, ErrorView> {
    match reply {
        RpcReply::Success(json) => Ok(json@),
        RpcReply::Failure { code, message } => Err(
            ErrorView::JsonRpcResponseFailure { code, message: message@ },
        ),
        RpcReply::Batch => Err(ErrorView::MalformedResponse),
        RpcReply::Malformed => Err(ErrorView::MalformedResponse),
    }
}

impl RpcReply {
    /// The result that the reply carries, as JSON text, or the error that it stands for.
    pub fn into_result(self) -> (r: Result<String, Error>)
        ensures
            agrees_on_view(r, reply_result(self)),
    {
        match self {
            RpcReply::Success(json) => Ok(json),
            RpcReply::Failure { code, message } => Err(
                Error::JsonRpcResponseFailure { code, message },
            ),
            RpcReply::Batch => Err(Error::MalformedResponse),
            RpcReply::Malformed => Err(Error::MalformedResponse),
        }
    }
}

/// The text that a response body carries as its result. A result that is no JSON string
/// is [`Error::MalformedResponse`].
pub open spec fn reply_text(body: Seq<char>) -> Result<Seq<char>, ErrorView> {
    match reply_result(rpc_reply(body)) {
        Err(e) => Err(e),
        Ok(json) => match json_string_value(json) {
            Some(text) => Ok(text),
            None => Err(ErrorView::MalformedResponse),
        },
    }
}

/// Reads the text that a response body carries as its result.
pub fn read_reply_text(body: &str) -> (r: Result<String, Error>)
    ensures
        agrees_on_view(r, reply_text(body@)),
{
    let json = match read_reply(body).into_result() {
        Ok(json) => json,
        Err(e) => {
            return Err(e);
        },
    };
    match read_json_string(json.as_str()) {
        Some(text) => Ok(text),
        None => Err(Error::MalformedResponse),
    }
}

/// The request for the number of the last block mined.
pub fn last_mined_block_number_request() -> (r: RpcRequest)
    ensures
        r.is_block_number(),
{
    RpcRequest {
        jsonrpc: RpcVersion::V2,
        id: REQUEST_ID,
        method: RpcMethod::GetLastMinedBlockNumber,
        params: RpcParams::Empty,
    }
}

/// The block number that a response body carries: its result is a JSON string that
/// writes the number in hexadecimal.
pub open spec fn last_mined_block_number(body: Seq<char>) -> Result<u64, ErrorView> {
    match reply_text(body) {
        Err(e) => Err(e),
        Ok(text) => hex_u64(text),
    }
}

/// Reads the reply to [`last_mined_block_number_request`].
pub fn get_last_mined_block_number(body: &str) -> (r: Result<u64, Error>)
    ensures
        agrees(r, last_mined_block_number(body@)),
{
    match read_reply_text(body) {
        Ok(text) => hex_string_to_u64(text.as_str()),
        Err(e) => Err(e),
    }
}

/// The name of the event that announces a ballot.
pub open spec fn ballot_created() -> Seq<char> {
    "BallotCreated"@
}

/// The filter for a contract's `BallotCreated` logs in a range of blocks. An interface
/// without that event is [`Error::InvalidAbi`].
pub open spec fn ballot_created_filter(
    contract: PoaContract,
    start: BlockNumber,
    stop: BlockNumber,
) -> Result<EventFilter, ErrorView> {
    match first_event(contract.abi.events@, ballot_created()) {
        None => Err(ErrorView::InvalidAbi(ballot_created())),
        Some(event) => Ok(
            EventFilter {
                topic: event_signature_hash(event.name@, event.kinds()),
                address: contract.addr,
                from_block: start,
                to_block: stop,
            },
        ),
    }
}

/// The request for a contract's `BallotCreated` logs in blocks `start` to `stop`.
pub fn ballot_created_logs_request(
    contract: &PoaContract,
    start: BlockNumber,
    stop: BlockNumber,
) -> (r: Result<RpcRequest, Error>)
    ensures
        match ballot_created_filter(*contract, start, stop) {
            Ok(filter) => r matches Ok(request) && request.is_logs(filter),
            Err(e) => r matches Err(actual) && actual@ == e,
        },
{
    let event = match contract.event("BallotCreated") {
        Ok(event) => event,
        Err(e) => {
            return Err(e);
        },
    };
    let filter = EventFilter::new(event, contract.addr, start, stop);
    Ok(
        RpcRequest {
            jsonrpc: RpcVersion::V2,
            id: REQUEST_ID,
            method: RpcMethod::GetLogs,
            params: RpcParams::Logs(filter),
        },
    )
}

/// The ballot that one raw log announces. A log that is no instance of the event is
/// [`Error::FailedToParseRawLogToLog`]; one without a block number, as logs of pending
/// blocks are, is [`Error::FailedToParseBallotCreatedLog`]. Nothing is decoded on a
/// machine whose addresses are not 64 bits wide: [`Error::UnsupportedTarget`].
pub open spec fn log_ballot(event: AbiEvent, log: RawLog) -> Result<BallotCreatedLog, ErrorView> {
    if usize::BITS != 64 {
        Err(ErrorView::UnsupportedTarget)
    } else {
        match parsed_log(event, log.topics@, log.data@) {
            Err(text) => Err(ErrorView::FailedToParseRawLogToLog(text)),
            Ok(params) => match log.block_number {
                None => Err(ErrorView::FailedToParseBallotCreatedLog("missing block number"@)),
                Some(block_number) => ballot_created_log(params, block_number),
            },
        }
    }
}

/// The ballots that raw logs announce, in the order of the logs. The first log that
/// cannot be read decides the error.
pub open spec fn log_ballots(event: AbiEvent, logs: Seq<RawLog>) -> Result<
    Seq<BallotCreatedLog>,
    ErrorView,
>
    decreases logs.len(),
{
    if logs.len() == 0 {
        Ok(Seq::empty())
    } else {
        match log_ballots(event, logs.drop_last()) {
            Err(e) => Err(e),
            Ok(ballots) => match log_ballot(event, logs.last()) {
                Ok(ballot) => Ok(ballots.push(ballot)),
                Err(e) => Err(e),
            },
        }
    }
}

/// An error among the first logs is the error of them all.
proof fn lemma_log_ballots_prefix_error(event: AbiEvent, logs: Seq<RawLog>, k: int)
    requires
        0 <= k <= logs.len(),
    ensures
        log_ballots(event, logs.take(k)) matches Err(e) ==> log_ballots(event, logs) == Err::<
            Seq<BallotCreatedLog>,
            ErrorView,
        >(e),
    decreases logs.len() - k,
{
    if k == logs.len() {
        assert(logs.take(k) =~= logs);
    } else {
        lemma_log_ballots_prefix_error(event, logs.drop_last(), k);
        assert(logs.drop_last().take(k) =~= logs.take(k));
    }
}

/// Reads the ballot that one raw log announces.
pub fn read_log_ballot(event: &AbiEvent, log: &RawLog) -> (r: Result<BallotCreatedLog, Error>)
    ensures
        agrees(r, log_ballot(*event, *log)),
{
    if !wide_addresses() {
        return Err(Error::UnsupportedTarget);
    }
    let params = match parse_log(event, log) {
        Ok(params) => params,
        Err(text) => {
            return Err(Error::FailedToParseRawLogToLog(text));
        },
    };
    match log.block_number {
        None => Err(Error::FailedToParseBallotCreatedLog("missing block number".to_owned())),
        Some(block_number) => BallotCreatedLog::from_ethabi_log(&params, block_number),
    }
}

/// Reads the ballots that raw logs announce.
pub fn read_log_ballots(event: &AbiEvent, logs: &Vec<RawLog>) -> (r: Result<
    Vec<BallotCreatedLog>,
    Error,
>)
    ensures
        agrees_on_view(r, log_ballots(*event, logs@)),
{
    let mut ballots: Vec<BallotCreatedLog> = Vec::new();
    let mut i: usize = 0;
    assert(logs@.take(0) =~= Seq::<RawLog>::empty());
    while i < logs.len()
        invariant
            i <= logs.len(),
            log_ballots(*event, logs@.take(i as int)) == Ok::<Seq<BallotCreatedLog>, ErrorView>(
                ballots@,
            ),
        decreases logs.len() - i,
    {
        let ghost next = logs@.take(i + 1);
        assert(next.drop_last() =~= logs@.take(i as int));
        assert(next.last() == logs@[i as int]);
        proof {
            lemma_log_ballots_prefix_error(*event, logs@, i + 1);
        }
        match read_log_ballot(event, &logs[i]) {
            Ok(ballot) => {
                ballots.push(ballot);
            },
            Err(e) => {
                return Err(e);
            },
        }
        i = i + 1;
    }
    assert(logs@.take(i as int) =~= logs@);
    Ok(ballots)
}

/// The ballots that the reply to a request for a contract's `BallotCreated` logs
/// announces. A result that is no array of logs is [`Error::MalformedResponse`].
pub open spec fn ballot_created_logs(contract: PoaContract, body: Seq<char>) -> Result<
    Seq<BallotCreatedLog>,
    ErrorView,
> {
    match first_event(contract.abi.events@, ballot_created()) {
        None => Err(ErrorView::InvalidAbi(ballot_created())),
        Some(event) => match reply_result(rpc_reply(body)) {
            Err(e) => Err(e),
            Ok(json) => match json_log_list(json) {
                None => Err(ErrorView::MalformedResponse),
                Some(logs) => log_ballots(event, logs),
            },
        },
    }
}

/// Reads the reply to [`ballot_created_logs_request`] for the same contract.
pub fn get_ballot_created_logs(contract: &PoaContract, body: &str) -> (r: Result<
    Vec<BallotCreatedLog>,
    Error,
>)
    ensures
        agrees_on_view(r, ballot_created_logs(*contract, body@)),
{
    let event = match contract.event("BallotCreated") {
        Ok(event) => event,
        Err(e) => {
            return Err(e);
        },
    };
    let json = match read_reply(body).into_result() {
        Ok(json) => json,
        Err(e) => {
            return Err(e);
        },
    };
    match read_json_logs(json.as_str()) {
        Some(logs) => read_log_ballots(event, &logs),
        None => Err(Error::MalformedResponse),
    }
}

/// The data of a call of `function` with the given arguments. Arguments beyond what the
/// library hands to the encoder are [`Error::UnsupportedArguments`]; arguments that do
/// not fit the function are [`Error::FailedToEncodeInput`].
pub open spec fn call_data(function: AbiFunction, arguments: Seq<AbiValue>) -> Result<
    Seq<u8>,
    ErrorView,
> {
    if !encodable(arguments) {
        Err(ErrorView::UnsupportedArguments)
    } else {
        match encoded_input(function.name@, function.inputs@, arguments) {
            Ok(bytes) => Ok(bytes),
            Err(text) => Err(ErrorView::FailedToEncodeInput(text)),
        }
    }
}

/// Builds the call of `function` on the contract at `to`, with arguments that are known
/// to be within the encoder's limits.
fn encoded_call(to: Address, function: &AbiFunction, arguments: &Vec<AbiValue>) -> (r: Result<
    RpcRequest,
    Error,
>)
    requires
        encodable(arguments@),
    ensures
        match call_data(*function, arguments@) {
            Ok(data) => r matches Ok(request) && request.is_call(to, data),
            Err(e) => r matches Err(actual) && actual@ == e,
        },
{
    match encode_input(function, arguments) {
        Ok(data) => Ok(
            RpcRequest {
                jsonrpc: RpcVersion::V2,
                id: REQUEST_ID,
                method: RpcMethod::CallContractFunction,
                params: RpcParams::Call(CallRequest { to, data, block: BlockNumber::Latest }),
            },
        ),
        Err(text) => Err(Error::FailedToEncodeInput(text)),
    }
}

/// Builds the call of `function` on the contract at `to`, against the latest block.
pub fn call_request(to: Address, function: &AbiFunction, arguments: &Vec<AbiValue>) -> (r: Result<
    RpcRequest,
    Error,
>)
    ensures
        match call_data(*function, arguments@) {
            Ok(data) => r matches Ok(request) && request.is_call(to, data),
            Err(e) => r matches Err(actual) && actual@ == e,
        },
{
    if !can_encode(arguments) {
        return Err(Error::UnsupportedArguments);
    }
    encoded_call(to, function, arguments)
}

/// The values that the reply to a call of `function` carries: its result is a JSON
/// string that writes, in hexadecimal, the encoding of the function's outputs. Nothing
/// is decoded on a machine whose addresses are not 64 bits wide:
/// [`Error::UnsupportedTarget`].
pub open spec fn call_output(function: AbiFunction, body: Seq<char>) -> Result<
    Seq<AbiValue>,
    ErrorView,
> {
    match reply_text(body) {
        Err(e) => Err(e),
        Ok(text) => match hex_bytes(text) {
            Err(e) => Err(e),
            Ok(bytes) => if usize::BITS != 64 {
                Err(ErrorView::UnsupportedTarget)
            } else {
                match decoded_output(function.outputs@, bytes) {
                    Ok(values) => Ok(values),
                    Err(text) => Err(ErrorView::FailedToDecodeOutput(text)),
                }
            },
        },
    }
}

/// Reads the values that the reply to a call of `function` carries.
pub fn read_call_output(function: &AbiFunction, body: &str) -> (r: Result<Vec<AbiValue>, Error>)
    ensures
        agrees_on_view(r, call_output(*function, body@)),
{
    let text = match read_reply_text(body) {
        Ok(text) => text,
        Err(e) => {
            return Err(e);
        },
    };
    let bytes = match hex_string_to_bytes(text.as_str()) {
        Ok(bytes) => bytes,
        Err(e) => {
            return Err(e);
        },
    };
    if !wide_addresses() {
        return Err(Error::UnsupportedTarget);
    }
    match decode_output(&function.outputs, &bytes) {
        Ok(values) => Ok(values),
        Err(text) => Err(Error::FailedToDecodeOutput(text)),
    }
}

/// The name of the function that returns a ballot's state in the first generation.
pub open spec fn voting_state_function() -> Seq<char> {
    "votingState"@
}

/// The data of the call that asks a first-generation contract for a ballot's state. The
/// emission-funds contract has no first generation:
/// [`Error::EmissionFundsV1ContractDoesNotExist`], whatever else the contract holds.
pub open spec fn voting_state_call(contract: PoaContract, ballot_id: U256) -> Result<
    Seq<u8>,
    ErrorView,
> {
    if contract.kind == ContractType::Emission {
        Err(ErrorView::EmissionFundsV1ContractDoesNotExist)
    } else {
        match first_function(contract.abi.functions@, voting_state_function()) {
            None => Err(ErrorView::InvalidAbi(voting_state_function())),
            Some(function) => call_data(function, seq![AbiValue::Uint(ballot_id)]),
        }
    }
}

/// The request for a ballot's state on a first-generation contract.
pub fn voting_state_request(contract: &PoaContract, ballot_id: U256) -> (r: Result<
    RpcRequest,
    Error,
>)
    ensures
        match voting_state_call(*contract, ballot_id) {
            Ok(data) => r matches Ok(request) && request.is_call(contract.addr, data),
            Err(e) => r matches Err(actual) && actual@ == e,
        },
{
    if contract.kind.is_emission() {
        return Err(Error::EmissionFundsV1ContractDoesNotExist);
    }
    let function = match contract.function("votingState") {
        Ok(function) => function,
        Err(e) => {
            return Err(e);
        },
    };
    let arguments = vec![AbiValue::Uint(ballot_id)];
    assert(arguments@ =~= seq![AbiValue::Uint(ballot_id)]);
    encoded_call(contract.addr, function, &arguments)
}

/// The state that the reply to [`voting_state_request`] carries.
pub open spec fn voting_state(contract: PoaContract, body: Seq<char>) -> Result<
    VotingState,
    ErrorView,
> {
    if contract.kind == ContractType::Emission {
        Err(ErrorView::EmissionFundsV1ContractDoesNotExist)
    } else {
        match first_function(contract.abi.functions@, voting_state_function()) {
            None => Err(ErrorView::InvalidAbi(voting_state_function())),
            Some(function) => match call_output(function, body) {
                Err(e) => Err(e),
                Ok(values) => match VotingState::of_output(contract.kind, values) {
                    Ok(state) => Ok(state),
                    Err(e) => Err(e@),
                },
            },
        }
    }
}

/// Reads the reply to [`voting_state_request`] for the same contract.
pub fn get_voting_state(contract: &PoaContract, body: &str) -> (r: Result<VotingState, Error>)
    ensures
        agrees(r, voting_state(*contract, body@)),
{
    if contract.kind.is_emission() {
        return Err(Error::EmissionFundsV1ContractDoesNotExist);
    }
    let function = match contract.function("votingState") {
        Ok(function) => function,
        Err(e) => {
            return Err(e);
        },
    };
    match read_call_output(function, body) {
        Ok(values) => VotingState::from_output(contract.kind, values),
        Err(e) => Err(e),
    }
}

/// The name of the function that returns a ballot in the second generation.
pub open spec fn ballot_info_function() -> Seq<char> {
    "getBallotInfo"@
}

/// What `getBallotInfo` is called with: the ballot's identifier and, where the function
/// takes a second input, the zero address in place of a voter's key.
pub open spec fn ballot_info_arguments(function: AbiFunction, ballot_id: U256) -> Seq<AbiValue> {
    if function.inputs@.len() == 2 {
        seq![AbiValue::Uint(ballot_id), AbiValue::Address(zero_address())]
    } else {
        seq![AbiValue::Uint(ballot_id)]
    }
}

/// The data of the call that asks a second-generation contract for a ballot.
pub open spec fn ballot_info_call(contract: PoaContract, ballot_id: U256) -> Result<
    Seq<u8>,
    ErrorView,
> {
    match first_function(contract.abi.functions@, ballot_info_function()) {
        None => Err(ErrorView::InvalidAbi(ballot_info_function())),
        Some(function) => call_data(function, ballot_info_arguments(function, ballot_id)),
    }
}

/// The request for a ballot on a second-generation contract.
pub fn ballot_info_request(contract: &PoaContract, ballot_id: U256) -> (r: Result<
    RpcRequest,
    Error,
>)
    ensures
        match ballot_info_call(*contract, ballot_id) {
            Ok(data) => r matches Ok(request) && request.is_call(contract.addr, data),
            Err(e) => r matches Err(actual) && actual@ == e,
        },
{
    let function = match contract.function("getBallotInfo") {
        Ok(function) => function,
        Err(e) => {
            return Err(e);
        },
    };
    let mut arguments = vec![AbiValue::Uint(ballot_id)];
    if function.inputs.len() == 2 {
        arguments.push(AbiValue::Address(Address::zero()));
    }
    assert(arguments@ =~= ballot_info_arguments(*function, ballot_id));
    encoded_call(contract.addr, function, &arguments)
}

/// The ballot that the reply to [`ballot_info_request`] carries.
pub open spec fn ballot_info(contract: PoaContract, body: Seq<char>) -> Result<
    BallotInfo,
    ErrorView,
> {
    match first_function(contract.abi.functions@, ballot_info_function()) {
        None => Err(ErrorView::InvalidAbi(ballot_info_function())),
        Some(function) => match call_output(function, body) {
            Err(e) => Err(e),
            Ok(values) => match BallotInfo::of_output(contract.kind, values) {
                Ok(info) => Ok(info),
                Err(e) => Err(e@),
            },
        },
    }
}

/// Reads the reply to [`ballot_info_request`] for the same contract.
pub fn get_ballot_info(contract: &PoaContract, body: &str) -> (r: Result<BallotInfo, Error>)
    ensures
        agrees(r, ballot_info(*contract, body@)),
{
    let function = match contract.function("getBallotInfo") {
        Ok(function) => function,
        Err(e) => {
            return Err(e);
        },
    };
    match read_call_output(function, body) {
        Ok(values) => BallotInfo::from_output(contract.kind, values),
        Err(e) => Err(e),
    }
}

/// No emission-funds contract of the first generation is ever asked: no descriptor of
/// one can be made, and for a contract of that kind, whatever its address and its
/// interface, asking for a voting state fails before there is a request to send, and so
/// does reading a reply.
pub proof fn lemma_emission_v1_is_rejected(contract: PoaContract, ballot_id: U256, body: Seq<char>)
    requires
        contract.kind == ContractType::Emission,
    ensures
        !PoaContract::exists_in(ContractType::Emission, ContractVersion::V1),
        voting_state_call(contract, ballot_id) == Err::<Seq<u8>, ErrorView>(
            ErrorView::EmissionFundsV1ContractDoesNotExist,
        ),
        voting_state(contract, body) == Err::<VotingState, ErrorView>(
            ErrorView::EmissionFundsV1ContractDoesNotExist,
        ),
{
}

} // verus!
