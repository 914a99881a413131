//! What can go wrong between a command line and a decoded ballot.

use vstd::prelude::*;

verus! {

/// Every failure that the library reports. None is retried here: the caller decides
/// whether to go on.
#[derive(Clone, Debug, PartialEq, Eq)]
pub enum Error {
    /// The emission-funds contract was never deployed in the first contract generation.
    EmissionFundsV1ContractDoesNotExist,
    /// The bytes that a call returned are not the encoding of the function's declared outputs. Holds the decoder's message.
    FailedToDecodeOutput(String),
    /// The call's arguments do not fit the function's declared inputs. Holds the encoder's message.
    FailedToEncodeInput(String),
    /// A `BallotCreated` log lacks a field, or holds one that is not expected.
    FailedToParseBallotCreatedLog(String),
    /// A raw log is not an instance of the event that the interface declares. Holds the parser's message.
    FailedToParseRawLogToLog(String),
    /// The interface description lacks the named function or event.
    InvalidAbi(String),
    /// The block time on the command line is no number of seconds.
    InvalidBlockTime(String),
    /// A configured contract address is not 20 bytes of hex.
    InvalidContractAddr(String),
    /// The notification limit on the command line is no count.
    InvalidNotificationLimit(String),
    /// The configured SMTP port is no port number.
    InvalidSmtpPort(String),
    /// The start block on the command line is no block number.
    InvalidStartBlock(String),
    /// The tail on the command line is no count of blocks.
    InvalidTail(String),
    /// The endpoint answered with a JSON-RPC error object.
    JsonRpcResponseFailure { code: i64, message: String },
    /// A text that should be hexadecimal is not. Holds the text.
    MalformedHex(String),
    /// A call's output has fewer values than the record needs, or one of another kind.
    MalformedOutput,
    /// The reply is not one JSON-RPC response, or its result has another shape than the request asks for.
    MalformedResponse,
    /// No interface description at this path.
    MissingAbiFile(String),
    /// The environment lacks this variable.
    MissingEnvVar(String),
    /// None of these flags is on the command line.
    MustSpecifyAtLeastOneCliArgument(String),
    /// Not exactly one of these flags is on the command line.
    MustSpecifyOneCliArgument(String),
    /// More than one of these flags is on the command line.
    MustSpecifyZeroOrOneCliArguments(String),
    /// The configured first block lies beyond the chain's last block.
    StartBlockExceedsLastBlockMined { start_block: u64, last_mined_block: u64 },
    /// The configured tail is longer than the chain.
    TailExceedsLastBlockMined { tail: u64, last_mined_block: u64 },
    /// A call's output holds a count of seconds for which no UTC date exists.
    TimestampOutOfRange,
    /// A call was to be encoded with more arguments, a longer text or a more nested value than the library hands to the encoder.
    UnsupportedArguments,
    /// Decoding was asked for on a machine whose addresses are not 64 bits wide.
    UnsupportedTarget,
    /// A ballot-type code above 6.
    UnrecognizedBallotType,
    /// A key-type code above 3.
    UnrecognizedKeyType,
    /// A quorum-state code above 3.
    UnrecognizedQuorumState,
    /// A tally or an index does not fit the machine integer that it is kept in.
    ValueOutOfRange,
    /// The first contract generation was never deployed to the xDai chain.
    V1ContractsWereNotDeployedToXDaiChain,
}

/// An [`Error`] with its texts as sequences of characters.
pub ghost enum ErrorView {
    EmissionFundsV1ContractDoesNotExist,
    FailedToDecodeOutput(Seq<char>),
    FailedToEncodeInput(Seq<char>),
    FailedToParseBallotCreatedLog(Seq<char>),
    FailedToParseRawLogToLog(Seq<char>),
    InvalidAbi(Seq<char>),
    InvalidBlockTime(Seq<char>),
    InvalidContractAddr(Seq<char>),
    InvalidNotificationLimit(Seq<char>),
    InvalidSmtpPort(Seq<char>),
    InvalidStartBlock(Seq<char>),
    InvalidTail(Seq<char>),
    JsonRpcResponseFailure { code: i64, message: Seq<char> },
    MalformedHex(Seq<char>),
    MalformedOutput,
    MalformedResponse,
    MissingAbiFile(Seq<char>),
    MissingEnvVar(Seq<char>),
    MustSpecifyAtLeastOneCliArgument(Seq<char>),
    MustSpecifyOneCliArgument(Seq<char>),
    MustSpecifyZeroOrOneCliArguments(Seq<char>),
    StartBlockExceedsLastBlockMined { start_block: u64, last_mined_block: u64 },
    TailExceedsLastBlockMined { tail: u64, last_mined_block: u64 },
    TimestampOutOfRange,
    UnsupportedArguments,
    UnsupportedTarget,
    UnrecognizedBallotType,
    UnrecognizedKeyType,
    UnrecognizedQuorumState,
    ValueOutOfRange,
    V1ContractsWereNotDeployedToXDaiChain,
}

impl View for Error {
    type V = ErrorView;

    open spec fn view(&self) -> ErrorView {
        match self {
            Error::EmissionFundsV1ContractDoesNotExist => ErrorView::EmissionFundsV1ContractDoesNotExist,
            Error::FailedToDecodeOutput(text) => ErrorView::FailedToDecodeOutput(text@),
            Error::FailedToEncodeInput(text) => ErrorView::FailedToEncodeInput(text@),
            Error::FailedToParseBallotCreatedLog(text) => ErrorView::FailedToParseBallotCreatedLog(text@),
            Error::FailedToParseRawLogToLog(text) => ErrorView::FailedToParseRawLogToLog(text@),
            Error::InvalidAbi(text) => ErrorView::InvalidAbi(text@),
            Error::InvalidBlockTime(text) => ErrorView::InvalidBlockTime(text@),
            Error::InvalidContractAddr(text) => ErrorView::InvalidContractAddr(text@),
            Error::InvalidNotificationLimit(text) => ErrorView::InvalidNotificationLimit(text@),
            Error::InvalidSmtpPort(text) => ErrorView::InvalidSmtpPort(text@),
            Error::InvalidStartBlock(text) => ErrorView::InvalidStartBlock(text@),
            Error::InvalidTail(text) => ErrorView::InvalidTail(text@),
            Error::JsonRpcResponseFailure { code, message } => ErrorView::JsonRpcResponseFailure { code: *code, message: message@ },
            Error::MalformedHex(text) => ErrorView::MalformedHex(text@),
            Error::MalformedOutput => ErrorView::MalformedOutput,
            Error::MalformedResponse => ErrorView::MalformedResponse,
            Error::MissingAbiFile(text) => ErrorView::MissingAbiFile(text@),
            Error::MissingEnvVar(text) => ErrorView::MissingEnvVar(text@),
            Error::MustSpecifyAtLeastOneCliArgument(text) => ErrorView::MustSpecifyAtLeastOneCliArgument(text@),
            Error::MustSpecifyOneCliArgument(text) => ErrorView::MustSpecifyOneCliArgument(text@),
            Error::MustSpecifyZeroOrOneCliArguments(text) => ErrorView::MustSpecifyZeroOrOneCliArguments(text@),
            Error::StartBlockExceedsLastBlockMined { start_block, last_mined_block } => ErrorView::StartBlockExceedsLastBlockMined {
                start_block: *start_block,
                last_mined_block: *last_mined_block,
            },
            Error::TailExceedsLastBlockMined { tail, last_mined_block } => ErrorView::TailExceedsLastBlockMined {
                tail: *tail,
                last_mined_block: *last_mined_block,
            },
            Error::TimestampOutOfRange => ErrorView::TimestampOutOfRange,
            Error::UnsupportedArguments => ErrorView::UnsupportedArguments,
            Error::UnsupportedTarget => ErrorView::UnsupportedTarget,
            Error::UnrecognizedBallotType => ErrorView::UnrecognizedBallotType,
            Error::UnrecognizedKeyType => ErrorView::UnrecognizedKeyType,
            Error::UnrecognizedQuorumState => ErrorView::UnrecognizedQuorumState,
            Error::ValueOutOfRange => ErrorView::ValueOutOfRange,
            Error::V1ContractsWereNotDeployedToXDaiChain => ErrorView::V1ContractsWereNotDeployedToXDaiChain,
        }
    }
}

pub type Result<T> = core::result::Result<T, Error>;

/// Whether a result is the expected one: the same value, or an error with the same view.
pub open spec fn agrees<T>(
    r: core::result::Result<T, Error>,
    expected: core::result::Result<T, ErrorView>,
) -> bool {
    match expected {
        Ok(value) => r == Ok::<T, Error>(value),
        Err(e) => r matches Err(actual) && actual@ == e,
    }
}

/// Whether a result is the expected one: a value with the same view, or an error with
/// the same view.
pub open spec fn agrees_on_view<T: View>(
    r: core::result::Result<T, Error>,
    expected: core::result::Result<T::V, ErrorView>,
) -> bool {
    match expected {
        Ok(value) => r matches Ok(actual) && actual@ == value,
        Err(e) => r matches Err(actual) && actual@ == e,
    }
}

} // verus!
