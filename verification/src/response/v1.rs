//! Records of the first contract generation, read from `votingState`.

use vstd::prelude::*;

use vstd::std_specs::convert::{FromSpecImpl, TryFromSpecImpl};

use crate::abi::AbiValue;
use crate::config::ContractType;
use crate::error::Error;
use crate::primitives::{Address, U256};
use crate::response::common::{
    address_at, ballot_type_at, fields_of, flag_at, key_type_at, number_at, quorum_state_at,
    read_fields, text_at, time_at, BallotType, Field, FieldKind, KeyType,
};
use crate::utils::UtcTime;

verus! {

/// The state of a ballot's vote.
#[derive(Clone, Copy, Debug, PartialEq, Eq, Structural)]
pub enum QuorumState {
    Invalid,
    InProgress,
    Accepted,
    Rejected,
}

impl QuorumState {
    /// The quorum state that a contract writes as this number.
    pub open spec fn of_code(code: nat) -> Option<QuorumState> {
        if code == 0 {
            Some(QuorumState::Invalid)
        } else if code == 1 {
            Some(QuorumState::InProgress)
        } else if code == 2 {
            Some(QuorumState::Accepted)
        } else if code == 3 {
            Some(QuorumState::Rejected)
        } else {
            None
        }
    }
}

impl TryFrom<U256> for QuorumState {
    type Error = Error;

    /// Reads a quorum state. A code above 3 is [`Error::UnrecognizedQuorumState`],
    /// however large.
    fn try_from(code: U256) -> (r: Result<Self, Error>) {
        match code.as_u64() {
            Some(0) => Ok(QuorumState::Invalid),
            Some(1) => Ok(QuorumState::InProgress),
            Some(2) => Ok(QuorumState::Accepted),
            Some(3) => Ok(QuorumState::Rejected),
            _ => Err(Error::UnrecognizedQuorumState),
        }
    }
}

impl TryFromSpecImpl<U256> for QuorumState {
    open spec fn obeys_try_from_spec() -> bool {
        true
    }

    open spec fn try_from_spec(code: U256) -> Result<Self, Error> {
        match QuorumState::of_code(code@) {
            Some(state) => Ok(state),
            None => Err(Error::UnrecognizedQuorumState),
        }
    }
}

/// A ballot's state, by the contract that holds it.
#[derive(Clone, Debug, PartialEq, Eq)]
pub enum VotingState {
    Keys(KeysVotingState),
    Threshold(ThresholdVotingState),
    Proxy(ProxyVotingState),
}

impl From<KeysVotingState> for VotingState {
    fn from(inner: KeysVotingState) -> (r: Self) {
        VotingState::Keys(inner)
    }
}

impl FromSpecImpl<KeysVotingState> for VotingState {
    open spec fn obeys_from_spec() -> bool {
        true
    }

    open spec fn from_spec(inner: KeysVotingState) -> Self {
        VotingState::Keys(inner)
    }
}

impl From<ThresholdVotingState> for VotingState {
    fn from(inner: ThresholdVotingState) -> (r: Self) {
        VotingState::Threshold(inner)
    }
}

impl FromSpecImpl<ThresholdVotingState> for VotingState {
    open spec fn obeys_from_spec() -> bool {
        true
    }

    open spec fn from_spec(inner: ThresholdVotingState) -> Self {
        VotingState::Threshold(inner)
    }
}

impl From<ProxyVotingState> for VotingState {
    fn from(inner: ProxyVotingState) -> (r: Self) {
        VotingState::Proxy(inner)
    }
}

impl FromSpecImpl<ProxyVotingState> for VotingState {
    open spec fn obeys_from_spec() -> bool {
        true
    }

    open spec fn from_spec(inner: ProxyVotingState) -> Self {
        VotingState::Proxy(inner)
    }
}

impl VotingState {
    /// The source file of the contract that holds the ballot.
    pub fn contract_name(&self) -> (r: String)
        ensures
            r@ == (match self {
                VotingState::Keys(_) => "VotingToChangeKeys.sol"@,
                VotingState::Threshold(_) => "VotingToChangeMinThreshold.sol"@,
                VotingState::Proxy(_) => "VotingToChangeProxyAddress.sol"@,
            }),
    {
        match self {
            VotingState::Keys(_) => "VotingToChangeKeys.sol".to_owned(),
            VotingState::Threshold(_) => "VotingToChangeMinThreshold.sol".to_owned(),
            VotingState::Proxy(_) => "VotingToChangeProxyAddress.sol".to_owned(),
        }
    }

    /// What the decoded output of `votingState` means for a contract of the given kind.
    /// There is no emission-funds contract in this generation.
    pub open spec fn of_output(kind: ContractType, values: Seq<AbiValue>) -> Result<
        VotingState,
        Error,
    > {
        match kind {
            ContractType::Keys => match KeysVotingState::decoded(values) {
                Ok(state) => Ok(VotingState::Keys(state)),
                Err(e) => Err(e),
            },
            ContractType::Threshold => match ThresholdVotingState::decoded(values) {
                Ok(state) => Ok(VotingState::Threshold(state)),
                Err(e) => Err(e),
            },
            ContractType::Proxy => match ProxyVotingState::decoded(values) {
                Ok(state) => Ok(VotingState::Proxy(state)),
                Err(e) => Err(e),
            },
            ContractType::Emission => Err(Error::EmissionFundsV1ContractDoesNotExist),
        }
    }

    /// Reads the decoded output of `votingState` as the record of the contract's kind.
    pub fn from_output(kind: ContractType, tokens: Vec<AbiValue>) -> (r: Result<
        VotingState,
        Error,
    >)
        ensures
            r == VotingState::of_output(kind, tokens@),
    {
        match kind {
            ContractType::Keys => match KeysVotingState::try_from(tokens) {
                Ok(state) => Ok(VotingState::from(state)),
                Err(e) => Err(e),
            },
            ContractType::Threshold => match ThresholdVotingState::try_from(tokens) {
                Ok(state) => Ok(VotingState::from(state)),
                Err(e) => Err(e),
            },
            ContractType::Proxy => match ProxyVotingState::try_from(tokens) {
                Ok(state) => Ok(VotingState::from(state)),
                Err(e) => Err(e),
            },
            ContractType::Emission => Err(Error::EmissionFundsV1ContractDoesNotExist),
        }
    }
}

/// The state of a ballot on the keys contract.
#[derive(Clone, Debug, PartialEq, Eq)]
pub struct KeysVotingState {
    /// When voting opens.
    pub start_time: UtcTime,
    /// When voting closes.
    pub end_time: UtcTime,
    pub affected_key: Address,
    pub affected_key_type: KeyType,
    pub mining_key: Address,
    pub total_voters: U256,
    /// Votes for less votes against, as the 256 bits of a signed number.
    pub progress: U256,
    pub is_finalized: bool,
    pub quorum_state: QuorumState,
    pub ballot_type: BallotType,
    pub index: U256,
    pub min_threshold_of_voters: U256,
    pub creator: Address,
    pub memo: String,
}

impl KeysVotingState {
    /// The contract's output, position by position.
    pub open spec fn schema() -> Seq<FieldKind> {
        seq![
            FieldKind::Timestamp,
            FieldKind::Timestamp,
            FieldKind::Address,
            FieldKind::KeyType,
            FieldKind::Address,
            FieldKind::Uint,
            FieldKind::Int,
            FieldKind::Bool,
            FieldKind::QuorumState,
            FieldKind::BallotType,
            FieldKind::Uint,
            FieldKind::Uint,
            FieldKind::Address,
            FieldKind::Text,
        ]
    }

    /// The schema as a value.
    pub fn output_schema() -> (r: Vec<FieldKind>)
        ensures
            r@ == Self::schema(),
    {
        let r = vec![
            FieldKind::Timestamp,
            FieldKind::Timestamp,
            FieldKind::Address,
            FieldKind::KeyType,
            FieldKind::Address,
            FieldKind::Uint,
            FieldKind::Int,
            FieldKind::Bool,
            FieldKind::QuorumState,
            FieldKind::BallotType,
            FieldKind::Uint,
            FieldKind::Uint,
            FieldKind::Address,
            FieldKind::Text,
        ];
        assert(r@ =~= Self::schema());
        r
    }

    /// The record that the fields make, each field from its position in the schema.
    pub open spec fn of_fields(fields: Seq<Field>) -> Self {
        KeysVotingState {
            start_time: fields[0]->Time_0,
            end_time: fields[1]->Time_0,
            affected_key: fields[2]->Addr_0,
            affected_key_type: fields[3]->Key_0,
            mining_key: fields[4]->Addr_0,
            total_voters: fields[5]->Number_0,
            progress: fields[6]->Number_0,
            is_finalized: fields[7]->Flag_0,
            quorum_state: fields[8]->Quorum_0,
            ballot_type: fields[9]->Ballot_0,
            index: fields[10]->Number_0,
            min_threshold_of_voters: fields[11]->Number_0,
            creator: fields[12]->Addr_0,
            memo: fields[13]->Text_0,
        }
    }

    /// The record that a call's decoded output stands for: its values read against the
    /// schema, then put together.
    pub open spec fn decoded(values: Seq<AbiValue>) -> Result<Self, Error> {
        match fields_of(Self::schema(), values) {
            Ok(fields) => Ok(Self::of_fields(fields)),
            Err(e) => Err(e),
        }
    }
}

impl TryFrom<Vec<AbiValue>> for KeysVotingState {
    type Error = Error;

    /// Reads the record from a call's decoded output. Fails as [`fields_of`] does on
    /// the record's schema.
    fn try_from(tokens: Vec<AbiValue>) -> (r: Result<Self, Error>) {
        let schema = Self::output_schema();
        let fields = match read_fields(&schema, &tokens) {
            Ok(fields) => fields,
            Err(e) => {
                return Err(e);
            },
        };
        proof {
            assert(fields@[0].fits(Self::schema()[0]));
            assert(fields@[1].fits(Self::schema()[1]));
            assert(fields@[2].fits(Self::schema()[2]));
            assert(fields@[3].fits(Self::schema()[3]));
            assert(fields@[4].fits(Self::schema()[4]));
            assert(fields@[5].fits(Self::schema()[5]));
            assert(fields@[6].fits(Self::schema()[6]));
            assert(fields@[7].fits(Self::schema()[7]));
            assert(fields@[8].fits(Self::schema()[8]));
            assert(fields@[9].fits(Self::schema()[9]));
            assert(fields@[10].fits(Self::schema()[10]));
            assert(fields@[11].fits(Self::schema()[11]));
            assert(fields@[12].fits(Self::schema()[12]));
            assert(fields@[13].fits(Self::schema()[13]));
        }
        Ok(KeysVotingState {
            start_time: time_at(&fields, 0),
            end_time: time_at(&fields, 1),
            affected_key: address_at(&fields, 2),
            affected_key_type: key_type_at(&fields, 3),
            mining_key: address_at(&fields, 4),
            total_voters: number_at(&fields, 5),
            progress: number_at(&fields, 6),
            is_finalized: flag_at(&fields, 7),
            quorum_state: quorum_state_at(&fields, 8),
            ballot_type: ballot_type_at(&fields, 9),
            index: number_at(&fields, 10),
            min_threshold_of_voters: number_at(&fields, 11),
            creator: address_at(&fields, 12),
            memo: text_at(&fields, 13),
        })
    }
}

impl TryFromSpecImpl<Vec<AbiValue>> for KeysVotingState {
    open spec fn obeys_try_from_spec() -> bool {
        true
    }

    open spec fn try_from_spec(tokens: Vec<AbiValue>) -> Result<Self, Error> {
        Self::decoded(tokens@)
    }
}

/// The state of a ballot on the threshold contract.
#[derive(Clone, Debug, PartialEq, Eq)]
pub struct ThresholdVotingState {
    /// When voting opens.
    pub start_time: UtcTime,
    /// When voting closes.
    pub end_time: UtcTime,
    pub total_voters: U256,
    /// Votes for less votes against, as the 256 bits of a signed number.
    pub progress: U256,
    pub is_finalized: bool,
    pub quorum_state: QuorumState,
    pub index: U256,
    pub min_threshold_of_voters: U256,
    pub proposed_value: U256,
    pub creator: Address,
    pub memo: String,
}

impl ThresholdVotingState {
    /// The contract's output, position by position.
    pub open spec fn schema() -> Seq<FieldKind> {
        seq![
            FieldKind::Timestamp,
            FieldKind::Timestamp,
            FieldKind::Uint,
            FieldKind::Int,
            FieldKind::Bool,
            FieldKind::QuorumState,
            FieldKind::Uint,
            FieldKind::Uint,
            FieldKind::Uint,
            FieldKind::Address,
            FieldKind::Text,
        ]
    }

    /// The schema as a value.
    pub fn output_schema() -> (r: Vec<FieldKind>)
        ensures
            r@ == Self::schema(),
    {
        let r = vec![
            FieldKind::Timestamp,
            FieldKind::Timestamp,
            FieldKind::Uint,
            FieldKind::Int,
            FieldKind::Bool,
            FieldKind::QuorumState,
            FieldKind::Uint,
            FieldKind::Uint,
            FieldKind::Uint,
            FieldKind::Address,
            FieldKind::Text,
        ];
        assert(r@ =~= Self::schema());
        r
    }

    /// The record that the fields make, each field from its position in the schema.
    pub open spec fn of_fields(fields: Seq<Field>) -> Self {
        ThresholdVotingState {
            start_time: fields[0]->Time_0,
            end_time: fields[1]->Time_0,
            total_voters: fields[2]->Number_0,
            progress: fields[3]->Number_0,
            is_finalized: fields[4]->Flag_0,
            quorum_state: fields[5]->Quorum_0,
            index: fields[6]->Number_0,
            min_threshold_of_voters: fields[7]->Number_0,
            proposed_value: fields[8]->Number_0,
            creator: fields[9]->Addr_0,
            memo: fields[10]->Text_0,
        }
    }

    /// The record that a call's decoded output stands for: its values read against the
    /// schema, then put together.
    pub open spec fn decoded(values: Seq<AbiValue>) -> Result<Self, Error> {
        match fields_of(Self::schema(), values) {
            Ok(fields) => Ok(Self::of_fields(fields)),
            Err(e) => Err(e),
        }
    }
}

impl TryFrom<Vec<AbiValue>> for ThresholdVotingState {
    type Error = Error;

    /// Reads the record from a call's decoded output. Fails as [`fields_of`] does on
    /// the record's schema.
    fn try_from(tokens: Vec<AbiValue>) -> (r: Result<Self, Error>) {
        let schema = Self::output_schema();
        let fields = match read_fields(&schema, &tokens) {
            Ok(fields) => fields,
            Err(e) => {
                return Err(e);
            },
        };
        proof {
            assert(fields@[0].fits(Self::schema()[0]));
            assert(fields@[1].fits(Self::schema()[1]));
            assert(fields@[2].fits(Self::schema()[2]));
            assert(fields@[3].fits(Self::schema()[3]));
            assert(fields@[4].fits(Self::schema()[4]));
            assert(fields@[5].fits(Self::schema()[5]));
            assert(fields@[6].fits(Self::schema()[6]));
            assert(fields@[7].fits(Self::schema()[7]));
            assert(fields@[8].fits(Self::schema()[8]));
            assert(fields@[9].fits(Self::schema()[9]));
            assert(fields@[10].fits(Self::schema()[10]));
        }
        Ok(ThresholdVotingState {
            start_time: time_at(&fields, 0),
            end_time: time_at(&fields, 1),
            total_voters: number_at(&fields, 2),
            progress: number_at(&fields, 3),
            is_finalized: flag_at(&fields, 4),
            quorum_state: quorum_state_at(&fields, 5),
            index: number_at(&fields, 6),
            min_threshold_of_voters: number_at(&fields, 7),
            proposed_value: number_at(&fields, 8),
            creator: address_at(&fields, 9),
            memo: text_at(&fields, 10),
        })
    }
}

impl TryFromSpecImpl<Vec<AbiValue>> for ThresholdVotingState {
    open spec fn obeys_try_from_spec() -> bool {
        true
    }

    open spec fn try_from_spec(tokens: Vec<AbiValue>) -> Result<Self, Error> {
        Self::decoded(tokens@)
    }
}

/// The state of a ballot on the proxy contract.
#[derive(Clone, Debug, PartialEq, Eq)]
pub struct ProxyVotingState {
    /// When voting opens.
    pub start_time: UtcTime,
    /// When voting closes.
    pub end_time: UtcTime,
    pub total_voters: U256,
    /// Votes for less votes against, as the 256 bits of a signed number.
    pub progress: U256,
    pub is_finalized: bool,
    pub quorum_state: QuorumState,
    pub index: U256,
    pub min_threshold_of_voters: U256,
    pub proposed_value: Address,
    pub contract_type: U256,
    pub creator: Address,
    pub memo: String,
}

impl ProxyVotingState {
    /// The contract's output, position by position.
    pub open spec fn schema() -> Seq<FieldKind> {
        seq![
            FieldKind::Timestamp,
            FieldKind::Timestamp,
            FieldKind::Uint,
            FieldKind::Int,
            FieldKind::Bool,
            FieldKind::QuorumState,
            FieldKind::Uint,
            FieldKind::Uint,
            FieldKind::Address,
            FieldKind::Uint,
            FieldKind::Address,
            FieldKind::Text,
        ]
    }

    /// The schema as a value.
    pub fn output_schema() -> (r: Vec<FieldKind>)
        ensures
            r@ == Self::schema(),
    {
        let r = vec![
            FieldKind::Timestamp,
            FieldKind::Timestamp,
            FieldKind::Uint,
            FieldKind::Int,
            FieldKind::Bool,
            FieldKind::QuorumState,
            FieldKind::Uint,
            FieldKind::Uint,
            FieldKind::Address,
            FieldKind::Uint,
            FieldKind::Address,
            FieldKind::Text,
        ];
        assert(r@ =~= Self::schema());
        r
    }

    /// The record that the fields make, each field from its position in the schema.
    pub open spec fn of_fields(fields: Seq<Field>) -> Self {
        ProxyVotingState {
            start_time: fields[0]->Time_0,
            end_time: fields[1]->Time_0,
            total_voters: fields[2]->Number_0,
            progress: fields[3]->Number_0,
            is_finalized: fields[4]->Flag_0,
            quorum_state: fields[5]->Quorum_0,
            index: fields[6]->Number_0,
            min_threshold_of_voters: fields[7]->Number_0,
            proposed_value: fields[8]->Addr_0,
            contract_type: fields[9]->Number_0,
            creator: fields[10]->Addr_0,
            memo: fields[11]->Text_0,
        }
    }

    /// The record that a call's decoded output stands for: its values read against the
    /// schema, then put together.
    pub open spec fn decoded(values: Seq<AbiValue>) -> Result<Self, Error> {
        match fields_of(Self::schema(), values) {
            Ok(fields) => Ok(Self::of_fields(fields)),
            Err(e) => Err(e),
        }
    }
}

impl TryFrom<Vec<AbiValue>> for ProxyVotingState {
    type Error = Error;

    /// Reads the record from a call's decoded output. Fails as [`fields_of`] does on
    /// the record's schema.
    fn try_from(tokens: Vec<AbiValue>) -> (r: Result<Self, Error>) {
        let schema = Self::output_schema();
        let fields = match read_fields(&schema, &tokens) {
            Ok(fields) => fields,
            Err(e) => {
                return Err(e);
            },
        };
        proof {
            assert(fields@[0].fits(Self::schema()[0]));
            assert(fields@[1].fits(Self::schema()[1]));
            assert(fields@[2].fits(Self::schema()[2]));
            assert(fields@[3].fits(Self::schema()[3]));
            assert(fields@[4].fits(Self::schema()[4]));
            assert(fields@[5].fits(Self::schema()[5]));
            assert(fields@[6].fits(Self::schema()[6]));
            assert(fields@[7].fits(Self::schema()[7]));
            assert(fields@[8].fits(Self::schema()[8]));
            assert(fields@[9].fits(Self::schema()[9]));
            assert(fields@[10].fits(Self::schema()[10]));
            assert(fields@[11].fits(Self::schema()[11]));
        }
        Ok(ProxyVotingState {
            start_time: time_at(&fields, 0),
            end_time: time_at(&fields, 1),
            total_voters: number_at(&fields, 2),
            progress: number_at(&fields, 3),
            is_finalized: flag_at(&fields, 4),
            quorum_state: quorum_state_at(&fields, 5),
            index: number_at(&fields, 6),
            min_threshold_of_voters: number_at(&fields, 7),
            proposed_value: address_at(&fields, 8),
            contract_type: number_at(&fields, 9),
            creator: address_at(&fields, 10),
            memo: text_at(&fields, 11),
        })
    }
}

impl TryFromSpecImpl<Vec<AbiValue>> for ProxyVotingState {
    open spec fn obeys_try_from_spec() -> bool {
        true
    }

    open spec fn try_from_spec(tokens: Vec<AbiValue>) -> Result<Self, Error> {
        Self::decoded(tokens@)
    }
}

} // verus!
