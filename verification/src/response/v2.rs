//! Records of the second contract generation, read from `getBallotInfo`.

use vstd::prelude::*;

use vstd::std_specs::convert::{FromSpecImpl, TryFromSpecImpl};

use crate::abi::AbiValue;
use crate::config::ContractType;
use crate::error::Error;
use crate::primitives::{Address, U256};
use crate::response::common::{
    address_at, ballot_type_at, fields_of, flag_at, key_type_at, number_at, read_fields, text_at,
    time_at, BallotType, Field, FieldKind, KeyType,
};
use crate::utils::UtcTime;

verus! {

/// A ballot's state, by the contract that holds it.
#[derive(Clone, Debug, PartialEq, Eq)]
pub enum BallotInfo {
    Keys(KeysBallotInfo),
    Threshold(ThresholdBallotInfo),
    Proxy(ProxyBallotInfo),
    Emission(EmissionBallotInfo),
}

impl From<KeysBallotInfo> for BallotInfo {
    fn from(inner: KeysBallotInfo) -> (r: Self) {
        BallotInfo::Keys(inner)
    }
}

impl FromSpecImpl<KeysBallotInfo> for BallotInfo {
    open spec fn obeys_from_spec() -> bool {
        true
    }

    open spec fn from_spec(inner: KeysBallotInfo) -> Self {
        BallotInfo::Keys(inner)
    }
}

impl From<ThresholdBallotInfo> for BallotInfo {
    fn from(inner: ThresholdBallotInfo) -> (r: Self) {
        BallotInfo::Threshold(inner)
    }
}

impl FromSpecImpl<ThresholdBallotInfo> for BallotInfo {
    open spec fn obeys_from_spec() -> bool {
        true
    }

    open spec fn from_spec(inner: ThresholdBallotInfo) -> Self {
        BallotInfo::Threshold(inner)
    }
}

impl From<ProxyBallotInfo> for BallotInfo {
    fn from(inner: ProxyBallotInfo) -> (r: Self) {
        BallotInfo::Proxy(inner)
    }
}

impl FromSpecImpl<ProxyBallotInfo> for BallotInfo {
    open spec fn obeys_from_spec() -> bool {
        true
    }

    open spec fn from_spec(inner: ProxyBallotInfo) -> Self {
        BallotInfo::Proxy(inner)
    }
}

impl From<EmissionBallotInfo> for BallotInfo {
    fn from(inner: EmissionBallotInfo) -> (r: Self) {
        BallotInfo::Emission(inner)
    }
}

impl FromSpecImpl<EmissionBallotInfo> for BallotInfo {
    open spec fn obeys_from_spec() -> bool {
        true
    }

    open spec fn from_spec(inner: EmissionBallotInfo) -> Self {
        BallotInfo::Emission(inner)
    }
}

impl BallotInfo {
    /// The source file of the contract that holds the ballot.
    pub fn contract_name(&self) -> (r: String)
        ensures
            r@ == (match self {
                BallotInfo::Keys(_) => "VotingToChangeKeys.sol"@,
                BallotInfo::Threshold(_) => "VotingToChangeMinThreshold.sol"@,
                BallotInfo::Proxy(_) => "VotingToChangeProxyAddress.sol"@,
                BallotInfo::Emission(_) => "VotingToManageEmissionFunds.sol"@,
            }),
    {
        match self {
            BallotInfo::Keys(_) => "VotingToChangeKeys.sol".to_owned(),
            BallotInfo::Threshold(_) => "VotingToChangeMinThreshold.sol".to_owned(),
            BallotInfo::Proxy(_) => "VotingToChangeProxyAddress.sol".to_owned(),
            BallotInfo::Emission(_) => "VotingToManageEmissionFunds.sol".to_owned(),
        }
    }

    /// What the decoded output of `getBallotInfo` means for a contract of the given kind.
    pub open spec fn of_output(kind: ContractType, values: Seq<AbiValue>) -> Result<
        BallotInfo,
        Error,
    > {
        match kind {
            ContractType::Keys => match KeysBallotInfo::decoded(values) {
                Ok(info) => Ok(BallotInfo::Keys(info)),
                Err(e) => Err(e),
            },
            ContractType::Threshold => match ThresholdBallotInfo::decoded(values) {
                Ok(info) => Ok(BallotInfo::Threshold(info)),
                Err(e) => Err(e),
            },
            ContractType::Proxy => match ProxyBallotInfo::decoded(values) {
                Ok(info) => Ok(BallotInfo::Proxy(info)),
                Err(e) => Err(e),
            },
            ContractType::Emission => match EmissionBallotInfo::decoded(values) {
                Ok(info) => Ok(BallotInfo::Emission(info)),
                Err(e) => Err(e),
            },
        }
    }

    /// Reads the decoded output of `getBallotInfo` as the record of the contract's kind.
    pub fn from_output(kind: ContractType, tokens: Vec<AbiValue>) -> (r: Result<BallotInfo, Error>)
        ensures
            r == BallotInfo::of_output(kind, tokens@),
    {
        match kind {
            ContractType::Keys => match KeysBallotInfo::try_from(tokens) {
                Ok(info) => Ok(BallotInfo::from(info)),
                Err(e) => Err(e),
            },
            ContractType::Threshold => match ThresholdBallotInfo::try_from(tokens) {
                Ok(info) => Ok(BallotInfo::from(info)),
                Err(e) => Err(e),
            },
            ContractType::Proxy => match ProxyBallotInfo::try_from(tokens) {
                Ok(info) => Ok(BallotInfo::from(info)),
                Err(e) => Err(e),
            },
            ContractType::Emission => match EmissionBallotInfo::try_from(tokens) {
                Ok(info) => Ok(BallotInfo::from(info)),
                Err(e) => Err(e),
            },
        }
    }
}

/// A ballot on the keys contract.
#[derive(Clone, Debug, PartialEq, Eq)]
pub struct KeysBallotInfo {
    /// When voting opens.
    pub start_time: UtcTime,
    /// When voting closes.
    pub end_time: UtcTime,
    pub affected_key: Address,
    pub affected_key_type: KeyType,
    pub new_voting_key: Address,
    pub new_payout_key: Address,
    pub mining_key: Address,
    pub total_voters: U256,
    /// Votes for less votes against, as the 256 bits of a signed number.
    pub progress: U256,
    pub is_finalized: bool,
    pub ballot_type: BallotType,
    pub creator: Address,
    pub memo: String,
    pub can_be_finalized_now: bool,
}

impl KeysBallotInfo {
    /// The contract's output, position by position.
    pub open spec fn schema() -> Seq<FieldKind> {
        seq![
            FieldKind::Timestamp,
            FieldKind::Timestamp,
            FieldKind::Address,
            FieldKind::KeyType,
            FieldKind::Address,
            FieldKind::Address,
            FieldKind::Address,
            FieldKind::Uint,
            FieldKind::Int,
            FieldKind::Bool,
            FieldKind::BallotType,
            FieldKind::Address,
            FieldKind::Text,
            FieldKind::Bool,
        ]
    }

    /// The schema as a value.
    pub fn output_schema() -> (r: Vec<FieldKind>)
        ensures
            r@ == Self::schema(),
    {
        let r = vec![
            FieldKind::Timestamp,
            FieldKind::Timestamp,
            FieldKind::Address,
            FieldKind::KeyType,
            FieldKind::Address,
            FieldKind::Address,
            FieldKind::Address,
            FieldKind::Uint,
            FieldKind::Int,
            FieldKind::Bool,
            FieldKind::BallotType,
            FieldKind::Address,
            FieldKind::Text,
            FieldKind::Bool,
        ];
        assert(r@ =~= Self::schema());
        r
    }

    /// The record that the fields make, each field from its position in the schema.
    pub open spec fn of_fields(fields: Seq<Field>) -> Self {
        KeysBallotInfo {
            start_time: fields[0]->Time_0,
            end_time: fields[1]->Time_0,
            affected_key: fields[2]->Addr_0,
            affected_key_type: fields[3]->Key_0,
            new_voting_key: fields[4]->Addr_0,
            new_payout_key: fields[5]->Addr_0,
            mining_key: fields[6]->Addr_0,
            total_voters: fields[7]->Number_0,
            progress: fields[8]->Number_0,
            is_finalized: fields[9]->Flag_0,
            ballot_type: fields[10]->Ballot_0,
            creator: fields[11]->Addr_0,
            memo: fields[12]->Text_0,
            can_be_finalized_now: fields[13]->Flag_0,
        }
    }

    /// The record that a call's decoded output stands for: its values read against the
    /// schema, then put together.
    pub open spec fn decoded(values: Seq<AbiValue>) -> Result<Self, Error> {
        match fields_of(Self::schema(), values) {
            Ok(fields) => Ok(Self::of_fields(fields)),
            Err(e) => Err(e),
        }
    }
}

impl TryFrom<Vec<AbiValue>> for KeysBallotInfo {
    type Error = Error;

    /// Reads the record from a call's decoded output. Fails as [`fields_of`] does on
    /// the record's schema.
    fn try_from(tokens: Vec<AbiValue>) -> (r: Result<Self, Error>) {
        let schema = Self::output_schema();
        let fields = match read_fields(&schema, &tokens) {
            Ok(fields) => fields,
            Err(e) => {
                return Err(e);
            },
        };
        proof {
            assert(fields@[0].fits(Self::schema()[0]));
            assert(fields@[1].fits(Self::schema()[1]));
            assert(fields@[2].fits(Self::schema()[2]));
            assert(fields@[3].fits(Self::schema()[3]));
            assert(fields@[4].fits(Self::schema()[4]));
            assert(fields@[5].fits(Self::schema()[5]));
            assert(fields@[6].fits(Self::schema()[6]));
            assert(fields@[7].fits(Self::schema()[7]));
            assert(fields@[8].fits(Self::schema()[8]));
            assert(fields@[9].fits(Self::schema()[9]));
            assert(fields@[10].fits(Self::schema()[10]));
            assert(fields@[11].fits(Self::schema()[11]));
            assert(fields@[12].fits(Self::schema()[12]));
            assert(fields@[13].fits(Self::schema()[13]));
        }
        Ok(KeysBallotInfo {
            start_time: time_at(&fields, 0),
            end_time: time_at(&fields, 1),
            affected_key: address_at(&fields, 2),
            affected_key_type: key_type_at(&fields, 3),
            new_voting_key: address_at(&fields, 4),
            new_payout_key: address_at(&fields, 5),
            mining_key: address_at(&fields, 6),
            total_voters: number_at(&fields, 7),
            progress: number_at(&fields, 8),
            is_finalized: flag_at(&fields, 9),
            ballot_type: ballot_type_at(&fields, 10),
            creator: address_at(&fields, 11),
            memo: text_at(&fields, 12),
            can_be_finalized_now: flag_at(&fields, 13),
        })
    }
}

impl TryFromSpecImpl<Vec<AbiValue>> for KeysBallotInfo {
    open spec fn obeys_try_from_spec() -> bool {
        true
    }

    open spec fn try_from_spec(tokens: Vec<AbiValue>) -> Result<Self, Error> {
        Self::decoded(tokens@)
    }
}

/// A ballot on the threshold contract. The contract also says whether a given voter has voted; that last value is not read.
#[derive(Clone, Debug, PartialEq, Eq)]
pub struct ThresholdBallotInfo {
    /// When voting opens.
    pub start_time: UtcTime,
    /// When voting closes.
    pub end_time: UtcTime,
    pub total_voters: U256,
    /// Votes for less votes against, as the contract returns it: unsigned.
    pub progress: U256,
    pub is_finalized: bool,
    pub proposed_value: U256,
    pub creator: Address,
    pub memo: String,
    pub can_be_finalized_now: bool,
}

impl ThresholdBallotInfo {
    /// The contract's output, position by position.
    pub open spec fn schema() -> Seq<FieldKind> {
        seq![
            FieldKind::Timestamp,
            FieldKind::Timestamp,
            FieldKind::Uint,
            FieldKind::Uint,
            FieldKind::Bool,
            FieldKind::Uint,
            FieldKind::Address,
            FieldKind::Text,
            FieldKind::Bool,
        ]
    }

    /// The schema as a value.
    pub fn output_schema() -> (r: Vec<FieldKind>)
        ensures
            r@ == Self::schema(),
    {
        let r = vec![
            FieldKind::Timestamp,
            FieldKind::Timestamp,
            FieldKind::Uint,
            FieldKind::Uint,
            FieldKind::Bool,
            FieldKind::Uint,
            FieldKind::Address,
            FieldKind::Text,
            FieldKind::Bool,
        ];
        assert(r@ =~= Self::schema());
        r
    }

    /// The record that the fields make, each field from its position in the schema.
    pub open spec fn of_fields(fields: Seq<Field>) -> Self {
        ThresholdBallotInfo {
            start_time: fields[0]->Time_0,
            end_time: fields[1]->Time_0,
            total_voters: fields[2]->Number_0,
            progress: fields[3]->Number_0,
            is_finalized: fields[4]->Flag_0,
            proposed_value: fields[5]->Number_0,
            creator: fields[6]->Addr_0,
            memo: fields[7]->Text_0,
            can_be_finalized_now: fields[8]->Flag_0,
        }
    }

    /// The record that a call's decoded output stands for: its values read against the
    /// schema, then put together.
    pub open spec fn decoded(values: Seq<AbiValue>) -> Result<Self, Error> {
        match fields_of(Self::schema(), values) {
            Ok(fields) => Ok(Self::of_fields(fields)),
            Err(e) => Err(e),
        }
    }
}

impl TryFrom<Vec<AbiValue>> for ThresholdBallotInfo {
    type Error = Error;

    /// Reads the record from a call's decoded output. Fails as [`fields_of`] does on
    /// the record's schema.
    fn try_from(tokens: Vec<AbiValue>) -> (r: Result<Self, Error>) {
        let schema = Self::output_schema();
        let fields = match read_fields(&schema, &tokens) {
            Ok(fields) => fields,
            Err(e) => {
                return Err(e);
            },
        };
        proof {
            assert(fields@[0].fits(Self::schema()[0]));
            assert(fields@[1].fits(Self::schema()[1]));
            assert(fields@[2].fits(Self::schema()[2]));
            assert(fields@[3].fits(Self::schema()[3]));
            assert(fields@[4].fits(Self::schema()[4]));
            assert(fields@[5].fits(Self::schema()[5]));
            assert(fields@[6].fits(Self::schema()[6]));
            assert(fields@[7].fits(Self::schema()[7]));
            assert(fields@[8].fits(Self::schema()[8]));
        }
        Ok(ThresholdBallotInfo {
            start_time: time_at(&fields, 0),
            end_time: time_at(&fields, 1),
            total_voters: number_at(&fields, 2),
            progress: number_at(&fields, 3),
            is_finalized: flag_at(&fields, 4),
            proposed_value: number_at(&fields, 5),
            creator: address_at(&fields, 6),
            memo: text_at(&fields, 7),
            can_be_finalized_now: flag_at(&fields, 8),
        })
    }
}

impl TryFromSpecImpl<Vec<AbiValue>> for ThresholdBallotInfo {
    open spec fn obeys_try_from_spec() -> bool {
        true
    }

    open spec fn try_from_spec(tokens: Vec<AbiValue>) -> Result<Self, Error> {
        Self::decoded(tokens@)
    }
}

/// A ballot on the proxy contract. The contract also says whether a given voter has voted; that last value is not read.
#[derive(Clone, Debug, PartialEq, Eq)]
pub struct ProxyBallotInfo {
    /// When voting opens.
    pub start_time: UtcTime,
    /// When voting closes.
    pub end_time: UtcTime,
    pub total_voters: U256,
    /// Votes for less votes against, as the contract returns it: unsigned.
    pub progress: U256,
    pub is_finalized: bool,
    pub proposed_value: Address,
    pub contract_type: U256,
    pub creator: Address,
    pub memo: String,
    pub can_be_finalized_now: bool,
}

impl ProxyBallotInfo {
    /// The contract's output, position by position.
    pub open spec fn schema() -> Seq<FieldKind> {
        seq![
            FieldKind::Timestamp,
            FieldKind::Timestamp,
            FieldKind::Uint,
            FieldKind::Uint,
            FieldKind::Bool,
            FieldKind::Address,
            FieldKind::Uint,
            FieldKind::Address,
            FieldKind::Text,
            FieldKind::Bool,
        ]
    }

    /// The schema as a value.
    pub fn output_schema() -> (r: Vec<FieldKind>)
        ensures
            r@ == Self::schema(),
    {
        let r = vec![
            FieldKind::Timestamp,
            FieldKind::Timestamp,
            FieldKind::Uint,
            FieldKind::Uint,
            FieldKind::Bool,
            FieldKind::Address,
            FieldKind::Uint,
            FieldKind::Address,
            FieldKind::Text,
            FieldKind::Bool,
        ];
        assert(r@ =~= Self::schema());
        r
    }

    /// The record that the fields make, each field from its position in the schema.
    pub open spec fn of_fields(fields: Seq<Field>) -> Self {
        ProxyBallotInfo {
            start_time: fields[0]->Time_0,
            end_time: fields[1]->Time_0,
            total_voters: fields[2]->Number_0,
            progress: fields[3]->Number_0,
            is_finalized: fields[4]->Flag_0,
            proposed_value: fields[5]->Addr_0,
            contract_type: fields[6]->Number_0,
            creator: fields[7]->Addr_0,
            memo: fields[8]->Text_0,
            can_be_finalized_now: fields[9]->Flag_0,
        }
    }

    /// The record that a call's decoded output stands for: its values read against the
    /// schema, then put together.
    pub open spec fn decoded(values: Seq<AbiValue>) -> Result<Self, Error> {
        match fields_of(Self::schema(), values) {
            Ok(fields) => Ok(Self::of_fields(fields)),
            Err(e) => Err(e),
        }
    }
}

impl TryFrom<Vec<AbiValue>> for ProxyBallotInfo {
    type Error = Error;

    /// Reads the record from a call's decoded output. Fails as [`fields_of`] does on
    /// the record's schema.
    fn try_from(tokens: Vec<AbiValue>) -> (r: Result<Self, Error>) {
        let schema = Self::output_schema();
        let fields = match read_fields(&schema, &tokens) {
            Ok(fields) => fields,
            Err(e) => {
                return Err(e);
            },
        };
        proof {
            assert(fields@[0].fits(Self::schema()[0]));
            assert(fields@[1].fits(Self::schema()[1]));
            assert(fields@[2].fits(Self::schema()[2]));
            assert(fields@[3].fits(Self::schema()[3]));
            assert(fields@[4].fits(Self::schema()[4]));
            assert(fields@[5].fits(Self::schema()[5]));
            assert(fields@[6].fits(Self::schema()[6]));
            assert(fields@[7].fits(Self::schema()[7]));
            assert(fields@[8].fits(Self::schema()[8]));
            assert(fields@[9].fits(Self::schema()[9]));
        }
        Ok(ProxyBallotInfo {
            start_time: time_at(&fields, 0),
            end_time: time_at(&fields, 1),
            total_voters: number_at(&fields, 2),
            progress: number_at(&fields, 3),
            is_finalized: flag_at(&fields, 4),
            proposed_value: address_at(&fields, 5),
            contract_type: number_at(&fields, 6),
            creator: address_at(&fields, 7),
            memo: text_at(&fields, 8),
            can_be_finalized_now: flag_at(&fields, 9),
        })
    }
}

impl TryFromSpecImpl<Vec<AbiValue>> for ProxyBallotInfo {
    open spec fn obeys_try_from_spec() -> bool {
        true
    }

    open spec fn try_from_spec(tokens: Vec<AbiValue>) -> Result<Self, Error> {
        Self::decoded(tokens@)
    }
}

/// A ballot on the emission-funds contract.
#[derive(Clone, Debug, PartialEq, Eq)]
pub struct EmissionBallotInfo {
    /// When the ballot was created.
    pub creation_time: UtcTime,
    /// When voting opens.
    pub start_time: UtcTime,
    /// When voting closes.
    pub end_time: UtcTime,
    pub is_canceled: bool,
    pub is_finalized: bool,
    pub creator: Address,
    pub memo: String,
    /// The funds that the ballot disposes of.
    pub amount: U256,
    pub burn_votes: U256,
    pub freeze_votes: U256,
    pub send_votes: U256,
    pub receiver: Address,
}

impl EmissionBallotInfo {
    /// The contract's output, position by position.
    pub open spec fn schema() -> Seq<FieldKind> {
        seq![
            FieldKind::Timestamp,
            FieldKind::Timestamp,
            FieldKind::Timestamp,
            FieldKind::Bool,
            FieldKind::Bool,
            FieldKind::Address,
            FieldKind::Text,
            FieldKind::Uint,
            FieldKind::Uint,
            FieldKind::Uint,
            FieldKind::Uint,
            FieldKind::Address,
        ]
    }

    /// The schema as a value.
    pub fn output_schema() -> (r: Vec<FieldKind>)
        ensures
            r@ == Self::schema(),
    {
        let r = vec![
            FieldKind::Timestamp,
            FieldKind::Timestamp,
            FieldKind::Timestamp,
            FieldKind::Bool,
            FieldKind::Bool,
            FieldKind::Address,
            FieldKind::Text,
            FieldKind::Uint,
            FieldKind::Uint,
            FieldKind::Uint,
            FieldKind::Uint,
            FieldKind::Address,
        ];
        assert(r@ =~= Self::schema());
        r
    }

    /// The record that the fields make, each field from its position in the schema.
    pub open spec fn of_fields(fields: Seq<Field>) -> Self {
        EmissionBallotInfo {
            creation_time: fields[0]->Time_0,
            start_time: fields[1]->Time_0,
            end_time: fields[2]->Time_0,
            is_canceled: fields[3]->Flag_0,
            is_finalized: fields[4]->Flag_0,
            creator: fields[5]->Addr_0,
            memo: fields[6]->Text_0,
            amount: fields[7]->Number_0,
            burn_votes: fields[8]->Number_0,
            freeze_votes: fields[9]->Number_0,
            send_votes: fields[10]->Number_0,
            receiver: fields[11]->Addr_0,
        }
    }

    /// The record that a call's decoded output stands for: its values read against the
    /// schema, then put together.
    pub open spec fn decoded(values: Seq<AbiValue>) -> Result<Self, Error> {
        match fields_of(Self::schema(), values) {
            Ok(fields) => Ok(Self::of_fields(fields)),
            Err(e) => Err(e),
        }
    }
}

impl TryFrom<Vec<AbiValue>> for EmissionBallotInfo {
    type Error = Error;

    /// Reads the record from a call's decoded output. Fails as [`fields_of`] does on
    /// the record's schema.
    fn try_from(tokens: Vec<AbiValue>) -> (r: Result<Self, Error>) {
        let schema = Self::output_schema();
        let fields = match read_fields(&schema, &tokens) {
            Ok(fields) => fields,
            Err(e) => {
                return Err(e);
            },
        };
        proof {
            assert(fields@[0].fits(Self::schema()[0]));
            assert(fields@[1].fits(Self::schema()[1]));
            assert(fields@[2].fits(Self::schema()[2]));
            assert(fields@[3].fits(Self::schema()[3]));
            assert(fields@[4].fits(Self::schema()[4]));
            assert(fields@[5].fits(Self::schema()[5]));
            assert(fields@[6].fits(Self::schema()[6]));
            assert(fields@[7].fits(Self::schema()[7]));
            assert(fields@[8].fits(Self::schema()[8]));
            assert(fields@[9].fits(Self::schema()[9]));
            assert(fields@[10].fits(Self::schema()[10]));
            assert(fields@[11].fits(Self::schema()[11]));
        }
        Ok(EmissionBallotInfo {
            creation_time: time_at(&fields, 0),
            start_time: time_at(&fields, 1),
            end_time: time_at(&fields, 2),
            is_canceled: flag_at(&fields, 3),
            is_finalized: flag_at(&fields, 4),
            creator: address_at(&fields, 5),
            memo: text_at(&fields, 6),
            amount: number_at(&fields, 7),
            burn_votes: number_at(&fields, 8),
            freeze_votes: number_at(&fields, 9),
            send_votes: number_at(&fields, 10),
            receiver: address_at(&fields, 11),
        })
    }
}

impl TryFromSpecImpl<Vec<AbiValue>> for EmissionBallotInfo {
    open spec fn obeys_try_from_spec() -> bool {
        true
    }

    open spec fn try_from_spec(tokens: Vec<AbiValue>) -> Result<Self, Error> {
        Self::decoded(tokens@)
    }
}

} // verus!
