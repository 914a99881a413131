//! The records of the first contract generation with their numbers narrowed to machine
//! integers, and with the vote progress read as the signed number that it is.

use vstd::prelude::*;

use vstd::std_specs::convert::TryFromSpecImpl;

use crate::abi::AbiValue;
use crate::error::Error;
use crate::primitives::{pow2_64, Address, U256};
use crate::response::common::{BallotType, KeyType};
use crate::response::v1::{KeysVotingState, ProxyVotingState, QuorumState, ThresholdVotingState};
use crate::utils::{reinterpret_signed_vote_progress, signed_vote_progress, UtcTime};

verus! {

/// Whether a number fits in 64 bits.
pub open spec fn fits_u64(word: U256) -> bool {
    word@ < pow2_64()
}

/// Whether a vote progress, read against the number of voters, fits an `i64`.
pub open spec fn progress_fits(raw: U256, total_voters: U256) -> bool {
    &&& fits_u64(total_voters)
    &&& i64::MIN <= signed_vote_progress(raw, total_voters@ as u64) <= i64::MAX
}

/// Narrows a number to 64 bits. A number that does not fit is
/// [`Error::ValueOutOfRange`].
fn narrow(word: U256) -> (r: Result<u64, Error>)
    ensures
        r == (if fits_u64(word) {
            Ok::<u64, Error>(word@ as u64)
        } else {
            Err::<u64, Error>(Error::ValueOutOfRange)
        }),
{
    match word.as_u64() {
        Some(value) => Ok(value),
        None => Err(Error::ValueOutOfRange),
    }
}

/// The state of a ballot on the keys contract, narrowed.
#[derive(Clone, Debug, PartialEq, Eq)]
pub struct KeysVotingData {
    pub start_time: UtcTime,
    pub end_time: UtcTime,
    pub affected_key: Address,
    pub affected_key_type: KeyType,
    pub mining_key: Address,
    pub total_voters: u64,
    /// Votes for less votes against.
    pub progress: i64,
    pub is_finalized: bool,
    pub quorum_state: QuorumState,
    pub ballot_type: BallotType,
    pub index: u64,
    pub min_threshold_of_voters: u64,
    pub creator: Address,
    pub memo: String,
}

impl KeysVotingData {
    /// Whether every number of the state fits where the narrowed record keeps it.
    pub open spec fn narrows(state: KeysVotingState) -> bool {
        &&& fits_u64(state.total_voters)
        &&& fits_u64(state.index)
        &&& fits_u64(state.min_threshold_of_voters)
        &&& progress_fits(state.progress, state.total_voters)
    }

    /// The state with its numbers narrowed.
    pub open spec fn narrowed(state: KeysVotingState) -> Self {
        KeysVotingData {
            start_time: state.start_time,
            end_time: state.end_time,
            affected_key: state.affected_key,
            affected_key_type: state.affected_key_type,
            mining_key: state.mining_key,
            total_voters: state.total_voters@ as u64,
            progress: signed_vote_progress(state.progress, state.total_voters@ as u64) as i64,
            is_finalized: state.is_finalized,
            quorum_state: state.quorum_state,
            ballot_type: state.ballot_type,
            index: state.index@ as u64,
            min_threshold_of_voters: state.min_threshold_of_voters@ as u64,
            creator: state.creator,
            memo: state.memo,
        }
    }
}

impl TryFrom<KeysVotingState> for KeysVotingData {
    type Error = Error;

    /// Narrows a state. A number that does not fit is [`Error::ValueOutOfRange`].
    fn try_from(state: KeysVotingState) -> (r: Result<Self, Error>) {
        let total_voters = match narrow(state.total_voters) {
            Ok(value) => value,
            Err(e) => {
                return Err(e);
            },
        };
        let index = match narrow(state.index) {
            Ok(value) => value,
            Err(e) => {
                return Err(e);
            },
        };
        let min_threshold_of_voters = match narrow(state.min_threshold_of_voters) {
            Ok(value) => value,
            Err(e) => {
                return Err(e);
            },
        };
        let progress = match reinterpret_signed_vote_progress(state.progress, total_voters) {
            Ok(value) => value,
            Err(e) => {
                return Err(e);
            },
        };
        Ok(KeysVotingData {
            start_time: state.start_time,
            end_time: state.end_time,
            affected_key: state.affected_key,
            affected_key_type: state.affected_key_type,
            mining_key: state.mining_key,
            total_voters,
            progress,
            is_finalized: state.is_finalized,
            quorum_state: state.quorum_state,
            ballot_type: state.ballot_type,
            index,
            min_threshold_of_voters,
            creator: state.creator,
            memo: state.memo,
        })
    }
}

impl TryFromSpecImpl<KeysVotingState> for KeysVotingData {
    open spec fn obeys_try_from_spec() -> bool {
        true
    }

    open spec fn try_from_spec(state: KeysVotingState) -> Result<Self, Error> {
        if Self::narrows(state) {
            Ok(Self::narrowed(state))
        } else {
            Err(Error::ValueOutOfRange)
        }
    }
}

/// The state of a ballot on the threshold contract, narrowed.
#[derive(Clone, Debug, PartialEq, Eq)]
pub struct ThresholdVotingData {
    pub start_time: UtcTime,
    pub end_time: UtcTime,
    pub total_voters: u64,
    /// Votes for less votes against.
    pub progress: i64,
    pub is_finalized: bool,
    pub quorum_state: QuorumState,
    pub index: u64,
    pub proposed_value: u64,
    pub min_threshold_of_voters: u64,
    pub creator: Address,
    pub memo: String,
}

impl ThresholdVotingData {
    /// Whether every number of the state fits where the narrowed record keeps it.
    pub open spec fn narrows(state: ThresholdVotingState) -> bool {
        &&& fits_u64(state.total_voters)
        &&& fits_u64(state.index)
        &&& fits_u64(state.proposed_value)
        &&& fits_u64(state.min_threshold_of_voters)
        &&& progress_fits(state.progress, state.total_voters)
    }

    /// The state with its numbers narrowed.
    pub open spec fn narrowed(state: ThresholdVotingState) -> Self {
        ThresholdVotingData {
            start_time: state.start_time,
            end_time: state.end_time,
            total_voters: state.total_voters@ as u64,
            progress: signed_vote_progress(state.progress, state.total_voters@ as u64) as i64,
            is_finalized: state.is_finalized,
            quorum_state: state.quorum_state,
            index: state.index@ as u64,
            proposed_value: state.proposed_value@ as u64,
            min_threshold_of_voters: state.min_threshold_of_voters@ as u64,
            creator: state.creator,
            memo: state.memo,
        }
    }
}

impl TryFrom<ThresholdVotingState> for ThresholdVotingData {
    type Error = Error;

    /// Narrows a state. A number that does not fit is [`Error::ValueOutOfRange`].
    fn try_from(state: ThresholdVotingState) -> (r: Result<Self, Error>) {
        let total_voters = match narrow(state.total_voters) {
            Ok(value) => value,
            Err(e) => {
                return Err(e);
            },
        };
        let index = match narrow(state.index) {
            Ok(value) => value,
            Err(e) => {
                return Err(e);
            },
        };
        let proposed_value = match narrow(state.proposed_value) {
            Ok(value) => value,
            Err(e) => {
                return Err(e);
            },
        };
        let min_threshold_of_voters = match narrow(state.min_threshold_of_voters) {
            Ok(value) => value,
            Err(e) => {
                return Err(e);
            },
        };
        let progress = match reinterpret_signed_vote_progress(state.progress, total_voters) {
            Ok(value) => value,
            Err(e) => {
                return Err(e);
            },
        };
        Ok(ThresholdVotingData {
            start_time: state.start_time,
            end_time: state.end_time,
            total_voters,
            progress,
            is_finalized: state.is_finalized,
            quorum_state: state.quorum_state,
            index,
            proposed_value,
            min_threshold_of_voters,
            creator: state.creator,
            memo: state.memo,
        })
    }
}

impl TryFromSpecImpl<ThresholdVotingState> for ThresholdVotingData {
    open spec fn obeys_try_from_spec() -> bool {
        true
    }

    open spec fn try_from_spec(state: ThresholdVotingState) -> Result<Self, Error> {
        if Self::narrows(state) {
            Ok(Self::narrowed(state))
        } else {
            Err(Error::ValueOutOfRange)
        }
    }
}

/// The state of a ballot on the proxy contract, narrowed.
#[derive(Clone, Debug, PartialEq, Eq)]
pub struct ProxyVotingData {
    pub start_time: UtcTime,
    pub end_time: UtcTime,
    pub total_voters: u64,
    /// Votes for less votes against.
    pub progress: i64,
    pub is_finalized: bool,
    pub quorum_state: QuorumState,
    pub index: u64,
    pub min_threshold_of_voters: u64,
    pub proposed_value: Address,
    pub contract_type: u64,
    pub creator: Address,
    pub memo: String,
}

impl ProxyVotingData {
    /// Whether every number of the state fits where the narrowed record keeps it.
    pub open spec fn narrows(state: ProxyVotingState) -> bool {
        &&& fits_u64(state.total_voters)
        &&& fits_u64(state.index)
        &&& fits_u64(state.min_threshold_of_voters)
        &&& fits_u64(state.contract_type)
        &&& progress_fits(state.progress, state.total_voters)
    }

    /// The state with its numbers narrowed.
    pub open spec fn narrowed(state: ProxyVotingState) -> Self {
        ProxyVotingData {
            start_time: state.start_time,
            end_time: state.end_time,
            total_voters: state.total_voters@ as u64,
            progress: signed_vote_progress(state.progress, state.total_voters@ as u64) as i64,
            is_finalized: state.is_finalized,
            quorum_state: state.quorum_state,
            index: state.index@ as u64,
            min_threshold_of_voters: state.min_threshold_of_voters@ as u64,
            proposed_value: state.proposed_value,
            contract_type: state.contract_type@ as u64,
            creator: state.creator,
            memo: state.memo,
        }
    }
}

impl TryFrom<ProxyVotingState> for ProxyVotingData {
    type Error = Error;

    /// Narrows a state. A number that does not fit is [`Error::ValueOutOfRange`].
    fn try_from(state: ProxyVotingState) -> (r: Result<Self, Error>) {
        let total_voters = match narrow(state.total_voters) {
            Ok(value) => value,
            Err(e) => {
                return Err(e);
            },
        };
        let index = match narrow(state.index) {
            Ok(value) => value,
            Err(e) => {
                return Err(e);
            },
        };
        let min_threshold_of_voters = match narrow(state.min_threshold_of_voters) {
            Ok(value) => value,
            Err(e) => {
                return Err(e);
            },
        };
        let contract_type = match narrow(state.contract_type) {
            Ok(value) => value,
            Err(e) => {
                return Err(e);
            },
        };
        let progress = match reinterpret_signed_vote_progress(state.progress, total_voters) {
            Ok(value) => value,
            Err(e) => {
                return Err(e);
            },
        };
        Ok(ProxyVotingData {
            start_time: state.start_time,
            end_time: state.end_time,
            total_voters,
            progress,
            is_finalized: state.is_finalized,
            quorum_state: state.quorum_state,
            index,
            min_threshold_of_voters,
            proposed_value: state.proposed_value,
            contract_type,
            creator: state.creator,
            memo: state.memo,
        })
    }
}

impl TryFromSpecImpl<ProxyVotingState> for ProxyVotingData {
    open spec fn obeys_try_from_spec() -> bool {
        true
    }

    open spec fn try_from_spec(state: ProxyVotingState) -> Result<Self, Error> {
        if Self::narrows(state) {
            Ok(Self::narrowed(state))
        } else {
            Err(Error::ValueOutOfRange)
        }
    }
}

/// A narrowed state, by the contract that holds the ballot.
#[derive(Clone, Debug, PartialEq, Eq)]
pub enum VotingData {
    Keys(KeysVotingData),
    Threshold(ThresholdVotingData),
    Proxy(ProxyVotingData),
}

impl VotingData {
    /// What the decoded output of `votingState` on the keys contract stands for: the
    /// state that it decodes to, narrowed.
    pub open spec fn spec_keys(values: Seq<AbiValue>) -> Result<VotingData, Error> {
        match KeysVotingState::decoded(values) {
            Err(e) => Err(e),
            Ok(state) => if KeysVotingData::narrows(state) {
                Ok(VotingData::Keys(KeysVotingData::narrowed(state)))
            } else {
                Err(Error::ValueOutOfRange)
            },
        }
    }

    /// Reads the decoded output of `votingState` on the keys contract.
    pub fn keys(tokens: Vec<AbiValue>) -> (r: Result<Self, Error>)
        ensures
            r == Self::spec_keys(tokens@),
    {
        let state = match KeysVotingState::try_from(tokens) {
            Ok(state) => state,
            Err(e) => {
                return Err(e);
            },
        };
        match KeysVotingData::try_from(state) {
            Ok(data) => Ok(VotingData::Keys(data)),
            Err(e) => Err(e),
        }
    }

    /// What the decoded output of `votingState` on the threshold contract stands for: the
    /// state that it decodes to, narrowed.
    pub open spec fn spec_threshold(values: Seq<AbiValue>) -> Result<VotingData, Error> {
        match ThresholdVotingState::decoded(values) {
            Err(e) => Err(e),
            Ok(state) => if ThresholdVotingData::narrows(state) {
                Ok(VotingData::Threshold(ThresholdVotingData::narrowed(state)))
            } else {
                Err(Error::ValueOutOfRange)
            },
        }
    }

    /// Reads the decoded output of `votingState` on the threshold contract.
    pub fn threshold(tokens: Vec<AbiValue>) -> (r: Result<Self, Error>)
        ensures
            r == Self::spec_threshold(tokens@),
    {
        let state = match ThresholdVotingState::try_from(tokens) {
            Ok(state) => state,
            Err(e) => {
                return Err(e);
            },
        };
        match ThresholdVotingData::try_from(state) {
            Ok(data) => Ok(VotingData::Threshold(data)),
            Err(e) => Err(e),
        }
    }

    /// What the decoded output of `votingState` on the proxy contract stands for: the
    /// state that it decodes to, narrowed.
    pub open spec fn spec_proxy(values: Seq<AbiValue>) -> Result<VotingData, Error> {
        match ProxyVotingState::decoded(values) {
            Err(e) => Err(e),
            Ok(state) => if ProxyVotingData::narrows(state) {
                Ok(VotingData::Proxy(ProxyVotingData::narrowed(state)))
            } else {
                Err(Error::ValueOutOfRange)
            },
        }
    }

    /// Reads the decoded output of `votingState` on the proxy contract.
    pub fn proxy(tokens: Vec<AbiValue>) -> (r: Result<Self, Error>)
        ensures
            r == Self::spec_proxy(tokens@),
    {
        let state = match ProxyVotingState::try_from(tokens) {
            Ok(state) => state,
            Err(e) => {
                return Err(e);
            },
        };
        match ProxyVotingData::try_from(state) {
            Ok(data) => Ok(VotingData::Proxy(data)),
            Err(e) => Err(e),
        }
    }

    /// When voting opens.
    pub fn start_time(&self) -> (r: UtcTime)
        ensures
            r == (match self {
                VotingData::Keys(inner) => inner.start_time,
                VotingData::Threshold(inner) => inner.start_time,
                VotingData::Proxy(inner) => inner.start_time,
            }),
    {
        match self {
            VotingData::Keys(inner) => inner.start_time,
            VotingData::Threshold(inner) => inner.start_time,
            VotingData::Proxy(inner) => inner.start_time,
        }
    }

    /// When voting closes.
    pub fn end_time(&self) -> (r: UtcTime)
        ensures
            r == (match self {
                VotingData::Keys(inner) => inner.end_time,
                VotingData::Threshold(inner) => inner.end_time,
                VotingData::Proxy(inner) => inner.end_time,
            }),
    {
        match self {
            VotingData::Keys(inner) => inner.end_time,
            VotingData::Threshold(inner) => inner.end_time,
            VotingData::Proxy(inner) => inner.end_time,
        }
    }

    /// The ballot's memo.
    pub fn memo(&self) -> (r: String)
        ensures
            r == (match self {
                VotingData::Keys(inner) => inner.memo,
                VotingData::Threshold(inner) => inner.memo,
                VotingData::Proxy(inner) => inner.memo,
            }),
    {
        match self {
            VotingData::Keys(inner) => inner.memo.clone(),
            VotingData::Threshold(inner) => inner.memo.clone(),
            VotingData::Proxy(inner) => inner.memo.clone(),
        }
    }

}

} // verus!
