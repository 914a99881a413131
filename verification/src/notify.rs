//! What is told about a ballot, in which order, and when to stop telling.

use vstd::prelude::*;
use vstd::seq_lib::{to_multiset_insert, to_multiset_remove};

use crate::config::Config;
use crate::response::common::BallotCreatedLog;
use crate::response::v1::VotingState;
use crate::response::v2::BallotInfo;

verus! {

/// One ballot to tell about: the log that announced it and the state that the contract
/// holds for it.
#[derive(Clone, Debug)]
pub enum Notification<'a> {
    VotingState { config: &'a Config, log: BallotCreatedLog, voting_state: VotingState },
    BallotInfo { config: &'a Config, log: BallotCreatedLog, ballot_info: BallotInfo },
}

impl<'a> Notification<'a> {
    /// A first-generation ballot.
    pub fn from_voting_state(
        config: &'a Config,
        log: BallotCreatedLog,
        voting_state: VotingState,
    ) -> (r: Self)
        ensures
            r == (Notification::VotingState { config, log, voting_state }),
    {
        Notification::VotingState { config, log, voting_state }
    }

    /// A second-generation ballot.
    pub fn from_ballot_info(config: &'a Config, log: BallotCreatedLog, ballot_info: BallotInfo) -> (r:
        Self)
        ensures
            r == (Notification::BallotInfo { config, log, ballot_info }),
    {
        Notification::BallotInfo { config, log, ballot_info }
    }

    /// The log that announced the ballot.
    pub open spec fn spec_log(self) -> BallotCreatedLog {
        match self {
            Notification::VotingState { log, .. } => log,
            Notification::BallotInfo { log, .. } => log,
        }
    }

    /// The log that announced the ballot.
    pub fn log(&self) -> (r: &BallotCreatedLog)
        ensures
            *r == self.spec_log(),
    {
        match self {
            Notification::VotingState { log, .. } => log,
            Notification::BallotInfo { log, .. } => log,
        }
    }

    /// The configuration of the run that found the ballot.
    pub fn config(&self) -> (r: &Config)
        ensures
            r == (match self {
                Notification::VotingState { config, .. } => config,
                Notification::BallotInfo { config, .. } => config,
            }),
    {
        match self {
            Notification::VotingState { config, .. } => config,
            Notification::BallotInfo { config, .. } => config,
        }
    }

    /// The source file of the contract that holds the ballot.
    pub fn contract_name(&self) -> (r: String)
        ensures
            r@ == (match self {
                Notification::VotingState { voting_state, .. } => match voting_state {
                    VotingState::Keys(_) => "VotingToChangeKeys.sol"@,
                    VotingState::Threshold(_) => "VotingToChangeMinThreshold.sol"@,
                    VotingState::Proxy(_) => "VotingToChangeProxyAddress.sol"@,
                },
                Notification::BallotInfo { ballot_info, .. } => match ballot_info {
                    BallotInfo::Keys(_) => "VotingToChangeKeys.sol"@,
                    BallotInfo::Threshold(_) => "VotingToChangeMinThreshold.sol"@,
                    BallotInfo::Proxy(_) => "VotingToChangeProxyAddress.sol"@,
                    BallotInfo::Emission(_) => "VotingToManageEmissionFunds.sol"@,
                },
            }),
    {
        match self {
            Notification::VotingState { voting_state, .. } => voting_state.contract_name(),
            Notification::BallotInfo { ballot_info, .. } => ballot_info.contract_name(),
        }
    }
}

/// Whether the notifications stand in the order of their blocks, earliest first.
pub open spec fn in_chain_order(notifications: Seq<Notification>) -> bool {
    forall|i: int, j: int|
        0 <= i <= j < notifications.len() ==> notifications[i].spec_log().block_number
            <= notifications[j].spec_log().block_number
}

/// Puts the notifications of a window in the order of the chain: by block number,
/// earliest first. None is lost and none is added.
pub fn sort_notifications<'a>(notifications: &mut Vec<Notification<'a>>)
    ensures
        in_chain_order(final(notifications)@),
        final(notifications)@.to_multiset() == old(notifications)@.to_multiset(),
{
    let mut i: usize = 0;
    while i < notifications.len()
        invariant
            i <= notifications.len(),
            in_chain_order(notifications@.take(i as int)),
            notifications@.to_multiset() == old(notifications)@.to_multiset(),
        decreases notifications.len() - i,
    {
        let ghost before = notifications@;
        let moved = notifications.remove(i);
        let ghost without = notifications@;
        let block = moved.log().block_number;
        let mut j: usize = i;
        while j > 0 && notifications[j - 1].log().block_number > block
            invariant
                j <= i <= notifications.len(),
                notifications@ == without,
                forall|k: int| j <= k < i ==> (#[trigger] without[k]).spec_log().block_number > block,
            decreases j,
        {
            j = j - 1;
        }
        notifications.insert(j, moved);
        proof {
            to_multiset_remove(before, i as int);
            to_multiset_insert(without, j as int, moved);
            assert(before.to_multiset().count(moved) > 0) by {
                vstd::seq_lib::to_multiset_contains(before, moved);
                assert(before[i as int] == moved);
                assert(before.contains(moved));
            }
            assert(notifications@.to_multiset() =~= before.to_multiset());
            let sorted = notifications@.take(i + 1);
            let prefix = before.take(i as int);
            assert forall|a: int, b: int| 0 <= a <= b < sorted.len() implies sorted[a].spec_log().block_number
                <= sorted[b].spec_log().block_number by {
                let at = |k: int| if k < j { prefix[k] } else { prefix[k - 1] };
                if a != j as int {
                    assert(sorted[a] == at(a));
                }
                if b != j as int {
                    assert(sorted[b] == at(b));
                }
                if a < j && b > j {
                    assert(without[b - 1] == prefix[b - 1]);
                }
                if a < j && b == j && j > 0 {
                    assert(prefix[a].spec_log().block_number <= prefix[j - 1].spec_log().block_number);
                }
                if a == j && b > j {
                    assert(without[b - 1] == prefix[b - 1]);
                }
            }
        }
        i = i + 1;
    }
    assert(notifications@.take(i as int) =~= notifications@);
}

/// Counts the notifications of a run against its limit.
#[derive(Clone, Copy, Debug, PartialEq, Eq, Structural)]
pub struct NotificationCount {
    pub limit: Option<usize>,
    pub count: usize,
}

impl NotificationCount {
    /// A count of zero against the configured limit.
    pub fn new(config: &Config) -> (r: Self)
        ensures
            r == (NotificationCount { limit: config.notification_limit, count: 0 }),
    {
        NotificationCount { limit: config.notification_limit, count: 0 }
    }

    /// Counts one notification. A count that cannot grow stays as it is.
    pub fn notify(&mut self)
        ensures
            final(self).limit == old(self).limit,
            final(self).count == (if old(self).count < usize::MAX {
                old(self).count + 1
            } else {
                old(self).count as int
            }),
    {
        if self.count < usize::MAX {
            self.count = self.count + 1;
        }
    }

    /// Whether as many notifications were counted as the limit allows. Without a limit
    /// there is no end.
    pub fn reached_limit(&self) -> (r: bool)
        ensures
            r == (match self.limit {
                Some(limit) => self.count >= limit,
                None => false,
            }),
    {
        match self.limit {
            Some(limit) => self.count >= limit,
            None => false,
        }
    }
}

} // verus!
