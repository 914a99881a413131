use poagov::config::{Config, ContractVersion, Network, StartBlock};
use poagov::notify::{sort_notifications, Notification, NotificationCount};
use poagov::primitives::{Address, U256};
use poagov::response::common::{BallotCreatedLog, BallotType};
use poagov::response::v1::{QuorumState, ThresholdVotingState, VotingState};
use poagov::response::v2::{BallotInfo, ThresholdBallotInfo};
use poagov::utils::UtcTime;

fn config(notification_limit: Option<usize>) -> Config {
    Config {
        network: Network::Core,
        endpoint: "http://localhost:8545".to_string(),
        version: ContractVersion::V1,
        contracts: vec![],
        start_block: StartBlock::Earliest,
        block_time: 30,
        email_notifications: false,
        email_recipients: vec![],
        smtp_host_domain: None,
        smtp_port: None,
        smtp_username: None,
        smtp_password: None,
        outgoing_email_addr: None,
        notification_limit,
        log_emails: false,
        log_to_file: false,
    }
}

fn log(block_number: u64, ballot_id: u64) -> BallotCreatedLog {
    BallotCreatedLog {
        block_number,
        ballot_id: U256::from_u64(ballot_id),
        ballot_type: BallotType::Threshold,
        creator: Address::zero(),
    }
}

fn voting_state(memo: &str) -> VotingState {
    VotingState::Threshold(ThresholdVotingState {
        start_time: UtcTime { secs: 1 },
        end_time: UtcTime { secs: 2 },
        total_voters: U256::from_u64(0),
        progress: U256::from_u64(0),
        is_finalized: false,
        quorum_state: QuorumState::InProgress,
        index: U256::from_u64(0),
        min_threshold_of_voters: U256::from_u64(3),
        proposed_value: U256::from_u64(4),
        creator: Address::zero(),
        memo: memo.to_string(),
    })
}

fn ballot_info(memo: &str) -> BallotInfo {
    BallotInfo::Threshold(ThresholdBallotInfo {
        start_time: UtcTime { secs: 1 },
        end_time: UtcTime { secs: 2 },
        total_voters: U256::from_u64(0),
        progress: U256::from_u64(0),
        is_finalized: false,
        proposed_value: U256::from_u64(4),
        creator: Address::zero(),
        memo: memo.to_string(),
        can_be_finalized_now: false,
    })
}

fn blocks(notifications: &[Notification]) -> Vec<u64> {
    notifications.iter().map(|notification| notification.log().block_number).collect()
}

#[test]
fn merged_notifications_come_out_in_chain_order() {
    let config = config(None);
    let mut notifications = vec![
        Notification::from_voting_state(&config, log(105, 1), voting_state("first contract")),
        Notification::from_voting_state(&config, log(103, 2), voting_state("second contract")),
        Notification::from_ballot_info(&config, log(104, 3), ballot_info("second contract")),
    ];
    sort_notifications(&mut notifications);
    assert_eq!(blocks(&notifications), vec![103, 104, 105]);
    let ids: Vec<U256> = notifications.iter().map(|n| n.log().ballot_id).collect();
    assert_eq!(ids, vec![U256::from_u64(2), U256::from_u64(3), U256::from_u64(1)]);
    assert_eq!(notifications[1].contract_name(), "VotingToChangeMinThreshold.sol");
}

#[test]
fn sorting_loses_and_adds_nothing() {
    let config = config(None);
    let order = [9u64, 1, 8, 1, 7, 3, 3, 3, 0, 12, 5];
    let mut notifications: Vec<Notification> = order
        .iter()
        .enumerate()
        .map(|(id, block)| {
            Notification::from_voting_state(&config, log(*block, id as u64), voting_state(""))
        })
        .collect();
    sort_notifications(&mut notifications);
    assert_eq!(blocks(&notifications), vec![0, 1, 1, 3, 3, 3, 5, 7, 8, 9, 12]);
    let mut ids: Vec<u64> = notifications.iter().map(|n| n.log().ballot_id.low_u64()).collect();
    ids.sort();
    assert_eq!(ids, (0..11).collect::<Vec<u64>>());
    for notification in notifications.iter() {
        let id = notification.log().ballot_id.low_u64() as usize;
        assert_eq!(notification.log().block_number, order[id]);
    }
    let mut none: Vec<Notification> = vec![];
    sort_notifications(&mut none);
    assert!(none.is_empty());
    let mut one = vec![Notification::from_ballot_info(&config, log(4, 0), ballot_info("m"))];
    sort_notifications(&mut one);
    assert_eq!(blocks(&one), vec![4]);
}

#[test]
fn notification_holds_its_parts() {
    let config = config(Some(2));
    let first = Notification::from_voting_state(&config, log(5, 6), voting_state("m"));
    assert_eq!(*first.log(), log(5, 6));
    assert_eq!(first.config(), &config);
    assert_eq!(first.contract_name(), "VotingToChangeMinThreshold.sol");
    match first {
        Notification::VotingState { voting_state: state, .. } => assert_eq!(state, voting_state("m")),
        _ => panic!("not a voting state"),
    }
    let second = Notification::from_ballot_info(&config, log(7, 8), ballot_info("n"));
    assert_eq!(*second.log(), log(7, 8));
    match second {
        Notification::BallotInfo { ballot_info: info, .. } => assert_eq!(info, ballot_info("n")),
        _ => panic!("not a ballot"),
    }
}

#[test]
fn notifications_are_counted_against_the_limit() {
    let mut count = NotificationCount::new(&config(Some(2)));
    assert_eq!(count, NotificationCount { limit: Some(2), count: 0 });
    assert!(!count.reached_limit());
    count.notify();
    assert!(!count.reached_limit());
    count.notify();
    assert_eq!(count.count, 2);
    assert!(count.reached_limit());
    count.notify();
    assert!(count.reached_limit());

    let mut unlimited = NotificationCount::new(&config(None));
    unlimited.notify();
    assert!(!unlimited.reached_limit());
    assert!(NotificationCount::new(&config(Some(0))).reached_limit());

    let mut full = NotificationCount { limit: None, count: usize::MAX };
    full.notify();
    assert_eq!(full.count, usize::MAX);
}
