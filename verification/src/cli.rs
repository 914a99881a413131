//! What the command line asks for, flag by flag.

use vstd::prelude::*;

use crate::config::{ContractType, ContractVersion, Network};

verus! {

/// The command line, parsed: a flag is either there or not, an option has a value or
/// none.
#[derive(Clone, Debug, PartialEq, Eq)]
pub struct Cli {
    /// Watch the Core network.
    pub core: bool,
    /// Watch the Sokol network.
    pub sokol: bool,
    /// Watch the xDai network.
    pub xdai: bool,
    /// Watch the ballots that change keys.
    pub keys: bool,
    /// Watch the ballots that change the minimum threshold.
    pub threshold: bool,
    /// Watch the ballots that change the proxy address.
    pub proxy: bool,
    /// Watch the ballots that manage emission funds.
    pub emission: bool,
    /// Watch the first contract generation.
    pub v1: bool,
    /// Watch the second contract generation; this is also what is watched when no generation is named.
    pub v2: bool,
    /// Start at the chain's first block.
    pub earliest: bool,
    /// Start at the last block mined.
    pub latest: bool,
    /// Start at this block.
    pub start_block: Option<String>,
    /// Start so many blocks before the last block mined.
    pub tail: Option<String>,
    /// Send a notification by email to every recipient.
    pub email: bool,
    /// The seconds to wait between two looks at the chain.
    pub block_time: Option<String>,
    /// Stop after so many notifications.
    pub notification_limit: Option<String>,
    /// Log the full text of each notification.
    pub log_emails: bool,
    /// Write the log to the `logs` directory.
    pub log_to_file: bool,
}

impl Cli {
    pub fn core_network(&self) -> (r: bool)
        ensures
            r == self.core,
    {
        self.core
    }

    pub fn sokol(&self) -> (r: bool)
        ensures
            r == self.sokol,
    {
        self.sokol
    }

    pub fn xdai(&self) -> (r: bool)
        ensures
            r == self.xdai,
    {
        self.xdai
    }

    /// Whether exactly one network is named.
    pub open spec fn spec_one_network_specified(&self) -> bool {
        (self.core && !self.sokol && !self.xdai) || (!self.core && self.sokol && !self.xdai) || (
        !self.core && !self.sokol && self.xdai)
    }

    /// Whether exactly one network is named.
    pub fn one_network_specified(&self) -> (r: bool)
        ensures
            r == self.spec_one_network_specified(),
    {
        match (self.core_network(), self.sokol(), self.xdai()) {
            (true, false, false) => true,
            (false, true, false) => true,
            (false, false, true) => true,
            _ => false,
        }
    }

    pub fn keys(&self) -> (r: bool)
        ensures
            r == self.keys,
    {
        self.keys
    }

    pub fn threshold(&self) -> (r: bool)
        ensures
            r == self.threshold,
    {
        self.threshold
    }

    pub fn proxy(&self) -> (r: bool)
        ensures
            r == self.proxy,
    {
        self.proxy
    }

    pub fn emission(&self) -> (r: bool)
        ensures
            r == self.emission,
    {
        self.emission
    }

    /// Whether no kind of contract is named.
    pub open spec fn spec_no_contracts_specified(&self) -> bool {
        !self.keys && !self.threshold && !self.proxy && !self.emission
    }

    /// Whether no kind of contract is named.
    pub fn no_contracts_specified(&self) -> (r: bool)
        ensures
            r == self.spec_no_contracts_specified(),
    {
        !self.keys() && !self.threshold() && !self.proxy() && !self.emission()
    }

    pub fn v1(&self) -> (r: bool)
        ensures
            r == self.v1,
    {
        self.v1
    }

    pub fn v2(&self) -> (r: bool)
        ensures
            r == self.v2,
    {
        self.v2
    }

    /// Whether both contract generations are named.
    pub fn multiple_versions_specified(&self) -> (r: bool)
        ensures
            r == (self.v1 && self.v2),
    {
        self.v1() && self.v2()
    }

    pub fn earliest(&self) -> (r: bool)
        ensures
            r == self.earliest,
    {
        self.earliest
    }

    pub fn latest(&self) -> (r: bool)
        ensures
            r == self.latest,
    {
        self.latest
    }

    pub fn start_block(&self) -> (r: Option<&str>)
        ensures
            match r {
                Some(value) => self.start_block matches Some(text) && value@ == text@,
                None => self.start_block is None,
            },
    {
        match &self.start_block {
            Some(text) => Some(text.as_str()),
            None => None,
        }
    }

    pub fn tail(&self) -> (r: Option<&str>)
        ensures
            match r {
                Some(value) => self.tail matches Some(text) && value@ == text@,
                None => self.tail is None,
            },
    {
        match &self.tail {
            Some(text) => Some(text.as_str()),
            None => None,
        }
    }

    /// Whether exactly one way to start is named.
    pub open spec fn spec_one_start_block_was_specified(&self) -> bool {
        let earliest: int = if self.earliest { 1 } else { 0 };
        let latest: int = if self.latest { 1 } else { 0 };
        let start_block: int = if self.start_block is Some { 1 } else { 0 };
        let tail: int = if self.tail is Some { 1 } else { 0 };
        earliest + latest + start_block + tail == 1
    }

    /// Whether exactly one way to start is named.
    pub fn one_start_block_was_specified(&self) -> (r: bool)
        ensures
            r == self.spec_one_start_block_was_specified(),
    {
        match (
            self.earliest(),
            self.latest(),
            self.start_block().is_some(),
            self.tail().is_some(),
        ) {
            (true, false, false, false) => true,
            (false, true, false, false) => true,
            (false, false, true, false) => true,
            (false, false, false, true) => true,
            _ => false,
        }
    }

    pub fn email(&self) -> (r: bool)
        ensures
            r == self.email,
    {
        self.email
    }

    pub fn block_time(&self) -> (r: Option<&str>)
        ensures
            match r {
                Some(value) => self.block_time matches Some(text) && value@ == text@,
                None => self.block_time is None,
            },
    {
        match &self.block_time {
            Some(text) => Some(text.as_str()),
            None => None,
        }
    }

    pub fn notification_limit(&self) -> (r: Option<&str>)
        ensures
            match r {
                Some(value) => self.notification_limit matches Some(text) && value@ == text@,
                None => self.notification_limit is None,
            },
    {
        match &self.notification_limit {
            Some(text) => Some(text.as_str()),
            None => None,
        }
    }

    pub fn log_emails(&self) -> (r: bool)
        ensures
            r == self.log_emails,
    {
        self.log_emails
    }

    pub fn log_to_file(&self) -> (r: bool)
        ensures
            r == self.log_to_file,
    {
        self.log_to_file
    }

    /// The network to watch: Core if it is named, else Sokol if it is, else xDai.
    pub open spec fn spec_network(&self) -> Network {
        if self.core {
            Network::Core
        } else if self.sokol {
            Network::Sokol
        } else {
            Network::XDai
        }
    }

    /// The network to watch.
    pub fn network(&self) -> (r: Network)
        ensures
            r == self.spec_network(),
    {
        if self.core_network() {
            Network::Core
        } else if self.sokol() {
            Network::Sokol
        } else {
            Network::XDai
        }
    }

    /// The contract generation to watch: the second unless the first is named.
    pub open spec fn spec_version(&self) -> ContractVersion {
        if self.v1 {
            ContractVersion::V1
        } else {
            ContractVersion::V2
        }
    }

    /// The contract generation to watch.
    pub fn version(&self) -> (r: ContractVersion)
        ensures
            r == self.spec_version(),
    {
        if self.v1() {
            ContractVersion::V1
        } else {
            ContractVersion::V2
        }
    }

    /// The kinds of contract to watch, in the order keys, threshold, proxy, emission.
    pub open spec fn spec_contract_types(&self) -> Seq<ContractType> {
        (if self.keys {
            seq![ContractType::Keys]
        } else {
            Seq::empty()
        }) + (if self.threshold {
            seq![ContractType::Threshold]
        } else {
            Seq::empty()
        }) + (if self.proxy {
            seq![ContractType::Proxy]
        } else {
            Seq::empty()
        }) + (if self.emission {
            seq![ContractType::Emission]
        } else {
            Seq::empty()
        })
    }

    /// The kinds of contract to watch.
    pub fn contract_types(&self) -> (r: Vec<ContractType>)
        ensures
            r@ == self.spec_contract_types(),
    {
        let mut kinds: Vec<ContractType> = Vec::new();
        if self.keys() {
            kinds.push(ContractType::Keys);
        }
        if self.threshold() {
            kinds.push(ContractType::Threshold);
        }
        if self.proxy() {
            kinds.push(ContractType::Proxy);
        }
        if self.emission() {
            kinds.push(ContractType::Emission);
        }
        assert(kinds@ =~= self.spec_contract_types());
        kinds
    }
}

} // verus!
