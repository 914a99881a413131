//! What a run is configured with: the network, the contracts, where to start.

use vstd::prelude::*;

use vstd::std_specs::convert::FromSpecImpl;
use vstd::string::{StrSliceExecFns, StringExecFns};

use crate::abi::{first_event, first_function, AbiEvent, AbiFunction, ContractAbi};
use crate::cli::Cli;
use crate::error::{agrees, Error, ErrorView};
use crate::primitives::Address;
use crate::response::common::BallotType;
use crate::utils::{
    all_digits, hex_digit, parse_decimal_u64, parse_u64, strip_0x, trim_0x, without_0x,
};

verus! {

/// The chain that is watched.
#[derive(Clone, Copy, Debug, PartialEq, Eq, Structural)]
pub enum Network {
    Core,
    Sokol,
    XDai,
}

impl Network {
    /// The network's name as environment variables spell it.
    pub open spec fn spec_uppercase(&self) -> Seq<char> {
        match self {
            Network::Core => "CORE"@,
            Network::Sokol => "SOKOL"@,
            Network::XDai => "XDAI"@,
        }
    }

    /// The network's name as environment variables spell it.
    pub fn uppercase(&self) -> (r: &'static str)
        ensures
            r@ == self.spec_uppercase(),
    {
        match self {
            Network::Core => "CORE",
            Network::Sokol => "SOKOL",
            Network::XDai => "XDAI",
        }
    }
}

/// The kind of governance contract. The emission-funds contract exists in the second
/// generation only.
#[derive(Clone, Copy, Debug, PartialEq, Eq, Structural)]
pub enum ContractType {
    Keys,
    Threshold,
    Proxy,
    Emission,
}

impl From<BallotType> for ContractType {
    /// The contract on which a ballot of this type is held.
    fn from(ballot_type: BallotType) -> (r: Self) {
        match ballot_type {
            BallotType::InvalidKey => ContractType::Keys,
            BallotType::AddKey => ContractType::Keys,
            BallotType::RemoveKey => ContractType::Keys,
            BallotType::SwapKey => ContractType::Keys,
            BallotType::Threshold => ContractType::Threshold,
            BallotType::Proxy => ContractType::Proxy,
            BallotType::Emission => ContractType::Emission,
        }
    }
}

impl FromSpecImpl<BallotType> for ContractType {
    open spec fn obeys_from_spec() -> bool {
        true
    }

    open spec fn from_spec(ballot_type: BallotType) -> Self {
        match ballot_type {
            BallotType::Threshold => ContractType::Threshold,
            BallotType::Proxy => ContractType::Proxy,
            BallotType::Emission => ContractType::Emission,
            _ => ContractType::Keys,
        }
    }
}

impl ContractType {
    pub fn is_emission(&self) -> (r: bool)
        ensures
            r == (*self == ContractType::Emission),
    {
        *self == ContractType::Emission
    }

    /// The kind's name as environment variables spell it.
    pub open spec fn spec_uppercase(&self) -> Seq<char> {
        match self {
            ContractType::Keys => "KEYS"@,
            ContractType::Threshold => "THRESHOLD"@,
            ContractType::Proxy => "PROXY"@,
            ContractType::Emission => "EMISSION_FUNDS"@,
        }
    }

    /// The file that holds the contract's interface description.
    pub open spec fn spec_abi_file_name(&self) -> Seq<char> {
        match self {
            ContractType::Keys => "VotingToChangeKeys.abi.json"@,
            ContractType::Threshold => "VotingToChangeMinThreshold.abi.json"@,
            ContractType::Proxy => "VotingToChangeProxyAddress.abi.json"@,
            ContractType::Emission => "VotingToManageEmissionFunds.abi.json"@,
        }
    }

    /// The kind's name as environment variables spell it.
    pub fn uppercase(&self) -> (r: &'static str)
        ensures
            r@ == self.spec_uppercase(),
    {
        match self {
            ContractType::Keys => "KEYS",
            ContractType::Threshold => "THRESHOLD",
            ContractType::Proxy => "PROXY",
            ContractType::Emission => "EMISSION_FUNDS",
        }
    }

    /// The file that holds the contract's interface description.
    pub fn abi_file_name(&self) -> (r: &'static str)
        ensures
            r@ == self.spec_abi_file_name(),
    {
        match self {
            ContractType::Keys => "VotingToChangeKeys.abi.json",
            ContractType::Threshold => "VotingToChangeMinThreshold.abi.json",
            ContractType::Proxy => "VotingToChangeProxyAddress.abi.json",
            ContractType::Emission => "VotingToManageEmissionFunds.abi.json",
        }
    }
}

/// The generation of the governance contracts.
#[derive(Clone, Copy, Debug, PartialEq, Eq, Structural)]
pub enum ContractVersion {
    V1,
    V2,
}

impl ContractVersion {
    pub fn is_v1(&self) -> (r: bool)
        ensures
            r == (*self == ContractVersion::V1),
    {
        *self == ContractVersion::V1
    }

    /// The generation's name as the interface directories spell it.
    pub open spec fn spec_lowercase(&self) -> Seq<char> {
        match self {
            ContractVersion::V1 => "v1"@,
            ContractVersion::V2 => "v2"@,
        }
    }

    /// The generation's name as environment variables spell it.
    pub open spec fn spec_uppercase(&self) -> Seq<char> {
        match self {
            ContractVersion::V1 => "V1"@,
            ContractVersion::V2 => "V2"@,
        }
    }

    /// The generation's name as environment variables spell it.
    pub fn uppercase(&self) -> (r: &'static str)
        ensures
            r@ == self.spec_uppercase(),
    {
        match self {
            ContractVersion::V1 => "V1",
            ContractVersion::V2 => "V2",
        }
    }

    /// The generation's name as the interface directories spell it.
    pub fn lowercase(&self) -> (r: &'static str)
        ensures
            r@ == self.spec_lowercase(),
    {
        match self {
            ContractVersion::V1 => "v1",
            ContractVersion::V2 => "v2",
        }
    }
}

/// Where the walk over the chain begins.
#[derive(Clone, Copy, Debug, PartialEq, Eq, Structural)]
pub enum StartBlock {
    /// At the chain's first block.
    Earliest,
    /// At the last block mined when the walk begins.
    Latest,
    /// At this block.
    Number(u64),
    /// So many blocks before the last block mined.
    Tail(u64),
}

/// What was found where a contract's interface description should be.
#[derive(Clone, Debug, PartialEq, Eq)]
pub enum AbiFile {
    /// No file.
    Missing,
    /// A file that is no interface description.
    Invalid,
    /// The interface.
    Loaded(ContractAbi),
}

/// Whether a character is one that may stand anywhere among the digits of an address:
/// a blank, a tab or a line end.
pub open spec fn is_blank(c: char) -> bool {
    c == ' ' || c == '\t' || c == '\n' || c == '\r'
}

/// The digits of a text that writes an address: the text without its `0x`, if it begins
/// with one, and without its blanks.
pub open spec fn address_digits(text: Seq<char>) -> Seq<char> {
    without_0x(text).filter(|c: char| !is_blank(c))
}

/// Whether a text writes an address: its digits are 40 hex digits.
pub open spec fn writes_address(text: Seq<char>) -> bool {
    address_digits(text).len() == 40 && all_digits(address_digits(text), 16)
}

/// Whether the address is the one that a text writes: two digits to a byte, the high one
/// first.
pub open spec fn is_address_of(address: Address, text: Seq<char>) -> bool {
    &&& writes_address(text)
    &&& forall|i: int|
        0 <= i < 20 ==> #[trigger] address.bytes[i] == 16 * hex_digit(address_digits(text)[2 * i])
            + hex_digit(address_digits(text)[2 * i + 1])
}

/// `ethereum_types::Address::from_str`, which `str::parse` calls, with the bytes of the
/// address picked out. It drops one leading `0x`, skips blanks, tabs and line ends
/// wherever they stand, and reads 20 bytes from exactly 40 hex digits, in either case
/// of the letters. Any other text is refused, here with nothing.
#[verifier::external_body]
fn parse_address(text: &str) -> (r: Option<Address>)
    ensures
        match r {
            Some(address) => is_address_of(address, text@),
            None => !writes_address(text@),
        },
{
    text.parse::<ethabi::Address>().ok().map(|address| Address { bytes: address.0 })
}

/// The variable that holds a contract's address:
/// `<KIND>_CONTRACT_ADDRESS_<NETWORK>_<GENERATION>`.
pub open spec fn address_variable(
    kind: ContractType,
    network: Network,
    version: ContractVersion,
) -> Seq<char> {
    kind.spec_uppercase() + "_CONTRACT_ADDRESS_"@ + network.spec_uppercase() + "_"@
        + version.spec_uppercase()
}

/// The variable that holds a contract's address.
pub fn address_env_var(kind: ContractType, network: Network, version: ContractVersion) -> (r:
    String)
    ensures
        r@ == address_variable(kind, network, version),
{
    kind.uppercase().to_owned().concat("_CONTRACT_ADDRESS_").concat(network.uppercase()).concat(
        "_",
    ).concat(version.uppercase())
}

/// The file that holds a contract's interface: `abis/<generation>/<file>`.
pub open spec fn abi_file(kind: ContractType, version: ContractVersion) -> Seq<char> {
    "abis/"@ + version.spec_lowercase() + "/"@ + kind.spec_abi_file_name()
}

/// The file that holds a contract's interface.
pub fn abi_path(kind: ContractType, version: ContractVersion) -> (r: String)
    ensures
        r@ == abi_file(kind, version),
{
    "abis/".to_owned().concat(version.lowercase()).concat("/").concat(kind.abi_file_name())
}

/// The first reason why a contract cannot be described: it does not exist; its address
/// is not set; its address, with every leading `0x` dropped, is no address; its
/// interface is missing; its interface cannot be read.
pub open spec fn read_refusal(
    kind: ContractType,
    network: Network,
    version: ContractVersion,
    address: Option<String>,
    abi: AbiFile,
) -> Option<ErrorView> {
    if !PoaContract::exists_in(kind, version) {
        Some(ErrorView::EmissionFundsV1ContractDoesNotExist)
    } else if address is None {
        Some(ErrorView::MissingEnvVar(address_variable(kind, network, version)))
    } else if !writes_address(strip_0x(address->0@)) {
        Some(ErrorView::InvalidContractAddr(address->0@))
    } else if abi is Missing {
        Some(ErrorView::MissingAbiFile(abi_file(kind, version)))
    } else if abi is Invalid {
        Some(ErrorView::InvalidAbi(abi_file(kind, version)))
    } else {
        None
    }
}

/// One monitored contract: what it governs, its generation, where it lives and how to
/// speak to it. No emission-funds contract of the first generation exists: see
/// [`PoaContract::new`].
#[derive(Clone, Debug, PartialEq, Eq)]
pub struct PoaContract {
    pub kind: ContractType,
    pub version: ContractVersion,
    pub addr: Address,
    pub abi: ContractAbi,
}

impl PoaContract {
    /// Whether a contract of this kind exists in this generation.
    pub open spec fn exists_in(kind: ContractType, version: ContractVersion) -> bool {
        !(kind == ContractType::Emission && version == ContractVersion::V1)
    }

    /// The invariant of a contract descriptor.
    pub open spec fn wf(&self) -> bool {
        Self::exists_in(self.kind, self.version)
    }

    /// Describes a contract. Fails with [`Error::EmissionFundsV1ContractDoesNotExist`]
    /// for the emission-funds contract in the first generation, whatever the address and
    /// the interface, and for nothing else.
    pub fn new(kind: ContractType, version: ContractVersion, addr: Address, abi: ContractAbi) -> (r:
        Result<Self, Error>)
        ensures
            r == (if Self::exists_in(kind, version) {
                Ok::<Self, Error>(PoaContract { kind, version, addr, abi })
            } else {
                Err::<Self, Error>(Error::EmissionFundsV1ContractDoesNotExist)
            }),
            r matches Ok(contract) ==> contract.wf(),
    {
        if kind.is_emission() && version.is_v1() {
            return Err(Error::EmissionFundsV1ContractDoesNotExist);
        }
        Ok(PoaContract { kind, version, addr, abi })
    }

    /// Describes the contract of a kind on a network, from what was found in the
    /// variable [`address_env_var`] and in the file [`abi_path`]. Refuses with the
    /// first reason that [`read_refusal`] finds, and only then.
    pub fn read(
        contract_type: ContractType,
        network: Network,
        version: ContractVersion,
        address: Option<String>,
        abi: AbiFile,
    ) -> (r: Result<Self, Error>)
        ensures
            match read_refusal(contract_type, network, version, address, abi) {
                Some(e) => r matches Err(actual) && actual@ == e,
                None => {
                    &&& r matches Ok(contract)
                    &&& contract.kind == contract_type
                    &&& contract.version == version
                    &&& is_address_of(contract.addr, strip_0x(address->0@))
                    &&& contract.abi == abi->Loaded_0
                    &&& contract.wf()
                },
            },
    {
        if contract_type.is_emission() && version.is_v1() {
            return Err(Error::EmissionFundsV1ContractDoesNotExist);
        }
        let text = match address {
            Some(text) => text,
            None => {
                return Err(Error::MissingEnvVar(address_env_var(contract_type, network, version)));
            },
        };
        let addr = match parse_address(trim_0x(text.as_str())) {
            Some(addr) => addr,
            None => {
                return Err(Error::InvalidContractAddr(text));
            },
        };
        match abi {
            AbiFile::Missing => Err(Error::MissingAbiFile(abi_path(contract_type, version))),
            AbiFile::Invalid => Err(Error::InvalidAbi(abi_path(contract_type, version))),
            AbiFile::Loaded(abi) => Ok(PoaContract { kind: contract_type, version, addr, abi }),
        }
    }

    /// The event of the given name. An interface without one is [`Error::InvalidAbi`]
    /// with the name.
    pub fn event(&self, event: &str) -> (r: Result<&AbiEvent, Error>)
        ensures
            match first_event(self.abi.events@, event@) {
                Some(found) => r == Ok::<&AbiEvent, Error>(&found),
                None => r matches Err(e) && e@ == ErrorView::InvalidAbi(event@),
            },
    {
        match self.abi.event(event) {
            Some(found) => Ok(found),
            None => Err(Error::InvalidAbi(event.to_owned())),
        }
    }

    /// The function of the given name. An interface without one is
    /// [`Error::InvalidAbi`] with the name.
    pub fn function(&self, function: &str) -> (r: Result<&AbiFunction, Error>)
        ensures
            match first_function(self.abi.functions@, function@) {
                Some(found) => r == Ok::<&AbiFunction, Error>(&found),
                None => r matches Err(e) && e@ == ErrorView::InvalidAbi(function@),
            },
    {
        match self.abi.function(function) {
            Some(found) => Ok(found),
            None => Err(Error::InvalidAbi(function.to_owned())),
        }
    }
}

/// Everything a run is configured with.
#[derive(Clone, Debug, PartialEq, Eq)]
pub struct Config {
    pub network: Network,
    /// The URL of the JSON-RPC endpoint.
    pub endpoint: String,
    pub version: ContractVersion,
    pub contracts: Vec<PoaContract>,
    pub start_block: StartBlock,
    /// The seconds to wait between two looks at the chain.
    pub block_time: u64,
    pub email_notifications: bool,
    pub email_recipients: Vec<String>,
    pub smtp_host_domain: Option<String>,
    pub smtp_port: Option<u16>,
    pub smtp_username: Option<String>,
    pub smtp_password: Option<String>,
    pub outgoing_email_addr: Option<String>,
    /// After so many notifications the run ends.
    pub notification_limit: Option<usize>,
    pub log_emails: bool,
    pub log_to_file: bool,
}

/// The seconds between two looks at the chain where the command line names none.
pub const DEFAULT_BLOCK_TIME_SECS: u64 = 30;

/// What the environment holds of the variables that a run reads. A variable that is not
/// set is absent.
#[derive(Clone, Debug, PartialEq, Eq)]
pub struct Environment {
    /// `CORE_RPC_ENDPOINT`, `SOKOL_RPC_ENDPOINT` or `XDAI_RPC_ENDPOINT`, by the network
    /// that the command line names.
    pub endpoint: Option<String>,
    /// `EMAIL_RECIPIENTS`: addresses, separated by commas.
    pub email_recipients: Option<String>,
    /// `SMTP_HOST_DOMAIN`.
    pub smtp_host_domain: Option<String>,
    /// `SMTP_PORT`.
    pub smtp_port: Option<String>,
    /// `SMTP_USERNAME`.
    pub smtp_username: Option<String>,
    /// `SMTP_PASSWORD`.
    pub smtp_password: Option<String>,
    /// `OUTGOING_EMAIL_ADDRESS`.
    pub outgoing_email_addr: Option<String>,
}

/// The pieces of a text between its commas. A text without a comma is one piece, be it
/// empty; two commas in a row hold an empty piece.
pub open spec fn split_commas(s: Seq<char>) -> Seq<Seq<char>>
    decreases s.len(),
{
    if s.len() == 0 {
        seq![Seq::empty()]
    } else {
        let before = split_commas(s.drop_last());
        if s.last() == ',' {
            before.push(Seq::empty())
        } else {
            before.update(before.len() - 1, before.last().push(s.last()))
        }
    }
}

/// The texts of a list of strings.
pub open spec fn texts(strings: Seq<String>) -> Seq<Seq<char>> {
    Seq::new(strings.len(), |i: int| strings[i]@)
}

/// Splits a text at its commas.
pub fn split_at_commas(s: &str) -> (r: Vec<String>)
    ensures
        texts(r@) == split_commas(s@),
{
    let n = s.unicode_len();
    let mut pieces: Vec<String> = Vec::new();
    let mut start: usize = 0;
    let mut i: usize = 0;
    assert(s@.take(0) =~= Seq::<char>::empty());
    assert(s@.subrange(0, 0) =~= Seq::<char>::empty());
    while i < n
        invariant
            start <= i <= n,
            n == s@.len(),
            split_commas(s@.take(i as int)) == texts(pieces@).push(
                s@.subrange(start as int, i as int),
            ),
        decreases n - i,
    {
        let ghost next = s@.take(i + 1);
        assert(next.drop_last() =~= s@.take(i as int));
        assert(next.last() == s@[i as int]);
        if s.get_char(i) == ',' {
            let piece = s.substring_char(start, i).to_owned();
            let ghost before = texts(pieces@);
            pieces.push(piece);
            start = i + 1;
            assert(texts(pieces@) =~= before.push(piece@));
            assert(s@.subrange(start as int, i + 1) =~= Seq::<char>::empty());
        } else {
            assert(s@.subrange(start as int, i + 1) =~= s@.subrange(start as int, i as int).push(
                s@[i as int],
            ));
            assert(split_commas(next) =~= texts(pieces@).push(s@.subrange(start as int, i + 1)));
        }
        i = i + 1;
    }
    assert(s@.take(n as int) =~= s@);
    let last = s.substring_char(start, n).to_owned();
    let ghost before = texts(pieces@);
    pieces.push(last);
    assert(texts(pieces@) =~= before.push(last@));
    pieces
}

/// How a walk begins according to the command line, once it is known that exactly one
/// way to start is named. A value that is no number is refused with the value.
pub open spec fn start_block_of(cli: Cli) -> Result<StartBlock, ErrorView> {
    if cli.earliest {
        Ok(StartBlock::Earliest)
    } else if cli.latest {
        Ok(StartBlock::Latest)
    } else if cli.start_block is Some {
        match parse_u64(cli.start_block->0@, 10) {
            Some(block_number) => Ok(StartBlock::Number(block_number)),
            None => Err(ErrorView::InvalidStartBlock(cli.start_block->0@)),
        }
    } else if cli.tail is Some {
        match parse_u64(cli.tail->0@, 10) {
            Some(tail) => Ok(StartBlock::Tail(tail)),
            None => Err(ErrorView::InvalidTail(cli.tail->0@)),
        }
    } else {
        Ok(StartBlock::Latest)
    }
}

/// The seconds between two looks at the chain: what the command line says, or
/// [`DEFAULT_BLOCK_TIME_SECS`].
pub open spec fn block_time_of(cli: Cli) -> Result<u64, ErrorView> {
    match cli.block_time {
        Some(text) => match parse_u64(text@, 10) {
            Some(seconds) => Ok(seconds),
            None => Err(ErrorView::InvalidBlockTime(text@)),
        },
        None => Ok(DEFAULT_BLOCK_TIME_SECS),
    }
}

/// The SMTP port that the environment names: a decimal number up to 65535.
pub open spec fn smtp_port_of(text: Seq<char>) -> Option<u16> {
    match parse_u64(text, 10) {
        Some(port) => if port <= u16::MAX {
            Some(port as u16)
        } else {
            None
        },
        None => None,
    }
}

/// The notification limit that the command line names, if it names one.
pub open spec fn notification_limit_of(cli: Cli) -> Result<Option<usize>, ErrorView> {
    match cli.notification_limit {
        Some(text) => match parse_u64(text@, 10) {
            Some(limit) => if limit <= usize::MAX {
                Ok(Some(limit as usize))
            } else {
                Err(ErrorView::InvalidNotificationLimit(text@))
            },
            None => Err(ErrorView::InvalidNotificationLimit(text@)),
        },
        None => Ok(None),
    }
}

/// The first reason to refuse a command line as it stands, before anything is read
/// from the environment: not exactly one network; both generations; no kind of
/// contract; the first generation on xDai, or with the emission-funds contract; not
/// exactly one way to start.
pub open spec fn cli_refusal(cli: Cli) -> Option<ErrorView> {
    if !cli.spec_one_network_specified() {
        Some(ErrorView::MustSpecifyOneCliArgument("--core, --sokol"@))
    } else if cli.v1 && cli.v2 {
        Some(ErrorView::MustSpecifyZeroOrOneCliArguments("--v1, --v2"@))
    } else if cli.spec_no_contracts_specified() {
        Some(ErrorView::MustSpecifyAtLeastOneCliArgument("--keys, --threshold, --proxy, --emission"@))
    } else if cli.v1 && cli.xdai {
        Some(ErrorView::V1ContractsWereNotDeployedToXDaiChain)
    } else if cli.v1 && cli.emission {
        Some(ErrorView::EmissionFundsV1ContractDoesNotExist)
    } else if !cli.spec_one_start_block_was_specified() {
        Some(ErrorView::MustSpecifyOneCliArgument("--earliest, --latest, --start-block, --tail"@))
    } else {
        None
    }
}

/// The first reason to refuse the mail settings of a run that sends mail: a variable
/// that is not set, in the order host, port, user, password, sender, or a port that is
/// no port number.
pub open spec fn smtp_refusal(env: Environment) -> Option<ErrorView> {
    if env.smtp_host_domain is None {
        Some(ErrorView::MissingEnvVar("SMTP_HOST_DOMAIN"@))
    } else if env.smtp_port is None {
        Some(ErrorView::MissingEnvVar("SMTP_PORT"@))
    } else if smtp_port_of(env.smtp_port->0@) is None {
        Some(ErrorView::InvalidSmtpPort(env.smtp_port->0@))
    } else if env.smtp_username is None {
        Some(ErrorView::MissingEnvVar("SMTP_USERNAME"@))
    } else if env.smtp_password is None {
        Some(ErrorView::MissingEnvVar("SMTP_PASSWORD"@))
    } else if env.outgoing_email_addr is None {
        Some(ErrorView::MissingEnvVar("OUTGOING_EMAIL_ADDRESS"@))
    } else {
        None
    }
}

/// The first reason to refuse a run, in the order in which its settings are looked at:
/// the command line on its own; the endpoint; the contracts; where to start; the block
/// time; the recipients; the mail settings, if mail is sent; the notification limit.
pub open spec fn refusal(
    cli: Cli,
    env: Environment,
    contracts: Result<Vec<PoaContract>, Error>,
) -> Option<ErrorView> {
    if cli_refusal(cli) is Some {
        cli_refusal(cli)
    } else if env.endpoint is None {
        Some(ErrorView::MissingEnvVar(cli.spec_network().spec_uppercase() + "_RPC_ENDPOINT"@))
    } else if contracts is Err {
        Some(contracts->Err_0@)
    } else if start_block_of(cli) is Err {
        Some(start_block_of(cli)->Err_0)
    } else if block_time_of(cli) is Err {
        Some(block_time_of(cli)->Err_0)
    } else if env.email_recipients is None {
        Some(ErrorView::MissingEnvVar("EMAIL_RECIPIENTS"@))
    } else if cli.email && smtp_refusal(env) is Some {
        smtp_refusal(env)
    } else if notification_limit_of(cli) is Err {
        Some(notification_limit_of(cli)->Err_0)
    } else {
        None
    }
}

/// Whether a configuration is what the command line, the environment and the contracts
/// make, given that there is no reason to refuse them.
pub open spec fn configures(
    config: Config,
    cli: Cli,
    env: Environment,
    contracts: Vec<PoaContract>,
) -> bool {
    &&& config.network == cli.spec_network()
    &&& config.endpoint == env.endpoint->0
    &&& config.version == cli.spec_version()
    &&& config.contracts == contracts
    &&& Ok::<StartBlock, ErrorView>(config.start_block) == start_block_of(cli)
    &&& Ok::<u64, ErrorView>(config.block_time) == block_time_of(cli)
    &&& config.email_notifications == cli.email
    &&& texts(config.email_recipients@) == split_commas(env.email_recipients->0@)
    &&& config.smtp_host_domain == (if cli.email {
        env.smtp_host_domain
    } else {
        None
    })
    &&& config.smtp_port == (if cli.email {
        smtp_port_of(env.smtp_port->0@)
    } else {
        None
    })
    &&& config.smtp_username == (if cli.email {
        env.smtp_username
    } else {
        None
    })
    &&& config.smtp_password == (if cli.email {
        env.smtp_password
    } else {
        None
    })
    &&& config.outgoing_email_addr == (if cli.email {
        env.outgoing_email_addr
    } else {
        None
    })
    &&& Ok::<Option<usize>, ErrorView>(config.notification_limit) == notification_limit_of(cli)
    &&& config.log_emails == cli.log_emails
    &&& config.log_to_file == cli.log_to_file
}

/// Checks the command line on its own.
pub fn check_cli(cli: &Cli) -> (r: Result<(), Error>)
    ensures
        match cli_refusal(*cli) {
            Some(e) => r matches Err(actual) && actual@ == e,
            None => r is Ok,
        },
{
    if !cli.one_network_specified() {
        return Err(Error::MustSpecifyOneCliArgument("--core, --sokol".to_owned()));
    }
    if cli.multiple_versions_specified() {
        return Err(Error::MustSpecifyZeroOrOneCliArguments("--v1, --v2".to_owned()));
    }
    if cli.no_contracts_specified() {
        return Err(
            Error::MustSpecifyAtLeastOneCliArgument(
                "--keys, --threshold, --proxy, --emission".to_owned(),
            ),
        );
    }
    if cli.v1() {
        if cli.xdai() {
            return Err(Error::V1ContractsWereNotDeployedToXDaiChain);
        }
        if cli.emission() {
            return Err(Error::EmissionFundsV1ContractDoesNotExist);
        }
    }
    if !cli.one_start_block_was_specified() {
        return Err(
            Error::MustSpecifyOneCliArgument(
                "--earliest, --latest, --start-block, --tail".to_owned(),
            ),
        );
    }
    Ok(())
}

/// Reads how the walk begins.
fn read_start_block(cli: &Cli) -> (r: Result<StartBlock, Error>)
    ensures
        agrees(r, start_block_of(*cli)),
{
    if cli.earliest() {
        Ok(StartBlock::Earliest)
    } else if cli.latest() {
        Ok(StartBlock::Latest)
    } else if let Some(text) = cli.start_block() {
        match parse_decimal_u64(text) {
            Some(block_number) => Ok(StartBlock::Number(block_number)),
            None => Err(Error::InvalidStartBlock(text.to_owned())),
        }
    } else if let Some(text) = cli.tail() {
        match parse_decimal_u64(text) {
            Some(tail) => Ok(StartBlock::Tail(tail)),
            None => Err(Error::InvalidTail(text.to_owned())),
        }
    } else {
        Ok(StartBlock::Latest)
    }
}

/// Reads the block time.
fn read_block_time(cli: &Cli) -> (r: Result<u64, Error>)
    ensures
        agrees(r, block_time_of(*cli)),
{
    match cli.block_time() {
        Some(text) => match parse_decimal_u64(text) {
            Some(seconds) => Ok(seconds),
            None => Err(Error::InvalidBlockTime(text.to_owned())),
        },
        None => Ok(DEFAULT_BLOCK_TIME_SECS),
    }
}

/// Reads an SMTP port.
fn read_smtp_port(text: &str) -> (r: Option<u16>)
    ensures
        r == smtp_port_of(text@),
{
    match parse_decimal_u64(text) {
        Some(port) => if port <= 65535 {
            Some(port as u16)
        } else {
            None
        },
        None => None,
    }
}

/// Reads the notification limit.
fn read_notification_limit(cli: &Cli) -> (r: Result<Option<usize>, Error>)
    ensures
        agrees(r, notification_limit_of(*cli)),
{
    match cli.notification_limit() {
        Some(text) => match parse_decimal_u64(text) {
            Some(limit) => if limit <= usize::MAX as u64 {
                Ok(Some(limit as usize))
            } else {
                Err(Error::InvalidNotificationLimit(text.to_owned()))
            },
            None => Err(Error::InvalidNotificationLimit(text.to_owned())),
        },
        None => Ok(None),
    }
}

impl Config {
    /// Makes the configuration of a run from the command line, from what the
    /// environment holds, and from the contracts that were read for the command line's
    /// network and generation, or the reason why they could not be read. Refuses with
    /// the first reason that [`refusal`] finds, and only then.
    pub fn new(cli: &Cli, env: Environment, contracts: Result<Vec<PoaContract>, Error>) -> (r:
        Result<Self, Error>)
        ensures
            match refusal(*cli, env, contracts) {
                Some(e) => r matches Err(actual) && actual@ == e,
                None => r matches Ok(config) && configures(config, *cli, env, contracts->Ok_0),
            },
    {
        match check_cli(cli) {
            Ok(()) => {},
            Err(e) => {
                return Err(e);
            },
        }
        let network = cli.network();
        let version = cli.version();
        let endpoint = match env.endpoint {
            Some(endpoint) => endpoint,
            None => {
                return Err(
                    Error::MissingEnvVar(network.uppercase().to_owned().concat("_RPC_ENDPOINT")),
                );
            },
        };
        let contracts = match contracts {
            Ok(contracts) => contracts,
            Err(e) => {
                return Err(e);
            },
        };
        let start_block = match read_start_block(cli) {
            Ok(start_block) => start_block,
            Err(e) => {
                return Err(e);
            },
        };
        let block_time = match read_block_time(cli) {
            Ok(block_time) => block_time,
            Err(e) => {
                return Err(e);
            },
        };
        let email_notifications = cli.email();
        let email_recipients = match env.email_recipients {
            Some(recipients) => split_at_commas(recipients.as_str()),
            None => {
                return Err(Error::MissingEnvVar("EMAIL_RECIPIENTS".to_owned()));
            },
        };
        let mut smtp_host_domain: Option<String> = None;
        let mut smtp_port: Option<u16> = None;
        let mut smtp_username: Option<String> = None;
        let mut smtp_password: Option<String> = None;
        let mut outgoing_email_addr: Option<String> = None;
        if email_notifications {
            smtp_host_domain = match env.smtp_host_domain {
                Some(host) => Some(host),
                None => {
                    return Err(Error::MissingEnvVar("SMTP_HOST_DOMAIN".to_owned()));
                },
            };
            smtp_port = match env.smtp_port {
                Some(text) => match read_smtp_port(text.as_str()) {
                    Some(port) => Some(port),
                    None => {
                        return Err(Error::InvalidSmtpPort(text));
                    },
                },
                None => {
                    return Err(Error::MissingEnvVar("SMTP_PORT".to_owned()));
                },
            };
            smtp_username = match env.smtp_username {
                Some(username) => Some(username),
                None => {
                    return Err(Error::MissingEnvVar("SMTP_USERNAME".to_owned()));
                },
            };
            smtp_password = match env.smtp_password {
                Some(password) => Some(password),
                None => {
                    return Err(Error::MissingEnvVar("SMTP_PASSWORD".to_owned()));
                },
            };
            outgoing_email_addr = match env.outgoing_email_addr {
                Some(address) => Some(address),
                None => {
                    return Err(Error::MissingEnvVar("OUTGOING_EMAIL_ADDRESS".to_owned()));
                },
            };
        }
        let notification_limit = match read_notification_limit(cli) {
            Ok(limit) => limit,
            Err(e) => {
                return Err(e);
            },
        };
        Ok(
            Config {
                network,
                endpoint,
                version,
                contracts,
                start_block,
                block_time,
                email_notifications,
                email_recipients,
                smtp_host_domain,
                smtp_port,
                smtp_username,
                smtp_password,
                outgoing_email_addr,
                notification_limit,
                log_emails: cli.log_emails(),
                log_to_file: cli.log_to_file(),
            },
        )
    }
}

} // verus!
