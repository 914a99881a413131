//! What both contract generations share: the enumerations, the `BallotCreated` log, and
//! the routine that reads a contract's output against a schema.

use vstd::prelude::*;

use vstd::std_specs::convert::TryFromSpecImpl;
use vstd::string::StringExecFns;

use crate::abi::{is_named, AbiValue, LogParam};
use crate::error::{agrees, Error, ErrorView};
use crate::primitives::{Address, U256};
use crate::response::v1::QuorumState;
use crate::primitives::pow2_64;
use crate::utils::{datetime_of, u256_to_datetime, UtcTime};

verus! {

/// The kind of key that a keys ballot is about.
#[derive(Clone, Copy, Debug, PartialEq, Eq, Structural)]
pub enum KeyType {
    InvalidKey,
    MiningKey,
    VotingKey,
    PayoutKey,
}

impl KeyType {
    /// The key type that a contract writes as this number.
    pub open spec fn of_code(code: nat) -> Option<KeyType> {
        if code == 0 {
            Some(KeyType::InvalidKey)
        } else if code == 1 {
            Some(KeyType::MiningKey)
        } else if code == 2 {
            Some(KeyType::VotingKey)
        } else if code == 3 {
            Some(KeyType::PayoutKey)
        } else {
            None
        }
    }
}

impl TryFrom<U256> for KeyType {
    type Error = Error;

    /// Reads a key type. A code above 3 is [`Error::UnrecognizedKeyType`], however large.
    fn try_from(code: U256) -> (r: Result<Self, Error>) {
        match code.as_u64() {
            Some(0) => Ok(KeyType::InvalidKey),
            Some(1) => Ok(KeyType::MiningKey),
            Some(2) => Ok(KeyType::VotingKey),
            Some(3) => Ok(KeyType::PayoutKey),
            _ => Err(Error::UnrecognizedKeyType),
        }
    }
}

impl TryFromSpecImpl<U256> for KeyType {
    open spec fn obeys_try_from_spec() -> bool {
        true
    }

    open spec fn try_from_spec(code: U256) -> Result<Self, Error> {
        match KeyType::of_code(code@) {
            Some(key_type) => Ok(key_type),
            None => Err(Error::UnrecognizedKeyType),
        }
    }
}

/// What a ballot proposes. The first contract generation never uses `Emission`.
#[derive(Clone, Copy, Debug, PartialEq, Eq, Structural)]
pub enum BallotType {
    InvalidKey,
    AddKey,
    RemoveKey,
    SwapKey,
    Threshold,
    Proxy,
    Emission,
}

impl BallotType {
    /// The ballot type that a contract writes as this number.
    pub open spec fn of_code(code: nat) -> Option<BallotType> {
        if code == 0 {
            Some(BallotType::InvalidKey)
        } else if code == 1 {
            Some(BallotType::AddKey)
        } else if code == 2 {
            Some(BallotType::RemoveKey)
        } else if code == 3 {
            Some(BallotType::SwapKey)
        } else if code == 4 {
            Some(BallotType::Threshold)
        } else if code == 5 {
            Some(BallotType::Proxy)
        } else if code == 6 {
            Some(BallotType::Emission)
        } else {
            None
        }
    }
}

impl TryFrom<U256> for BallotType {
    type Error = Error;

    /// Reads a ballot type, from a contract's output or from a log topic. A code above 6
    /// is [`Error::UnrecognizedBallotType`], however large.
    fn try_from(code: U256) -> (r: Result<Self, Error>) {
        match code.as_u64() {
            Some(0) => Ok(BallotType::InvalidKey),
            Some(1) => Ok(BallotType::AddKey),
            Some(2) => Ok(BallotType::RemoveKey),
            Some(3) => Ok(BallotType::SwapKey),
            Some(4) => Ok(BallotType::Threshold),
            Some(5) => Ok(BallotType::Proxy),
            Some(6) => Ok(BallotType::Emission),
            _ => Err(Error::UnrecognizedBallotType),
        }
    }
}

impl TryFromSpecImpl<U256> for BallotType {
    open spec fn obeys_try_from_spec() -> bool {
        true
    }

    open spec fn try_from_spec(code: U256) -> Result<Self, Error> {
        match BallotType::of_code(code@) {
            Some(ballot_type) => Ok(ballot_type),
            None => Err(Error::UnrecognizedBallotType),
        }
    }
}

/// A `BallotCreated` event: a ballot with this identifier was opened in this block.
#[derive(Clone, Copy, Debug, PartialEq, Eq)]
pub struct BallotCreatedLog {
    pub block_number: u64,
    pub ballot_id: U256,
    pub ballot_type: BallotType,
    pub creator: Address,
}

/// What has been found of a `BallotCreated` log's fields.
#[derive(Clone, Copy, Debug, PartialEq, Eq)]
pub struct LogScan {
    pub ballot_id: Option<U256>,
    pub ballot_type: Option<BallotType>,
    pub creator: Option<Address>,
}

/// What one parameter adds to what has been found. `id` and `creator` take the
/// parameter's value where it is of the right kind, and are lost again where it is not;
/// `ballotType` likewise, but a number that is no ballot type is an error at once, and so
/// is a parameter of any other name.
pub open spec fn scan_param(scan: LogScan, param: LogParam) -> Result<LogScan, ErrorView> {
    if param.name@ == "id"@ {
        Ok(LogScan { ballot_id: param.value.uint(), ballot_type: scan.ballot_type, creator: scan.creator })
    } else if param.name@ == "ballotType"@ {
        match param.value.uint() {
            Some(code) => match BallotType::of_code(code@) {
                Some(ballot_type) => Ok(
                    LogScan {
                        ballot_id: scan.ballot_id,
                        ballot_type: Some(ballot_type),
                        creator: scan.creator,
                    },
                ),
                None => Err(ErrorView::UnrecognizedBallotType),
            },
            None => Ok(LogScan { ballot_id: scan.ballot_id, ballot_type: None, creator: scan.creator }),
        }
    } else if param.name@ == "creator"@ {
        Ok(
            LogScan {
                ballot_id: scan.ballot_id,
                ballot_type: scan.ballot_type,
                creator: param.value.address(),
            },
        )
    } else {
        Err(ErrorView::FailedToParseBallotCreatedLog("unknown field: "@ + param.name@))
    }
}

/// What a log's parameters hold, read in order; the first error ends the reading.
pub open spec fn scan_params(params: Seq<LogParam>) -> Result<LogScan, ErrorView>
    decreases params.len(),
{
    if params.len() == 0 {
        Ok(LogScan { ballot_id: None, ballot_type: None, creator: None })
    } else {
        match scan_params(params.drop_last()) {
            Err(e) => Err(e),
            Ok(scan) => scan_param(scan, params.last()),
        }
    }
}

/// The ballot that a parsed `BallotCreated` log announces. After the parameters are read,
/// the first of `id`, `ballotType` and `creator` that was not found is reported missing.
pub open spec fn ballot_created_log(params: Seq<LogParam>, block_number: u64) -> Result<
    BallotCreatedLog,
    ErrorView,
> {
    match scan_params(params) {
        Err(e) => Err(e),
        Ok(scan) => if scan.ballot_id is None {
            Err(ErrorView::FailedToParseBallotCreatedLog("missing `id`"@))
        } else if scan.ballot_type is None {
            Err(ErrorView::FailedToParseBallotCreatedLog("missing `ballot_type`"@))
        } else if scan.creator is None {
            Err(ErrorView::FailedToParseBallotCreatedLog("missing `creator`"@))
        } else {
            Ok(
                BallotCreatedLog {
                    block_number,
                    ballot_id: scan.ballot_id->0,
                    ballot_type: scan.ballot_type->0,
                    creator: scan.creator->0,
                },
            )
        },
    }
}

/// Adds one parameter to what has been found.
fn read_param(scan: LogScan, param: &LogParam) -> (r: Result<LogScan, Error>)
    ensures
        agrees(r, scan_param(scan, *param)),
{
    if is_named(&param.name, "id") {
        Ok(LogScan { ballot_id: param.value.to_uint(), ballot_type: scan.ballot_type, creator: scan.creator })
    } else if is_named(&param.name, "ballotType") {
        match param.value.to_uint() {
            Some(code) => match BallotType::try_from(code) {
                Ok(ballot_type) => Ok(
                    LogScan {
                        ballot_id: scan.ballot_id,
                        ballot_type: Some(ballot_type),
                        creator: scan.creator,
                    },
                ),
                Err(e) => Err(e),
            },
            None => Ok(LogScan { ballot_id: scan.ballot_id, ballot_type: None, creator: scan.creator }),
        }
    } else if is_named(&param.name, "creator") {
        Ok(
            LogScan {
                ballot_id: scan.ballot_id,
                ballot_type: scan.ballot_type,
                creator: param.value.to_address(),
            },
        )
    } else {
        Err(
            Error::FailedToParseBallotCreatedLog(
                "unknown field: ".to_owned().concat(param.name.as_str()),
            ),
        )
    }
}

/// An error among the first parameters is the error of them all.
proof fn lemma_scan_prefix_error(params: Seq<LogParam>, k: int)
    requires
        0 <= k <= params.len(),
    ensures
        scan_params(params.take(k)) matches Err(e) ==> scan_params(params) == Err::<
            LogScan,
            ErrorView,
        >(e),
    decreases params.len() - k,
{
    if k == params.len() {
        assert(params.take(k) =~= params);
    } else {
        lemma_scan_prefix_error(params.drop_last(), k);
        assert(params.drop_last().take(k) =~= params.take(k));
    }
}

impl BallotCreatedLog {
    /// Reads the ballot that a parsed `BallotCreated` log announces, in the block that the
    /// log was found in.
    pub fn from_ethabi_log(params: &Vec<LogParam>, block_number: u64) -> (r: Result<Self, Error>)
        ensures
            agrees(r, ballot_created_log(params@, block_number)),
    {
        let mut scan = LogScan { ballot_id: None, ballot_type: None, creator: None };
        let mut i: usize = 0;
        assert(params@.take(0) =~= Seq::<LogParam>::empty());
        while i < params.len()
            invariant
                i <= params.len(),
                scan_params(params@.take(i as int)) == Ok::<LogScan, ErrorView>(scan),
            decreases params.len() - i,
        {
            let ghost next = params@.take(i + 1);
            assert(next.drop_last() =~= params@.take(i as int));
            assert(next.last() == params@[i as int]);
            proof {
                lemma_scan_prefix_error(params@, i + 1);
            }
            match read_param(scan, &params[i]) {
                Ok(found) => {
                    scan = found;
                },
                Err(e) => {
                    return Err(e);
                },
            }
            i = i + 1;
        }
        assert(params@.take(i as int) =~= params@);
        match (scan.ballot_id, scan.ballot_type, scan.creator) {
            (None, _, _) => Err(Error::FailedToParseBallotCreatedLog("missing `id`".to_owned())),
            (_, None, _) => Err(
                Error::FailedToParseBallotCreatedLog("missing `ballot_type`".to_owned()),
            ),
            (_, _, None) => Err(Error::FailedToParseBallotCreatedLog("missing `creator`".to_owned())),
            (Some(ballot_id), Some(ballot_type), Some(creator)) => Ok(
                BallotCreatedLog { block_number, ballot_id, ballot_type, creator },
            ),
        }
    }
}

/// A log with an unknown ballot type announces no ballot: where a parameter named
/// `ballotType` holds a number above 6, reading the log fails, whatever else it holds.
pub proof fn lemma_unknown_ballot_type_is_rejected(
    params: Seq<LogParam>,
    i: int,
    block_number: u64,
)
    requires
        0 <= i < params.len(),
        params[i].name@ == "ballotType"@,
        params[i].value matches AbiValue::Uint(code) && code@ > 6,
    ensures
        ballot_created_log(params, block_number) is Err,
{
    let upto = params.take(i + 1);
    assert(upto.last() == params[i]);
    assert(upto.drop_last() =~= params.take(i));
    reveal_strlit("ballotType");
    reveal_strlit("id");
    assert("ballotType"@.len() != "id"@.len());
    match scan_params(upto.drop_last()) {
        Ok(scan) => {
            assert(scan_param(scan, params[i]) is Err);
        },
        Err(_) => {},
    }
    lemma_scan_prefix_error(params, i + 1);
}

/// How one position of a contract's output is read.
#[derive(Clone, Copy, Debug, PartialEq, Eq, Structural)]
pub enum FieldKind {
    /// An unsigned integer whose low 64 bits count seconds since the epoch.
    Timestamp,
    /// An unsigned integer, kept whole.
    Uint,
    /// A signed integer, kept as its 256 bits.
    Int,
    Address,
    Bool,
    Text,
    /// An unsigned integer that is a [`KeyType`] code.
    KeyType,
    /// An unsigned integer that is a [`BallotType`] code.
    BallotType,
    /// An unsigned integer that is a [`QuorumState`] code.
    QuorumState,
}

/// One position of a contract's output, read.
#[derive(Clone, Debug, PartialEq, Eq)]
pub enum Field {
    Time(UtcTime),
    Number(U256),
    Addr(Address),
    Flag(bool),
    Text(String),
    Key(KeyType),
    Ballot(BallotType),
    Quorum(QuorumState),
}

impl Field {
    /// Whether the field is what reading a value as `kind` gives.
    pub open spec fn fits(self, kind: FieldKind) -> bool {
        match kind {
            FieldKind::Timestamp => self is Time,
            FieldKind::Uint => self is Number,
            FieldKind::Int => self is Number,
            FieldKind::Address => self is Addr,
            FieldKind::Bool => self is Flag,
            FieldKind::Text => self is Text,
            FieldKind::KeyType => self is Key,
            FieldKind::BallotType => self is Ballot,
            FieldKind::QuorumState => self is Quorum,
        }
    }
}

/// One value read as the given kind. A value of another kind than the schema expects is
/// [`Error::MalformedOutput`]; a code or a second count out of range has its own error.
pub open spec fn field_of(kind: FieldKind, value: AbiValue) -> Result<Field, Error> {
    match (kind, value) {
        (FieldKind::Timestamp, AbiValue::Uint(word)) => match datetime_of(word@ % pow2_64()) {
            Some(moment) => Ok(Field::Time(moment)),
            None => Err(Error::TimestampOutOfRange),
        },
        (FieldKind::Uint, AbiValue::Uint(word)) => Ok(Field::Number(word)),
        (FieldKind::Int, AbiValue::Int(word)) => Ok(Field::Number(word)),
        (FieldKind::Address, AbiValue::Address(address)) => Ok(Field::Addr(address)),
        (FieldKind::Bool, AbiValue::Bool(flag)) => Ok(Field::Flag(flag)),
        (FieldKind::Text, AbiValue::String(text)) => Ok(Field::Text(text)),
        (FieldKind::KeyType, AbiValue::Uint(word)) => match KeyType::of_code(word@) {
            Some(key_type) => Ok(Field::Key(key_type)),
            None => Err(Error::UnrecognizedKeyType),
        },
        (FieldKind::BallotType, AbiValue::Uint(word)) => match BallotType::of_code(word@) {
            Some(ballot_type) => Ok(Field::Ballot(ballot_type)),
            None => Err(Error::UnrecognizedBallotType),
        },
        (FieldKind::QuorumState, AbiValue::Uint(word)) => match QuorumState::of_code(word@) {
            Some(state) => Ok(Field::Quorum(state)),
            None => Err(Error::UnrecognizedQuorumState),
        },
        _ => Err(Error::MalformedOutput),
    }
}

/// A contract's output read against a schema, position by position. The first position
/// that cannot be read decides the error; an output shorter than the schema is
/// [`Error::MalformedOutput`] at the first position it lacks. Values beyond the schema
/// are not looked at.
pub open spec fn fields_of(schema: Seq<FieldKind>, values: Seq<AbiValue>) -> Result<
    Seq<Field>,
    Error,
>
    decreases schema.len(),
{
    if schema.len() == 0 {
        Ok(Seq::empty())
    } else {
        match fields_of(schema.drop_last(), values) {
            Err(e) => Err(e),
            Ok(fields) => if values.len() < schema.len() {
                Err(Error::MalformedOutput)
            } else {
                match field_of(schema.last(), values[schema.len() - 1]) {
                    Ok(field) => Ok(fields.push(field)),
                    Err(e) => Err(e),
                }
            },
        }
    }
}

/// Whether the fields are as many as the schema's positions, each of its position's kind.
pub open spec fn fields_fit(fields: Seq<Field>, schema: Seq<FieldKind>) -> bool {
    &&& fields.len() == schema.len()
    &&& forall|i: int| 0 <= i < schema.len() ==> (#[trigger] fields[i]).fits(schema[i])
}

/// Whatever is read against a schema fits the schema.
proof fn lemma_fields_fit(schema: Seq<FieldKind>, values: Seq<AbiValue>)
    ensures
        fields_of(schema, values) matches Ok(fields) ==> fields_fit(fields, schema),
    decreases schema.len(),
{
    if schema.len() > 0 {
        lemma_fields_fit(schema.drop_last(), values);
    }
}

/// Whether a field says of a value what reading the value as `kind` should: the same
/// number, address, flag or text; for a timestamp, the value's low 64 bits as a count
/// of seconds; for a code, the variant that the whole number stands for.
pub open spec fn holds(field: Field, kind: FieldKind, value: AbiValue) -> bool {
    match kind {
        FieldKind::Timestamp => value matches AbiValue::Uint(word) && field matches Field::Time(
            moment,
        ) && moment.secs == word@ % pow2_64(),
        FieldKind::Uint => field matches Field::Number(word) && value == AbiValue::Uint(word),
        FieldKind::Int => field matches Field::Number(word) && value == AbiValue::Int(word),
        FieldKind::Address => field matches Field::Addr(address) && value == AbiValue::Address(
            address,
        ),
        FieldKind::Bool => field matches Field::Flag(flag) && value == AbiValue::Bool(flag),
        FieldKind::Text => field matches Field::Text(text) && value == AbiValue::String(text),
        FieldKind::KeyType => value matches AbiValue::Uint(word) && field matches Field::Key(
            key_type,
        ) && KeyType::of_code(word@) == Some(key_type),
        FieldKind::BallotType => value matches AbiValue::Uint(word) && field matches Field::Ballot(
            ballot_type,
        ) && BallotType::of_code(word@) == Some(ballot_type),
        FieldKind::QuorumState => value matches AbiValue::Uint(word) && field matches Field::Quorum(
            state,
        ) && QuorumState::of_code(word@) == Some(state),
    }
}

/// Decoding loses and invents nothing: where an output is read against a schema, there
/// is a field for each position of the schema, and each field holds what the value at
/// its position holds.
pub proof fn lemma_fields_hold_the_values(schema: Seq<FieldKind>, values: Seq<AbiValue>)
    ensures
        fields_of(schema, values) matches Ok(fields) ==> {
            &&& fields.len() == schema.len()
            &&& schema.len() <= values.len()
            &&& forall|i: int|
                0 <= i < schema.len() ==> holds(#[trigger] fields[i], schema[i], values[i])
        },
    decreases schema.len(),
{
    if schema.len() > 0 {
        lemma_fields_hold_the_values(schema.drop_last(), values);
    }
}

/// Decoding succeeds where it can: an output that has a value for each position of the
/// schema, each readable as the position's kind, is read.
pub proof fn lemma_readable_values_are_read(schema: Seq<FieldKind>, values: Seq<AbiValue>)
    requires
        schema.len() <= values.len(),
        forall|i: int| 0 <= i < schema.len() ==> (#[trigger] field_of(schema[i], values[i])) is Ok,
    ensures
        fields_of(schema, values) is Ok,
    decreases schema.len(),
{
    if schema.len() > 0 {
        let rest = schema.drop_last();
        assert forall|i: int| 0 <= i < rest.len() implies (#[trigger] field_of(
            rest[i],
            values[i],
        )) is Ok by {
            assert(rest[i] == schema[i]);
        }
        lemma_readable_values_are_read(rest, values);
        assert(field_of(schema[schema.len() - 1], values[schema.len() - 1]) is Ok);
    }
}

/// Reads one value as the given kind.
pub fn read_field(kind: FieldKind, value: &AbiValue) -> (r: Result<Field, Error>)
    ensures
        r == field_of(kind, *value),
{
    match (kind, value) {
        (FieldKind::Timestamp, AbiValue::Uint(word)) => match u256_to_datetime(*word) {
            Ok(moment) => Ok(Field::Time(moment)),
            Err(e) => Err(e),
        },
        (FieldKind::Uint, AbiValue::Uint(word)) => Ok(Field::Number(*word)),
        (FieldKind::Int, AbiValue::Int(word)) => Ok(Field::Number(*word)),
        (FieldKind::Address, AbiValue::Address(address)) => Ok(Field::Addr(*address)),
        (FieldKind::Bool, AbiValue::Bool(flag)) => Ok(Field::Flag(*flag)),
        (FieldKind::Text, AbiValue::String(text)) => Ok(Field::Text(text.clone())),
        (FieldKind::KeyType, AbiValue::Uint(word)) => match KeyType::try_from(*word) {
            Ok(key_type) => Ok(Field::Key(key_type)),
            Err(e) => Err(e),
        },
        (FieldKind::BallotType, AbiValue::Uint(word)) => match BallotType::try_from(*word) {
            Ok(ballot_type) => Ok(Field::Ballot(ballot_type)),
            Err(e) => Err(e),
        },
        (FieldKind::QuorumState, AbiValue::Uint(word)) => match QuorumState::try_from(*word) {
            Ok(state) => Ok(Field::Quorum(state)),
            Err(e) => Err(e),
        },
        _ => Err(Error::MalformedOutput),
    }
}

/// Reads a contract's output against a schema.
pub fn read_fields(schema: &Vec<FieldKind>, values: &Vec<AbiValue>) -> (r: Result<
    Vec<Field>,
    Error,
>)
    ensures
        match fields_of(schema@, values@) {
            Ok(fields) => r matches Ok(read) && read@ == fields && fields_fit(fields, schema@),
            Err(e) => r == Err::<Vec<Field>, Error>(e),
        },
{
    let mut fields: Vec<Field> = Vec::new();
    let mut i: usize = 0;
    assert(schema@.take(0) =~= Seq::<FieldKind>::empty());
    while i < schema.len()
        invariant
            i <= schema.len(),
            fields_of(schema@.take(i as int), values@) == Ok::<Seq<Field>, Error>(fields@),
        decreases schema.len() - i,
    {
        let ghost next = schema@.take(i + 1);
        assert(next.drop_last() =~= schema@.take(i as int));
        assert(next.last() == schema@[i as int]);
        proof {
            lemma_fields_prefix_error(schema@, values@, i + 1);
        }
        if i >= values.len() {
            return Err(Error::MalformedOutput);
        }
        match read_field(schema[i], &values[i]) {
            Ok(field) => {
                fields.push(field);
            },
            Err(e) => {
                return Err(e);
            },
        }
        i = i + 1;
    }
    assert(schema@.take(i as int) =~= schema@);
    proof {
        lemma_fields_fit(schema@, values@);
    }
    Ok(fields)
}

/// An error at a prefix of the schema is the error of the whole.
proof fn lemma_fields_prefix_error(schema: Seq<FieldKind>, values: Seq<AbiValue>, k: int)
    requires
        0 <= k <= schema.len(),
    ensures
        fields_of(schema.take(k), values) matches Err(e) ==> fields_of(schema, values) == Err::<
            Seq<Field>,
            Error,
        >(e),
    decreases schema.len() - k,
{
    if k == schema.len() {
        assert(schema.take(k) =~= schema);
    } else {
        lemma_fields_prefix_error(schema.drop_last(), values, k);
        assert(schema.drop_last().take(k) =~= schema.take(k));
    }
}

/// The moment at a position that holds one.
pub(crate) fn time_at(fields: &Vec<Field>, i: usize) -> (r: UtcTime)
    requires
        i < fields.len(),
        fields[i as int] is Time,
    ensures
        r == fields[i as int]->Time_0,
{
    match &fields[i] {
        Field::Time(moment) => *moment,
        _ => vstd::pervasive::unreached(),
    }
}

/// The number at a position that holds one.
pub(crate) fn number_at(fields: &Vec<Field>, i: usize) -> (r: U256)
    requires
        i < fields.len(),
        fields[i as int] is Number,
    ensures
        r == fields[i as int]->Number_0,
{
    match &fields[i] {
        Field::Number(word) => *word,
        _ => vstd::pervasive::unreached(),
    }
}

/// The address at a position that holds one.
pub(crate) fn address_at(fields: &Vec<Field>, i: usize) -> (r: Address)
    requires
        i < fields.len(),
        fields[i as int] is Addr,
    ensures
        r == fields[i as int]->Addr_0,
{
    match &fields[i] {
        Field::Addr(address) => *address,
        _ => vstd::pervasive::unreached(),
    }
}

/// The flag at a position that holds one.
pub(crate) fn flag_at(fields: &Vec<Field>, i: usize) -> (r: bool)
    requires
        i < fields.len(),
        fields[i as int] is Flag,
    ensures
        r == fields[i as int]->Flag_0,
{
    match &fields[i] {
        Field::Flag(flag) => *flag,
        _ => vstd::pervasive::unreached(),
    }
}

/// The text at a position that holds one.
pub(crate) fn text_at(fields: &Vec<Field>, i: usize) -> (r: String)
    requires
        i < fields.len(),
        fields[i as int] is Text,
    ensures
        r == fields[i as int]->Text_0,
{
    match &fields[i] {
        Field::Text(text) => text.clone(),
        _ => vstd::pervasive::unreached(),
    }
}

/// The key type at a position that holds one.
pub(crate) fn key_type_at(fields: &Vec<Field>, i: usize) -> (r: KeyType)
    requires
        i < fields.len(),
        fields[i as int] is Key,
    ensures
        r == fields[i as int]->Key_0,
{
    match &fields[i] {
        Field::Key(key_type) => *key_type,
        _ => vstd::pervasive::unreached(),
    }
}

/// The ballot type at a position that holds one.
pub(crate) fn ballot_type_at(fields: &Vec<Field>, i: usize) -> (r: BallotType)
    requires
        i < fields.len(),
        fields[i as int] is Ballot,
    ensures
        r == fields[i as int]->Ballot_0,
{
    match &fields[i] {
        Field::Ballot(ballot_type) => *ballot_type,
        _ => vstd::pervasive::unreached(),
    }
}

/// The quorum state at a position that holds one.
pub(crate) fn quorum_state_at(fields: &Vec<Field>, i: usize) -> (r: QuorumState)
    requires
        i < fields.len(),
        fields[i as int] is Quorum,
    ensures
        r == fields[i as int]->Quorum_0,
{
    match &fields[i] {
        Field::Quorum(state) => *state,
        _ => vstd::pervasive::unreached(),
    }
}

} // verus!
