//! A contract's interface as plain data, and the calls into `ethabi` that encode a call,
//! decode its output and read an event log.

use vstd::prelude::*;

use ethabi::Token;
use vstd::utf8::encode_utf8;

use crate::primitives::{Address, H256, U256};

verus! {

/// The kinds of value that the governance contracts take and return.
#[derive(Clone, Copy, Debug, PartialEq, Eq)]
pub enum ParamKind {
    Address,
    /// An unsigned integer of so many bits.
    Uint(usize),
    /// A signed integer of so many bits.
    Int(usize),
    Bool,
    String,
}

/// One value of a call's input or output, or of an event log. The governance records
/// hold addresses, integers, flags and texts; the other variants are there so that
/// every value that `ethabi` knows has its place.
#[derive(Debug, PartialEq, Eq)]
pub enum AbiValue {
    Address(Address),
    FixedBytes(Vec<u8>),
    Bytes(Vec<u8>),
    /// A signed integer, as the 256 bits of its two's complement.
    Int(U256),
    Uint(U256),
    Bool(bool),
    String(String),
    FixedArray(Vec<AbiValue>),
    Array(Vec<AbiValue>),
    Tuple(Vec<AbiValue>),
}

impl AbiValue {
    /// The unsigned integer that the value is, if it is one.
    pub open spec fn uint(self) -> Option<U256> {
        match self {
            AbiValue::Uint(word) => Some(word),
            _ => None,
        }
    }

    /// The address that the value is, if it is one.
    pub open spec fn address(self) -> Option<Address> {
        match self {
            AbiValue::Address(address) => Some(address),
            _ => None,
        }
    }

    /// The unsigned integer that the value is, if it is one.
    pub fn to_uint(&self) -> (r: Option<U256>)
        ensures
            r == self.uint(),
    {
        match self {
            AbiValue::Uint(word) => Some(*word),
            _ => None,
        }
    }

    /// The address that the value is, if it is one.
    pub fn to_address(&self) -> (r: Option<Address>)
        ensures
            r == self.address(),
    {
        match self {
            AbiValue::Address(address) => Some(*address),
            _ => None,
        }
    }
}

/// A function of a contract: its name and the kinds of what it takes and returns.
#[derive(Clone, Debug, PartialEq, Eq)]
pub struct AbiFunction {
    pub name: String,
    pub inputs: Vec<ParamKind>,
    pub outputs: Vec<ParamKind>,
}

/// One parameter of an event.
#[derive(Clone, Debug, PartialEq, Eq)]
pub struct EventInput {
    pub name: String,
    pub kind: ParamKind,
    /// Indexed parameters travel as log topics, the others in the log's data.
    pub indexed: bool,
}

/// An event of a contract.
#[derive(Clone, Debug, PartialEq, Eq)]
pub struct AbiEvent {
    pub name: String,
    pub inputs: Vec<EventInput>,
    pub anonymous: bool,
}

impl AbiEvent {
    /// The kinds of the event's parameters, in order.
    pub open spec fn kinds(self) -> Seq<ParamKind> {
        Seq::new(self.inputs@.len(), |i: int| self.inputs@[i].kind)
    }

    /// The kinds of the event's parameters, in order.
    pub fn param_kinds(&self) -> (r: Vec<ParamKind>)
        ensures
            r@ == self.kinds(),
    {
        let mut kinds: Vec<ParamKind> = Vec::new();
        let mut i: usize = 0;
        while i < self.inputs.len()
            invariant
                i <= self.inputs.len(),
                kinds@ == Seq::new(i as nat, |j: int| self.inputs@[j].kind),
            decreases self.inputs.len() - i,
        {
            kinds.push(self.inputs[i].kind);
            assert(kinds@ =~= Seq::new((i + 1) as nat, |j: int| self.inputs@[j].kind));
            i = i + 1;
        }
        kinds
    }
}

/// The part of a contract's interface that this library looks at.
#[derive(Clone, Debug, PartialEq, Eq)]
pub struct ContractAbi {
    pub functions: Vec<AbiFunction>,
    pub events: Vec<AbiEvent>,
}

/// The first function of the given name, as `ethabi` picks among overloads.
pub open spec fn first_function(functions: Seq<AbiFunction>, name: Seq<char>) -> Option<
    AbiFunction,
>
    decreases functions.len(),
{
    if functions.len() == 0 {
        None
    } else if functions[0].name@ == name {
        Some(functions[0])
    } else {
        first_function(functions.skip(1), name)
    }
}

/// The first event of the given name, as `ethabi` picks among overloads.
pub open spec fn first_event(events: Seq<AbiEvent>, name: Seq<char>) -> Option<AbiEvent>
    decreases events.len(),
{
    if events.len() == 0 {
        None
    } else if events[0].name@ == name {
        Some(events[0])
    } else {
        first_event(events.skip(1), name)
    }
}

/// Whether a name is the given one.
pub(crate) fn is_named(name: &String, expected: &str) -> (r: bool)
    ensures
        r == (name@ == expected@),
{
    *name == expected.to_owned()
}

impl ContractAbi {
    /// The function of the given name, if the interface declares one.
    pub fn function(&self, name: &str) -> (r: Option<&AbiFunction>)
        ensures
            match r {
                Some(function) => first_function(self.functions@, name@) == Some(*function),
                None => first_function(self.functions@, name@) is None,
            },
    {
        let mut i: usize = 0;
        assert(self.functions@.skip(0) =~= self.functions@);
        while i < self.functions.len()
            invariant
                i <= self.functions.len(),
                first_function(self.functions@, name@) == first_function(
                    self.functions@.skip(i as int),
                    name@,
                ),
            decreases self.functions.len() - i,
        {
            assert(self.functions@.skip(i as int)[0] == self.functions@[i as int]);
            assert(self.functions@.skip(i as int).skip(1) =~= self.functions@.skip(i + 1));
            if is_named(&self.functions[i].name, name) {
                return Some(&self.functions[i]);
            }
            i = i + 1;
        }
        None
    }

    /// The event of the given name, if the interface declares one.
    pub fn event(&self, name: &str) -> (r: Option<&AbiEvent>)
        ensures
            match r {
                Some(event) => first_event(self.events@, name@) == Some(*event),
                None => first_event(self.events@, name@) is None,
            },
    {
        let mut i: usize = 0;
        assert(self.events@.skip(0) =~= self.events@);
        while i < self.events.len()
            invariant
                i <= self.events.len(),
                first_event(self.events@, name@) == first_event(self.events@.skip(i as int), name@),
            decreases self.events.len() - i,
        {
            assert(self.events@.skip(i as int)[0] == self.events@[i as int]);
            assert(self.events@.skip(i as int).skip(1) =~= self.events@.skip(i + 1));
            if is_named(&self.events[i].name, name) {
                return Some(&self.events[i]);
            }
            i = i + 1;
        }
        None
    }
}

/// A log as the endpoint returns it.
#[derive(Clone, Debug, PartialEq, Eq)]
pub struct RawLog {
    pub topics: Vec<H256>,
    pub data: Vec<u8>,
    /// Absent while the log's block is still pending.
    pub block_number: Option<u64>,
}

/// One named value of a parsed event log.
#[derive(Debug, PartialEq, Eq)]
pub struct LogParam {
    pub name: String,
    pub value: AbiValue,
}

/// `ethabi::ParamType`: made from a [`ParamKind`] and handed to `ethabi`, never looked
/// into.
#[verifier::external_type_specification]
#[verifier::external_body]
pub struct ExParamType(ethabi::ParamType);

/// `ethabi::Token`: made from an [`AbiValue`], or turned into one, variant for variant.
#[verifier::external_type_specification]
#[verifier::external_body]
pub struct ExToken(ethabi::Token);

/// `ethabi::Event`: made from an [`AbiEvent`] and handed to `ethabi`, never looked into.
#[verifier::external_type_specification]
#[verifier::external_body]
pub struct ExEvent(ethabi::Event);

/// The `ethabi::ParamType` of each kind, in order, variant for variant. Only the
/// functions below that call `ethabi` use it.
#[verifier::external_body]
fn param_types(kinds: &Vec<ParamKind>) -> Vec<ethabi::ParamType> {
    kinds.iter().map(|kind| match kind {
        ParamKind::Address => ethabi::ParamType::Address,
        ParamKind::Uint(bits) => ethabi::ParamType::Uint(*bits),
        ParamKind::Int(bits) => ethabi::ParamType::Int(*bits),
        ParamKind::Bool => ethabi::ParamType::Bool,
        ParamKind::String => ethabi::ParamType::String,
    }).collect()
}

/// Each `ethabi::Token` as an [`AbiValue`], in order. Only [`plain_token`] and the
/// functions below that call `ethabi` use it.
#[verifier::external_body]
fn plain_tokens(tokens: Vec<ethabi::Token>) -> Vec<AbiValue> {
    tokens.into_iter().map(plain_token).collect()
}

/// An `ethabi::Token` as an [`AbiValue`], variant for variant. Only [`plain_tokens`] and
/// [`parse_log`] use it.
#[verifier::external_body]
fn plain_token(token: ethabi::Token) -> AbiValue {
    match token {
        Token::Address(address) => AbiValue::Address(Address { bytes: address.0 }),
        Token::FixedBytes(bytes) => AbiValue::FixedBytes(bytes),
        Token::Bytes(bytes) => AbiValue::Bytes(bytes),
        Token::Int(word) => AbiValue::Int(U256 { limbs: word.0 }),
        Token::Uint(word) => AbiValue::Uint(U256 { limbs: word.0 }),
        Token::Bool(flag) => AbiValue::Bool(flag),
        Token::String(text) => AbiValue::String(text),
        Token::FixedArray(items) => AbiValue::FixedArray(plain_tokens(items)),
        Token::Array(items) => AbiValue::Array(plain_tokens(items)),
        Token::Tuple(items) => AbiValue::Tuple(plain_tokens(items)),
    }
}

/// Each [`AbiValue`] as an `ethabi::Token`, in order. Only [`ethabi_token`] and
/// [`encode_input`] use it.
#[verifier::external_body]
fn ethabi_tokens(values: &Vec<AbiValue>) -> Vec<ethabi::Token> {
    values.iter().map(ethabi_token).collect()
}

/// An [`AbiValue`] as an `ethabi::Token`, variant for variant. Only [`ethabi_tokens`]
/// uses it.
#[verifier::external_body]
fn ethabi_token(value: &AbiValue) -> ethabi::Token {
    match value {
        AbiValue::Address(address) => Token::Address(ethabi::ethereum_types::H160(address.bytes)),
        AbiValue::FixedBytes(bytes) => Token::FixedBytes(bytes.clone()),
        AbiValue::Bytes(bytes) => Token::Bytes(bytes.clone()),
        AbiValue::Int(word) => Token::Int(ethabi::ethereum_types::U256(word.limbs)),
        AbiValue::Uint(word) => Token::Uint(ethabi::ethereum_types::U256(word.limbs)),
        AbiValue::Bool(flag) => Token::Bool(*flag),
        AbiValue::String(text) => Token::String(text.clone()),
        AbiValue::FixedArray(items) => Token::FixedArray(ethabi_tokens(items)),
        AbiValue::Array(items) => Token::Array(ethabi_tokens(items)),
        AbiValue::Tuple(items) => Token::Tuple(ethabi_tokens(items)),
    }
}

/// What `ethabi` decodes from a call's returned bytes, given the kinds of the declared
/// outputs: the tokens, or the text of ethabi's error.
pub uninterp spec fn decoded_output(outputs: Seq<ParamKind>, data: Seq<u8>) -> Result<
    Seq<AbiValue>,
    Seq<char>,
>;

/// Whether addresses are 64 bits wide. `ethabi` adds offsets that it reads from the data
/// it decodes; they fit in 33 bits, and so do their sums.
pub fn wide_addresses() -> (r: bool)
    ensures
        r == (usize::BITS == 64),
{
    usize::BITS == 64
}

/// `ethabi::decode`, which is all that `Function::decode_output` does with the kinds of
/// its outputs: one value for each kind, read from the data in order, converted by
/// [`plain_tokens`]. Bytes that follow the last value are ignored. An error comes back as
/// its text.
#[verifier::external_body]
pub(crate) fn decode_output(outputs: &Vec<ParamKind>, data: &Vec<u8>) -> (r: Result<
    Vec<AbiValue>,
    String,
>)
    requires
        usize::BITS == 64,
    ensures
        match r {
            Ok(tokens) => decoded_output(outputs@, data@) == Ok::<Seq<AbiValue>, Seq<char>>(tokens@),
            Err(text) => decoded_output(outputs@, data@) == Err::<Seq<AbiValue>, Seq<char>>(text@),
        },
{
    match ethabi::decode(&param_types(outputs), data) {
        Ok(tokens) => Ok(plain_tokens(tokens)),
        Err(e) => Err(e.to_string()),
    }
}

/// The most arguments that a call is encoded with.
pub const MAX_ARGUMENTS: usize = 32;

/// The most bytes of a text that a call is encoded with.
pub const MAX_TEXT_BYTES: usize = 0x4000;

/// Whether a value is handed to the encoder as an argument: a text of at most
/// [`MAX_TEXT_BYTES`] bytes, or any other value that holds no values itself.
pub open spec fn encodable_value(value: AbiValue) -> bool {
    match value {
        AbiValue::String(text) => encode_utf8(text@).len() <= MAX_TEXT_BYTES,
        AbiValue::FixedArray(_) => false,
        AbiValue::Array(_) => false,
        AbiValue::Tuple(_) => false,
        _ => true,
    }
}

/// Whether arguments are handed to the encoder: at most [`MAX_ARGUMENTS`] of them, each
/// as [`encodable_value`] asks. `ethabi` counts the bytes of an encoding in 32 bits;
/// within these limits an encoding has fewer than 2^20 of them.
pub open spec fn encodable(arguments: Seq<AbiValue>) -> bool {
    &&& arguments.len() <= MAX_ARGUMENTS
    &&& forall|i: int| 0 <= i < arguments.len() ==> encodable_value(#[trigger] arguments[i])
}

/// Whether a value is handed to the encoder as an argument.
fn can_encode_value(value: &AbiValue) -> (r: bool)
    ensures
        r == encodable_value(*value),
{
    match value {
        AbiValue::String(text) => text.as_str().as_bytes().len() <= MAX_TEXT_BYTES,
        AbiValue::FixedArray(_) => false,
        AbiValue::Array(_) => false,
        AbiValue::Tuple(_) => false,
        _ => true,
    }
}

/// Whether arguments are handed to the encoder.
pub fn can_encode(arguments: &Vec<AbiValue>) -> (r: bool)
    ensures
        r == encodable(arguments@),
{
    if arguments.len() > MAX_ARGUMENTS {
        return false;
    }
    let mut i: usize = 0;
    while i < arguments.len()
        invariant
            i <= arguments.len(),
            forall|j: int| 0 <= j < i ==> encodable_value(#[trigger] arguments@[j]),
        decreases arguments.len() - i,
    {
        if !can_encode_value(&arguments[i]) {
            return false;
        }
        i = i + 1;
    }
    true
}

/// The bytes of a call, as `ethabi` encodes them for a function of this name and these
/// input kinds: the function's selector, then the arguments. Or the text of ethabi's
/// error, where the arguments do not fit the kinds.
pub uninterp spec fn encoded_input(
    name: Seq<char>,
    inputs: Seq<ParamKind>,
    arguments: Seq<AbiValue>,
) -> Result<Seq<u8>, Seq<char>>;

/// `ethabi::Function::encode_input`, on a function of the given name and input kinds,
/// with the arguments converted by [`ethabi_tokens`]. An error comes back as its text.
/// Arguments that do not fit the kinds are refused before anything is encoded; of those
/// that fit, the limits of [`encodable`] keep the encoder's 32-bit sums from overflowing.
#[verifier::external_body]
pub(crate) fn encode_input(function: &AbiFunction, arguments: &Vec<AbiValue>) -> (r: Result<
    Vec<u8>,
    String,
>)
    requires
        encodable(arguments@),
    ensures
        match r {
            Ok(bytes) => encoded_input(function.name@, function.inputs@, arguments@) == Ok::<
                Seq<u8>,
                Seq<char>,
            >(bytes@),
            Err(text) => encoded_input(function.name@, function.inputs@, arguments@) == Err::<
                Seq<u8>,
                Seq<char>,
            >(text@),
        },
{
    let inputs = param_types(&function.inputs).into_iter().map(
        |kind| ethabi::Param { name: String::new(), kind, internal_type: None },
    ).collect();
    #[allow(deprecated)]
    let raw = ethabi::Function { name: function.name.clone(), inputs, outputs: Vec::new(), constant: None, state_mutability: ethabi::StateMutability::NonPayable };
    raw.encode_input(&ethabi_tokens(arguments)).map_err(|e| e.to_string())
}

/// The hash that marks the logs of an event of this name and these parameter kinds.
pub uninterp spec fn event_signature_hash(name: Seq<char>, kinds: Seq<ParamKind>) -> H256;

/// `ethabi::long_signature`, which is all that `Event::signature` does with the event's
/// name and the kinds of its parameters.
#[verifier::external_body]
pub(crate) fn event_signature(name: &String, kinds: &Vec<ParamKind>) -> (r: H256)
    ensures
        r == event_signature_hash(name@, kinds@),
{
    H256 { bytes: ethabi::long_signature(name, &param_types(kinds)).0 }
}

/// An `ethabi::Event` of the same name, parameters and anonymity. Only [`parse_log`]
/// uses it.
#[verifier::external_body]
fn ethabi_event(event: &AbiEvent) -> ethabi::Event {
    let kinds = param_types(&event.inputs.iter().map(|input| input.kind).collect());
    let inputs = event.inputs.iter().zip(kinds).map(
        |(input, kind)| ethabi::EventParam { name: input.name.clone(), kind, indexed: input.indexed },
    ).collect();
    ethabi::Event { name: event.name.clone(), inputs, anonymous: event.anonymous }
}

/// The named values that `ethabi` reads from a log's topics and data as an instance of
/// the event, in the order of the event's parameters. Or the text of ethabi's error.
pub uninterp spec fn parsed_log(event: AbiEvent, topics: Seq<H256>, data: Seq<u8>) -> Result<
    Seq<LogParam>,
    Seq<char>,
>;

/// `ethabi::Event::parse_log`, on an event of the same name, parameters and anonymity:
/// the event's parameters by name, the indexed ones decoded from the topics after the
/// signature, the others from the data, each value converted by [`plain_token`]. An
/// error comes back as its text.
#[verifier::external_body]
pub(crate) fn parse_log(event: &AbiEvent, log: &RawLog) -> (r: Result<Vec<LogParam>, String>)
    requires
        usize::BITS == 64,
    ensures
        match r {
            Ok(params) => parsed_log(*event, log.topics@, log.data@) == Ok::<
                Seq<LogParam>,
                Seq<char>,
            >(params@),
            Err(text) => parsed_log(*event, log.topics@, log.data@) == Err::<
                Seq<LogParam>,
                Seq<char>,
            >(text@),
        },
{
    let topics = log.topics.iter().map(|topic| ethabi::ethereum_types::H256(topic.bytes)).collect();
    match ethabi_event(event).parse_log(ethabi::RawLog { topics, data: log.data.clone() }) {
        Ok(parsed) => Ok(parsed.params.into_iter().map(|param| LogParam { name: param.name, value: plain_token(param.value) }).collect()),
        Err(e) => Err(e.to_string()),
    }
}

} // verus!
