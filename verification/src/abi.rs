//! Values and types of the contract ABI.

use vstd::array::array_as_slice;
use vstd::prelude::*;
use vstd::slice::slice_to_vec;

verus! {

/// A 160-bit account or contract address.
#[derive(Clone, Copy, Debug, PartialEq, Eq)]
pub struct Address {
    pub bytes: [u8; 20],
}

/// A 256-bit word, least significant limb first.
#[derive(Clone, Copy, Debug, PartialEq, Eq)]
pub struct U256 {
    pub limbs: [u64; 4],
}

/// The type of one parameter of a contract function.
#[derive(Debug, PartialEq, Eq)]
pub enum AbiType {
    Address,
    Bytes,
    Int(usize),
    Uint(usize),
    Bool,
    String,
    Array(Box<AbiType>),
    FixedBytes(usize),
    FixedArray(Box<AbiType>, usize),
    Tuple(Vec<AbiType>),
}

/// One argument of a contract call, tagged with its shape.
#[derive(Debug, PartialEq, Eq)]
pub enum AbiValue {
    Address(Address),
    FixedBytes(Vec<u8>),
    Bytes(Vec<u8>),
    Int(U256),
    Uint(U256),
    Bool(bool),
    String(String),
    FixedArray(Vec<AbiValue>),
    Array(Vec<AbiValue>),
    Tuple(Vec<AbiValue>),
}

impl U256 {
    /// The number that the four limbs spell.
    pub open spec fn value(self) -> nat {
        (self.limbs[0] as nat) + (self.limbs[1] as nat) * 0x1_0000_0000_0000_0000
            + (self.limbs[2] as nat) * 0x1_0000_0000_0000_0000_0000_0000_0000_0000
            + (self.limbs[3] as nat)
            * 0x1_0000_0000_0000_0000_0000_0000_0000_0000_0000_0000_0000_0000
    }

    /// The word that spells a 64-bit number.
    pub fn from_u64(v: u64) -> (word: U256)
        ensures
            word.limbs@ == seq![v, 0u64, 0u64, 0u64],
            word.value() == v,
    {
        U256 { limbs: [v, 0, 0, 0] }
    }

    /// The number as 64 bits, or `None` where it does not fit.
    pub fn to_u64(&self) -> (v: Option<u64>)
        ensures
            v == if self.value() <= u64::MAX { Some(self.value() as u64) } else { None },
    {
        if self.limbs[1] == 0 && self.limbs[2] == 0 && self.limbs[3] == 0 {
            Some(self.limbs[0])
        } else {
            None
        }
    }
}

/// What an `AbiType` stands for.
pub enum Kind {
    Address,
    Bytes,
    Int(usize),
    Uint(usize),
    Bool,
    String,
    Array(Box<Kind>),
    FixedBytes(usize),
    FixedArray(Box<Kind>, usize),
    Tuple(Seq<Kind>),
}

/// What an `AbiValue` stands for.
pub enum Value {
    Address(Address),
    FixedBytes(Seq<u8>),
    Bytes(Seq<u8>),
    Int(U256),
    Uint(U256),
    Bool(bool),
    String(Seq<char>),
    FixedArray(Seq<Value>),
    Array(Seq<Value>),
    Tuple(Seq<Value>),
}

/// The kind that a parameter type stands for.
pub open spec fn kind_of(p: AbiType) -> Kind
    decreases p,
{
    match p {
        AbiType::Address => Kind::Address,
        AbiType::Bytes => Kind::Bytes,
        AbiType::Int(n) => Kind::Int(n),
        AbiType::Uint(n) => Kind::Uint(n),
        AbiType::Bool => Kind::Bool,
        AbiType::String => Kind::String,
        AbiType::Array(inner) => Kind::Array(Box::new(kind_of(*inner))),
        AbiType::FixedBytes(n) => Kind::FixedBytes(n),
        AbiType::FixedArray(inner, n) => Kind::FixedArray(Box::new(kind_of(*inner)), n),
        AbiType::Tuple(parts) => Kind::Tuple(kinds_of(parts@)),
    }
}

/// The value that a token stands for.
pub open spec fn value_of(t: AbiValue) -> Value
    decreases t,
{
    match t {
        AbiValue::Address(a) => Value::Address(a),
        AbiValue::FixedBytes(b) => Value::FixedBytes(b@),
        AbiValue::Bytes(b) => Value::Bytes(b@),
        AbiValue::Int(v) => Value::Int(v),
        AbiValue::Uint(v) => Value::Uint(v),
        AbiValue::Bool(b) => Value::Bool(b),
        AbiValue::String(s) => Value::String(s@),
        AbiValue::FixedArray(items) => Value::FixedArray(values_of(items@)),
        AbiValue::Array(items) => Value::Array(values_of(items@)),
        AbiValue::Tuple(items) => Value::Tuple(values_of(items@)),
    }
}

/// The values of a list of tokens, in order.
pub open spec fn values_of(tokens: Seq<AbiValue>) -> Seq<Value>
    decreases tokens,
{
    Seq::new(
        tokens.len(),
        |i: int| if 0 <= i < tokens.len() { value_of(tokens[i]) } else { Value::Bool(false) },
    )
}

/// The kinds of a list of parameter types, in order.
pub open spec fn kinds_of(types: Seq<AbiType>) -> Seq<Kind>
    decreases types,
{
    Seq::new(
        types.len(),
        |i: int| if 0 <= i < types.len() { kind_of(types[i]) } else { Kind::Bool },
    )
}

/// Whether a value can stand where a parameter of the given kind is declared.
///
/// Integers fit an integer kind of the same signedness, whatever its width; a
/// fixed byte string fits when it is no longer than declared; a compound value
/// fits when it has the declared number of items and each item fits.
pub open spec fn conforms(v: Value, k: Kind) -> bool
    decreases v,
{
    match v {
        Value::Address(_) => k is Address,
        Value::Bytes(_) => k is Bytes,
        Value::Int(_) => k is Int,
        Value::Uint(_) => k is Uint,
        Value::Bool(_) => k is Bool,
        Value::String(_) => k is String,
        Value::FixedBytes(b) => k matches Kind::FixedBytes(n) && b.len() <= n,
        Value::Array(items) => k matches Kind::Array(inner) && forall|i: int|
            0 <= i < items.len() ==> conforms(#[trigger] items[i], *inner),
        Value::FixedArray(items) => k matches Kind::FixedArray(inner, n) && items.len() == n
            && forall|i: int| 0 <= i < items.len() ==> conforms(#[trigger] items[i], *inner),
        Value::Tuple(items) => k matches Kind::Tuple(kinds) && items.len() == kinds.len()
            && forall|i: int| 0 <= i < items.len() ==> conforms(#[trigger] items[i], kinds[i]),
    }
}

/// Whether a list of values fits a list of kinds, one for one.
pub open spec fn all_conform(values: Seq<Value>, kinds: Seq<Kind>) -> bool {
    values.len() == kinds.len() && forall|i: int|
        0 <= i < values.len() ==> conforms(#[trigger] values[i], kinds[i])
}

impl View for AbiType {
    type V = Kind;

    open spec fn view(&self) -> Kind {
        kind_of(*self)
    }
}

impl View for AbiValue {
    type V = Value;

    open spec fn view(&self) -> Value {
        value_of(*self)
    }
}

impl AbiValue {
    /// Whether this token can stand where a parameter of the given type is declared.
    pub fn type_check(&self, param_type: &AbiType) -> (ok: bool)
        ensures
            ok == conforms(self@, param_type@),
        decreases self,
    {
        match self {
            AbiValue::Address(_) => match param_type {
                AbiType::Address => true,
                _ => false,
            },
            AbiValue::Bytes(_) => match param_type {
                AbiType::Bytes => true,
                _ => false,
            },
            AbiValue::Int(_) => match param_type {
                AbiType::Int(_) => true,
                _ => false,
            },
            AbiValue::Uint(_) => match param_type {
                AbiType::Uint(_) => true,
                _ => false,
            },
            AbiValue::Bool(_) => match param_type {
                AbiType::Bool => true,
                _ => false,
            },
            AbiValue::String(_) => match param_type {
                AbiType::String => true,
                _ => false,
            },
            AbiValue::FixedBytes(bytes) => match param_type {
                AbiType::FixedBytes(size) => bytes.len() <= *size,
                _ => false,
            },
            AbiValue::Array(items) => match param_type {
                AbiType::Array(inner) => {
                    assert(self@->Array_0 == values_of(items@));
                    items_check(items, &**inner)
                },
                _ => false,
            },
            AbiValue::FixedArray(items) => match param_type {
                AbiType::FixedArray(inner, size) => {
                    assert(self@->FixedArray_0 == values_of(items@));
                    items.len() == *size && items_check(items, &**inner)
                },
                _ => false,
            },
            AbiValue::Tuple(items) => match param_type {
                AbiType::Tuple(parts) => types_check(items, parts),
                _ => false,
            },
        }
    }

    /// A copy that stands for the same value.
    pub fn duplicate(&self) -> (copy: AbiValue)
        ensures
            copy@ == self@,
        decreases self,
    {
        match self {
            AbiValue::Address(a) => AbiValue::Address(*a),
            AbiValue::FixedBytes(b) => AbiValue::FixedBytes(b.clone()),
            AbiValue::Bytes(b) => AbiValue::Bytes(b.clone()),
            AbiValue::Int(v) => AbiValue::Int(*v),
            AbiValue::Uint(v) => AbiValue::Uint(*v),
            AbiValue::Bool(b) => AbiValue::Bool(*b),
            AbiValue::String(s) => AbiValue::String(s.clone()),
            AbiValue::FixedArray(items) => AbiValue::FixedArray(duplicate_all(items)),
            AbiValue::Array(items) => AbiValue::Array(duplicate_all(items)),
            AbiValue::Tuple(items) => AbiValue::Tuple(duplicate_all(items)),
        }
    }
}

/// Copies of all tokens of a list, in order.
pub fn duplicate_all(tokens: &Vec<AbiValue>) -> (copies: Vec<AbiValue>)
    ensures
        values_of(copies@) == values_of(tokens@),
    decreases tokens,
{
    let mut copies: Vec<AbiValue> = Vec::new();
    let mut i: usize = 0;
    while i < tokens.len()
        invariant
            i <= tokens@.len(),
            copies@.len() == i,
            forall|j: int| 0 <= j < i ==> value_of(#[trigger] copies@[j]) == value_of(tokens@[j]),
        decreases tokens@.len() - i,
    {
        let copy = tokens[i].duplicate();
        copies.push(copy);
        i += 1;
    }
    assert(values_of(copies@) =~= values_of(tokens@));
    copies
}

/// Whether every token of a list fits one and the same parameter type.
pub fn items_check(items: &Vec<AbiValue>, param_type: &AbiType) -> (ok: bool)
    ensures
        ok == forall|i: int|
            0 <= i < items@.len() ==> conforms(#[trigger] values_of(items@)[i], param_type@),
    decreases items,
{
    let mut i: usize = 0;
    while i < items.len()
        invariant
            i <= items@.len(),
            forall|j: int| 0 <= j < i ==> conforms(#[trigger] values_of(items@)[j], param_type@),
        decreases items@.len() - i,
    {
        if !items[i].type_check(param_type) {
            assert(!conforms(values_of(items@)[i as int], param_type@));
            return false;
        }
        i += 1;
    }
    true
}

/// Whether a list of tokens fits a list of parameter types, one for one.
pub fn types_check(tokens: &Vec<AbiValue>, param_types: &Vec<AbiType>) -> (ok: bool)
    ensures
        ok == all_conform(values_of(tokens@), kinds_of(param_types@)),
    decreases tokens,
{
    if tokens.len() != param_types.len() {
        return false;
    }
    let mut i: usize = 0;
    while i < tokens.len()
        invariant
            i <= tokens@.len(),
            tokens@.len() == param_types@.len(),
            forall|j: int|
                0 <= j < i ==> conforms(
                    #[trigger] values_of(tokens@)[j],
                    kinds_of(param_types@)[j],
                ),
        decreases tokens@.len() - i,
    {
        if !tokens[i].type_check(&param_types[i]) {
            assert(!conforms(values_of(tokens@)[i as int], kinds_of(param_types@)[i as int]));
            return false;
        }
        i += 1;
    }
    true
}

/// The largest encoding, in bytes, that the encoder's 32-bit offsets can address.
pub const ENCODING_LIMIT: u64 = 0xFFFF_FFFF;

/// A byte count rounded up to whole 32-byte words.
pub open spec fn padded(len: nat) -> nat {
    ((len + 31) / 32) * 32
}

/// The sum of a list of sizes.
pub open spec fn sum(parts: Seq<nat>) -> nat
    decreases parts.len(),
{
    if parts.len() == 0 {
        0
    } else {
        sum(parts.drop_last()) + parts.last()
    }
}

/// An upper bound on the bytes that a value takes in an encoding, head and
/// tail together: a word for each offset and length, and the padded contents.
pub open spec fn span(v: Value) -> nat
    decreases v,
{
    match v {
        Value::Address(_) => 32,
        Value::Int(_) => 32,
        Value::Uint(_) => 32,
        Value::Bool(_) => 32,
        Value::FixedBytes(b) => padded(b.len()),
        Value::Bytes(b) => 64 + padded(b.len()),
        Value::String(s) => 64 + padded(vstd::utf8::encode_utf8(s).len()),
        Value::Array(items) => 64 + sum(each_span(items)),
        Value::FixedArray(items) => 32 + sum(each_span(items)),
        Value::Tuple(items) => 32 + sum(each_span(items)),
    }
}

/// The span of each value of a list.
pub open spec fn each_span(values: Seq<Value>) -> Seq<nat>
    decreases values,
{
    Seq::new(values.len(), |i: int| if 0 <= i < values.len() { span(values[i]) } else { 0 })
}

/// The spans of a list of values, added up.
pub open spec fn spans(values: Seq<Value>) -> nat {
    sum(each_span(values))
}

/// The spans of the first `n + 1` values are those of the first `n` and one more.
proof fn lemma_spans_step(values: Seq<Value>, n: int)
    requires
        0 <= n < values.len(),
    ensures
        spans(values.take(n + 1)) == spans(values.take(n)) + span(values[n]),
{
    assert(each_span(values.take(n + 1)).drop_last() =~= each_span(values.take(n)));
}

/// The spans of a prefix never exceed those of the whole list.
proof fn lemma_spans_prefix(values: Seq<Value>, n: int)
    requires
        0 <= n <= values.len(),
    ensures
        spans(values.take(n)) <= spans(values),
    decreases values.len() - n,
{
    if n < values.len() {
        lemma_spans_step(values, n);
        lemma_spans_prefix(values, n + 1);
    } else {
        assert(values.take(n) =~= values);
    }
}

/// A byte count rounded up to whole words, or `None` above the limit.
fn padded_size(len: usize) -> (size: Option<u64>)
    ensures
        match size {
            Some(n) => n == padded(len as nat) && n <= ENCODING_LIMIT,
            None => padded(len as nat) > ENCODING_LIMIT,
        },
{
    if len > 0xFFFF_FFE0 {
        None
    } else {
        let n: u64 = len as u64;
        Some(((n + 31) / 32) * 32)
    }
}

/// The sum of two sizes, or `None` above the limit.
fn add_sizes(a: u64, b: Option<u64>) -> (size: Option<u64>)
    requires
        a <= ENCODING_LIMIT,
        b matches Some(n) ==> n <= ENCODING_LIMIT,
    ensures
        match (b, size) {
            (Some(n), Some(total)) => total == a + n && total <= ENCODING_LIMIT,
            (Some(n), None) => a + n > ENCODING_LIMIT,
            (None, r) => r is None,
        },
{
    match b {
        Some(n) => if a + n <= ENCODING_LIMIT {
            Some(a + n)
        } else {
            None
        },
        None => None,
    }
}

impl AbiValue {
    /// The span of this token's value, or `None` where it exceeds
    /// `ENCODING_LIMIT`.
    pub fn footprint(&self) -> (size: Option<u64>)
        ensures
            match size {
                Some(n) => n == span(self@) && n <= ENCODING_LIMIT,
                None => span(self@) > ENCODING_LIMIT,
            },
        decreases self,
    {
        match self {
            AbiValue::Address(_) => Some(32),
            AbiValue::Int(_) => Some(32),
            AbiValue::Uint(_) => Some(32),
            AbiValue::Bool(_) => Some(32),
            AbiValue::FixedBytes(b) => padded_size(b.len()),
            AbiValue::Bytes(b) => add_sizes(64, padded_size(b.len())),
            AbiValue::String(s) => add_sizes(64, padded_size(s.as_str().as_bytes().len())),
            AbiValue::Array(items) => add_sizes(64, footprints(items)),
            AbiValue::FixedArray(items) => add_sizes(32, footprints(items)),
            AbiValue::Tuple(items) => add_sizes(32, footprints(items)),
        }
    }
}

/// The spans of a list of tokens added up, or `None` where the sum exceeds
/// `ENCODING_LIMIT`.
pub fn footprints(tokens: &Vec<AbiValue>) -> (size: Option<u64>)
    ensures
        match size {
            Some(n) => n == spans(values_of(tokens@)) && n <= ENCODING_LIMIT,
            None => spans(values_of(tokens@)) > ENCODING_LIMIT,
        },
    decreases tokens,
{
    let ghost values = values_of(tokens@);
    let mut total: u64 = 0;
    let mut i: usize = 0;
    assert(values.take(0) =~= Seq::<Value>::empty());
    while i < tokens.len()
        invariant
            i <= tokens@.len(),
            values == values_of(tokens@),
            total == spans(values.take(i as int)),
            total <= ENCODING_LIMIT,
        decreases tokens@.len() - i,
    {
        proof {
            lemma_spans_step(values, i as int);
            lemma_spans_prefix(values, i as int + 1);
        }
        match add_sizes(total, tokens[i].footprint()) {
            Some(n) => {
                total = n;
            },
            None => {
                return None;
            },
        }
        i += 1;
    }
    assert(values.take(i as int) =~= values);
    Some(total)
}

/// A list of values that take one word each spans that many words.
pub proof fn lemma_spans_of_words(values: Seq<Value>)
    requires
        forall|i: int| 0 <= i < values.len() ==> span(#[trigger] values[i]) == 32,
    ensures
        spans(values) == 32 * values.len(),
    decreases values.len(),
{
    if values.len() > 0 {
        let n = values.len() - 1;
        lemma_spans_step(values, n);
        assert(values.take(n + 1) =~= values);
        lemma_spans_of_words(values.take(n));
    }
}

impl AbiValue {
    /// The 32 bytes of a hash as a byte string of declared size.
    pub fn bytes32(hash: &[u8; 32]) -> (token: AbiValue)
        ensures
            token@ == Value::FixedBytes(hash@),
    {
        AbiValue::FixedBytes(slice_to_vec(array_as_slice(hash)))
    }
}

/// Whether two byte strings hold the same bytes.
fn same_bytes(a: &Vec<u8>, b: &Vec<u8>) -> (same: bool)
    ensures
        same == (a@ == b@),
{
    if a.len() != b.len() {
        return false;
    }
    let mut i: usize = 0;
    while i < a.len()
        invariant
            i <= a@.len(),
            a@.len() == b@.len(),
            forall|j: int| 0 <= j < i ==> a@[j] == b@[j],
        decreases a@.len() - i,
    {
        if a[i] != b[i] {
            return false;
        }
        i += 1;
    }
    assert(a@ =~= b@);
    true
}

impl Address {
    /// Whether two addresses are the same.
    pub fn same_as(&self, other: &Address) -> (same: bool)
        ensures
            same == (*self == *other),
    {
        let mut i: usize = 0;
        while i < 20
            invariant
                i <= 20,
                forall|j: int| 0 <= j < i ==> self.bytes@[j] == other.bytes@[j],
            decreases 20 - i,
        {
            if self.bytes[i] != other.bytes[i] {
                return false;
            }
            i += 1;
        }
        assert(self.bytes =~= other.bytes);
        true
    }
}

impl U256 {
    /// Whether two words are the same.
    pub fn same_as(&self, other: &U256) -> (same: bool)
        ensures
            same == (*self == *other),
    {
        let same = self.limbs[0] == other.limbs[0] && self.limbs[1] == other.limbs[1]
            && self.limbs[2] == other.limbs[2] && self.limbs[3] == other.limbs[3];
        assert(same ==> self.limbs =~= other.limbs);
        same
    }
}

impl AbiValue {
    /// Whether two tokens stand for the same value.
    pub fn same_as(&self, other: &AbiValue) -> (same: bool)
        ensures
            same == (self@ == other@),
        decreases self,
    {
        match (self, other) {
            (AbiValue::Address(a), AbiValue::Address(b)) => a.same_as(b),
            (AbiValue::FixedBytes(a), AbiValue::FixedBytes(b)) => same_bytes(a, b),
            (AbiValue::Bytes(a), AbiValue::Bytes(b)) => same_bytes(a, b),
            (AbiValue::Int(a), AbiValue::Int(b)) => a.same_as(b),
            (AbiValue::Uint(a), AbiValue::Uint(b)) => a.same_as(b),
            (AbiValue::Bool(a), AbiValue::Bool(b)) => *a == *b,
            (AbiValue::String(a), AbiValue::String(b)) => *a == *b,
            (AbiValue::FixedArray(a), AbiValue::FixedArray(b)) => same_tokens(a, b),
            (AbiValue::Array(a), AbiValue::Array(b)) => same_tokens(a, b),
            (AbiValue::Tuple(a), AbiValue::Tuple(b)) => same_tokens(a, b),
            _ => false,
        }
    }
}

/// Whether two lists of tokens stand for the same values.
pub fn same_tokens(a: &Vec<AbiValue>, b: &Vec<AbiValue>) -> (same: bool)
    ensures
        same == (values_of(a@) == values_of(b@)),
    decreases a,
{
    if a.len() != b.len() {
        assert(values_of(a@).len() != values_of(b@).len());
        return false;
    }
    let mut i: usize = 0;
    while i < a.len()
        invariant
            i <= a@.len(),
            a@.len() == b@.len(),
            forall|j: int| 0 <= j < i ==> value_of(a@[j]) == value_of(b@[j]),
        decreases a@.len() - i,
    {
        if !a[i].same_as(&b[i]) {
            assert(values_of(a@)[i as int] != values_of(b@)[i as int]);
            return false;
        }
        i += 1;
    }
    assert(values_of(a@) =~= values_of(b@));
    true
}

} // verus!
