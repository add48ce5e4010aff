//! What travels inside data frames: the session's configuration and the
//! batches of numbers.
//!
//! Both are laid out by `bincode` with fixed-width little-endian integers. A
//! configuration is its two numbers, eight bytes each. A batch is the count of
//! its numbers in eight bytes, followed by the numbers, four bytes each.

use crate::endian::{
    le_bytes, le_value, lemma_le_bytes_len, lemma_le_round_trip, lemma_pow256_values,
};
use vstd::prelude::*;

verus! {

/// What both peers agree on before the first iteration.
#[derive(Debug, Clone, Copy, PartialEq, Eq, Structural)]
pub struct SessionConfig {
    /// How many numbers each batch holds.
    pub batch_size: u64,
    /// How many iterations the session runs.
    pub iteration_count: u64,
}

/// The number of numbers from which on a batch has no payload: the payload
/// would reach the ceiling of a data frame.
pub const BATCH_SIZE_LIMIT: usize = 249_998;

/// Why a payload could not be produced or understood.
#[derive(Debug, Clone, Copy, PartialEq, Eq, Structural)]
pub enum PayloadError {
    /// The batch holds too many numbers for one data frame.
    TooLarge,
    /// The encoder gave no bytes for the value.
    Encode,
    /// The decoder found no value in the bytes.
    Decode,
}

/// The payload that carries a configuration.
pub open spec fn config_wire(config: SessionConfig) -> Seq<u8> {
    le_bytes(config.batch_size as nat, 8) + le_bytes(config.iteration_count as nat, 8)
}

/// The configuration at the front of a payload, if the payload is long enough
/// to hold one. Bytes behind it are ignored.
pub open spec fn config_from_wire(bytes: Seq<u8>) -> Option<SessionConfig> {
    if bytes.len() < 16 {
        None
    } else {
        Some(
            SessionConfig {
                batch_size: le_value(bytes.subrange(0, 8)) as u64,
                iteration_count: le_value(bytes.subrange(8, 16)) as u64,
            },
        )
    }
}

/// The payload that carries a batch: the count, then every number.
pub open spec fn batch_wire(numbers: Seq<u32>) -> Seq<u8> {
    le_bytes(numbers.len(), 8) + Seq::new(
        4 * numbers.len(),
        |j: int| le_bytes(numbers[j / 4] as nat, 4)[j % 4],
    )
}

/// The batch at the front of a payload, if the payload holds the count and
/// as many numbers as the count says. Bytes behind them are ignored.
pub open spec fn batch_from_wire(bytes: Seq<u8>) -> Option<Seq<u32>> {
    if bytes.len() < 8 {
        None
    } else {
        let count: nat = le_value(bytes.subrange(0, 8));
        if bytes.len() < 8 + 4 * count {
            None
        } else {
            Some(
                Seq::new(count, |i: int| le_value(bytes.subrange(8 + 4 * i, 12 + 4 * i)) as u32),
            )
        }
    }
}

/// A configuration is read back from its payload.
pub proof fn lemma_config_round_trip(config: SessionConfig)
    ensures
        config_wire(config).len() == 16,
        config_from_wire(config_wire(config)) == Some(config),
{
    let a: Seq<u8> = le_bytes(config.batch_size as nat, 8);
    let b: Seq<u8> = le_bytes(config.iteration_count as nat, 8);
    lemma_le_bytes_len(config.batch_size as nat, 8);
    lemma_le_bytes_len(config.iteration_count as nat, 8);
    lemma_pow256_values();
    lemma_le_round_trip(config.batch_size as nat, 8);
    lemma_le_round_trip(config.iteration_count as nat, 8);
    assert((a + b).subrange(0, 8) =~= a);
    assert((a + b).subrange(8, 16) =~= b);
}

/// The payload of a batch of `n` numbers is `8 + 4 * n` bytes long.
pub proof fn lemma_batch_wire_len(numbers: Seq<u32>)
    ensures
        batch_wire(numbers).len() == 8 + 4 * numbers.len(),
{
    lemma_le_bytes_len(numbers.len(), 8);
}

/// A batch is read back from its payload, as long as its count fits in eight
/// bytes.
pub proof fn lemma_batch_round_trip(numbers: Seq<u32>)
    requires
        numbers.len() <= u64::MAX,
    ensures
        batch_from_wire(batch_wire(numbers)) == Some(numbers),
{
    let n: nat = numbers.len();
    let bytes: Seq<u8> = batch_wire(numbers);
    let head: Seq<u8> = le_bytes(n, 8);
    lemma_le_bytes_len(n, 8);
    lemma_pow256_values();
    lemma_le_round_trip(n, 8);
    assert(bytes.subrange(0, 8) =~= head);
    let back: Seq<u32> = batch_from_wire(bytes)->0;
    assert forall|i: int| 0 <= i < n implies back[i] == numbers[i] by {
        let word: Seq<u8> = le_bytes(numbers[i] as nat, 4);
        lemma_le_bytes_len(numbers[i] as nat, 4);
        lemma_le_round_trip(numbers[i] as nat, 4);
        assert forall|k: int| 0 <= k < 4 implies bytes.subrange(8 + 4 * i, 12 + 4 * i)[k]
            == word[k] by {
            let j: int = 4 * i + k;
            assert(j / 4 == i && j % 4 == k);
            assert(bytes[8 + j] == le_bytes(numbers[j / 4] as nat, 4)[j % 4]);
        }
        assert(bytes.subrange(8 + 4 * i, 12 + 4 * i) =~= word);
    }
    assert(back =~= numbers);
}

/// The error of `bincode`. Nothing of it is read: a failed call becomes a
/// `PayloadError`.
#[verifier::external_type_specification]
#[verifier::external_body]
pub struct ExErrorKind(bincode::ErrorKind);

/// `bincode::serialize` on a pair of `u64`. It gives the two numbers in
/// order, each as eight little-endian bytes.
///
/// It gives no error on a pair of integers. What it can fail on while
/// serializing is a byte limit, a writer that fails and a sequence of unknown
/// length: this call sets no limit, writes to a vector and meets no sequence.
#[verifier::external_body]
fn bincode_serialize_config(config: &SessionConfig) -> (result: Result<
    Vec<u8>,
    Box<bincode::ErrorKind>,
>)
    ensures
        result is Ok,
        result matches Ok(bytes) ==> bytes@ == config_wire(*config),
{
    bincode::serialize(&(config.batch_size, config.iteration_count))
}

/// `bincode::deserialize` to a pair of `u64`. It gives a pair exactly when the
/// input holds at least sixteen bytes, and the pair is what the first sixteen
/// stand for, eight little-endian bytes each.
///
/// It gives an error on nothing else. This call sets no byte limit and lets
/// bytes follow the value, so all it can fail on is a read, and a read from a
/// slice fails only when fewer bytes are left than it asks for.
#[verifier::external_body]
fn bincode_deserialize_config(bytes: &[u8]) -> (result: Result<
    SessionConfig,
    Box<bincode::ErrorKind>,
>)
    ensures
        config_from_wire(bytes@) is Some ==> result is Ok,
        result matches Ok(config) ==> config_from_wire(bytes@) == Some(config),
{
    let pair: (u64, u64) = bincode::deserialize(bytes)?;
    Ok(SessionConfig { batch_size: pair.0, iteration_count: pair.1 })
}

/// `bincode::serialize` on a vector of `u32`. It gives the vector's length as
/// eight little-endian bytes, followed by each number as four little-endian
/// bytes.
///
/// It gives no error on a vector of integers. What it can fail on while
/// serializing is a byte limit, a writer that fails and a sequence of unknown
/// length: this call sets no limit, writes to a vector, and a vector knows
/// its length. It allocates the whole output at once, so it is called on
/// batches under the limit only.
#[verifier::external_body]
fn bincode_serialize_batch(numbers: &Vec<u32>) -> (result: Result<
    Vec<u8>,
    Box<bincode::ErrorKind>,
>)
    requires
        numbers@.len() < BATCH_SIZE_LIMIT,
    ensures
        result is Ok,
        result matches Ok(bytes) ==> bytes@ == batch_wire(numbers@),
{
    bincode::serialize(numbers)
}

/// `bincode::deserialize` to a vector of `u32`. It gives a vector exactly when
/// the input opens with a count in eight little-endian bytes and holds at
/// least four more bytes for each counted number, and the vector is those
/// numbers in their order.
///
/// It gives an error on nothing else. This call sets no byte limit and lets
/// bytes follow the value. It reads the count, then that many numbers, and a
/// read from a slice fails only when fewer bytes are left than it asks for. A
/// count too large for `usize` is an error too, and no slice holds four bytes
/// for each of so many numbers.
#[verifier::external_body]
fn bincode_deserialize_batch(bytes: &[u8]) -> (result: Result<Vec<u32>, Box<bincode::ErrorKind>>)
    ensures
        batch_from_wire(bytes@) is Some ==> result is Ok,
        result matches Ok(numbers) ==> batch_from_wire(bytes@) == Some(numbers@),
{
    bincode::deserialize(bytes)
}

/// The payload for a configuration. Every configuration has one.
pub fn serialize_config(config: &SessionConfig) -> (result: Result<Vec<u8>, PayloadError>)
    ensures
        result matches Ok(bytes) && bytes@ == config_wire(*config),
{
    match bincode_serialize_config(config) {
        Ok(bytes) => Ok(bytes),
        Err(_) => Err(PayloadError::Encode),
    }
}

/// The configuration that a payload carries: the one at its front, if it
/// holds one, and a refusal if it holds none.
pub fn deserialize_config(bytes: &[u8]) -> (result: Result<SessionConfig, PayloadError>)
    ensures
        match config_from_wire(bytes@) {
            Some(config) => result == Ok::<SessionConfig, PayloadError>(config),
            None => result == Err::<SessionConfig, PayloadError>(PayloadError::Decode),
        },
{
    match bincode_deserialize_config(bytes) {
        Ok(config) => Ok(config),
        Err(_) => Err(PayloadError::Decode),
    }
}

/// The payload for a batch. Every batch under the limit has one; a batch at
/// or above the limit has none, and is not handed to the encoder.
pub fn serialize_batch(numbers: &Vec<u32>) -> (result: Result<Vec<u8>, PayloadError>)
    ensures
        numbers@.len() >= BATCH_SIZE_LIMIT ==> result == Err::<Vec<u8>, PayloadError>(
            PayloadError::TooLarge,
        ),
        numbers@.len() < BATCH_SIZE_LIMIT ==> (result matches Ok(bytes) && bytes@ == batch_wire(
            numbers@,
        )),
{
    if numbers.len() >= BATCH_SIZE_LIMIT {
        return Err(PayloadError::TooLarge);
    }
    match bincode_serialize_batch(numbers) {
        Ok(bytes) => Ok(bytes),
        Err(_) => Err(PayloadError::Encode),
    }
}

/// The batch that a payload carries: the one at its front, if it holds one,
/// and a refusal if it holds none.
pub fn deserialize_batch(bytes: &[u8]) -> (result: Result<Vec<u32>, PayloadError>)
    ensures
        match batch_from_wire(bytes@) {
            Some(numbers) => result matches Ok(v) && v@ == numbers,
            None => result == Err::<Vec<u32>, PayloadError>(PayloadError::Decode),
        },
{
    match bincode_deserialize_batch(bytes) {
        Ok(numbers) => Ok(numbers),
        Err(_) => Err(PayloadError::Decode),
    }
}

} // verus!
