use vstd::prelude::*;
use vstd::arithmetic::div_mod::lemma_div_denominator;
use crate::error::TransferError;

verus! {

/// Length of the instruction payload, in bytes.
pub const PAYLOAD_BYTES: usize = 8;

/// `std::io::Error`, the error of the serialization library's readers.
/// Nothing is read of it but that it is an error.
#[verifier::external_type_specification]
#[verifier::external_body]
pub struct ExIoError(std::io::Error);

/// The number that eight bytes spell, least significant byte first.
pub open spec fn le_u64(bytes: Seq<u8>) -> u64
    recommends
        bytes.len() == 8,
{
    (bytes[0] as int
        + 0x100 * (bytes[1] as int)
        + 0x1_0000 * (bytes[2] as int)
        + 0x100_0000 * (bytes[3] as int)
        + 0x1_0000_0000 * (bytes[4] as int)
        + 0x100_0000_0000 * (bytes[5] as int)
        + 0x1_0000_0000_0000 * (bytes[6] as int)
        + 0x100_0000_0000_0000 * (bytes[7] as int)) as u64
}

/// The eight bytes that spell a number, least significant byte first.
pub open spec fn le_bytes(value: u64) -> Seq<u8> {
    seq![
        (value % 0x100) as u8,
        (value / 0x100 % 0x100) as u8,
        (value / 0x1_0000 % 0x100) as u8,
        (value / 0x100_0000 % 0x100) as u8,
        (value / 0x1_0000_0000 % 0x100) as u8,
        (value / 0x100_0000_0000 % 0x100) as u8,
        (value / 0x1_0000_0000_0000 % 0x100) as u8,
        (value / 0x100_0000_0000_0000 % 0x100) as u8,
    ]
}

/// A request to move `amount` base units of a token.
#[derive(Clone, Copy, Debug, PartialEq, Eq)]
pub struct TransferIx {
    pub amount: u64,
}

/// The request that a payload encodes, if it encodes one: the payload is
/// exactly eight bytes, the amount as a little-endian integer.
pub open spec fn decoded(input: Seq<u8>) -> Option<TransferIx> {
    if input.len() == PAYLOAD_BYTES {
        Some(TransferIx { amount: le_u64(input) })
    } else {
        None
    }
}

/// Calls `borsh::from_slice` at `u64`.
///
/// Trusted, not proved: it succeeds on exactly the inputs of eight bytes,
/// fewer being too short to read and more leaving bytes unread, and the
/// value is then those bytes as a little-endian integer.
#[verifier::external_body]
fn u64_from_slice(input: &[u8]) -> (res: Result<u64, std::io::Error>)
    ensures
        res is Ok <==> input@.len() == 8,
        res matches Ok(value) ==> value == le_u64(input@),
{
    borsh::from_slice::<u64>(input)
}

impl TransferIx {
    /// Decodes an instruction payload.
    pub fn unpack(input: &[u8]) -> (res: Result<TransferIx, TransferError>)
        ensures
            match decoded(input@) {
                Some(request) => res == Ok::<TransferIx, TransferError>(request),
                None => res == Err::<TransferIx, TransferError>(
                    TransferError::InvalidInstructionData,
                ),
            },
    {
        match u64_from_slice(input) {
            Ok(amount) => Ok(TransferIx { amount }),
            Err(_) => Err(TransferError::InvalidInstructionData),
        }
    }

    /// Encodes the request as an instruction payload.
    pub fn pack(&self) -> (bytes: Vec<u8>)
        ensures
            bytes@ == le_bytes(self.amount),
    {
        let amount: u64 = self.amount;
        let bytes = vec![
            (amount % 0x100) as u8,
            (amount / 0x100 % 0x100) as u8,
            (amount / 0x1_0000 % 0x100) as u8,
            (amount / 0x100_0000 % 0x100) as u8,
            (amount / 0x1_0000_0000 % 0x100) as u8,
            (amount / 0x100_0000_0000 % 0x100) as u8,
            (amount / 0x1_0000_0000_0000 % 0x100) as u8,
            (amount / 0x100_0000_0000_0000 % 0x100) as u8,
        ];
        assert(bytes@ =~= le_bytes(self.amount));
        bytes
    }
}

/// Splitting a number into its little-endian digits in base 256: the digit
/// at each place is the number, shifted down by that many places, modulo 256.
proof fn lemma_places(value: int)
    requires
        0 <= value,
    ensures
        value / 0x1_0000 == value / 0x100 / 0x100,
        value / 0x100_0000 == value / 0x1_0000 / 0x100,
        value / 0x1_0000_0000 == value / 0x100_0000 / 0x100,
        value / 0x100_0000_0000 == value / 0x1_0000_0000 / 0x100,
        value / 0x1_0000_0000_0000 == value / 0x100_0000_0000 / 0x100,
        value / 0x100_0000_0000_0000 == value / 0x1_0000_0000_0000 / 0x100,
        value / 0x1_0000_0000_0000_0000 == value / 0x100_0000_0000_0000 / 0x100,
{
    lemma_div_denominator(value, 0x100, 0x100);
    lemma_div_denominator(value, 0x1_0000, 0x100);
    lemma_div_denominator(value, 0x100_0000, 0x100);
    lemma_div_denominator(value, 0x1_0000_0000, 0x100);
    lemma_div_denominator(value, 0x100_0000_0000, 0x100);
    lemma_div_denominator(value, 0x1_0000_0000_0000, 0x100);
    lemma_div_denominator(value, 0x100_0000_0000_0000, 0x100);
}

/// Every amount survives encoding and decoding: its payload has eight bytes
/// and decodes to the request it came from.
pub proof fn lemma_pack_then_unpack(request: TransferIx)
    ensures
        le_bytes(request.amount).len() == PAYLOAD_BYTES,
        decoded(le_bytes(request.amount)) == Some(request),
{
    let value = request.amount as int;
    lemma_places(value);
    let q1 = value / 0x100;
    let q2 = q1 / 0x100;
    let q3 = q2 / 0x100;
    let q4 = q3 / 0x100;
    let q5 = q4 / 0x100;
    let q6 = q5 / 0x100;
    let q7 = q6 / 0x100;
    assert(q7 / 0x100 == 0);
    assert(value == value % 0x100 + 0x100 * (q1 % 0x100) + 0x1_0000 * (q2 % 0x100) + 0x100_0000
        * (q3 % 0x100) + 0x1_0000_0000 * (q4 % 0x100) + 0x100_0000_0000 * (q5 % 0x100)
        + 0x1_0000_0000_0000 * (q6 % 0x100) + 0x100_0000_0000_0000 * (q7 % 0x100));
    assert(le_u64(le_bytes(request.amount)) == request.amount);
}

/// Every well-formed payload survives decoding and encoding: packing the
/// request that eight bytes decode to gives the same eight bytes.
pub proof fn lemma_unpack_then_pack(input: Seq<u8>)
    requires
        input.len() == PAYLOAD_BYTES,
    ensures
        decoded(input) is Some,
        le_bytes(decoded(input).unwrap().amount) == input,
{
    let v7 = input[7] as int;
    let v6 = input[6] as int + 0x100 * v7;
    let v5 = input[5] as int + 0x100 * v6;
    let v4 = input[4] as int + 0x100 * v5;
    let v3 = input[3] as int + 0x100 * v4;
    let v2 = input[2] as int + 0x100 * v3;
    let v1 = input[1] as int + 0x100 * v2;
    let v0 = input[0] as int + 0x100 * v1;
    assert(le_u64(input) == v0);
    lemma_places(v0);
    assert(v0 / 0x100 == v1);
    assert(v1 / 0x100 == v2);
    assert(v2 / 0x100 == v3);
    assert(v3 / 0x100 == v4);
    assert(v4 / 0x100 == v5);
    assert(v5 / 0x100 == v6);
    assert(v6 / 0x100 == v7);
    assert(le_bytes(le_u64(input)) =~= input);
}

} // verus!
