use vstd::prelude::*;

use vstd::bytes::lemma_auto_spec_u64_to_from_le_bytes;
use vstd::bytes::spec_u64_from_le_bytes;
use vstd::bytes::spec_u64_to_le_bytes;
use vstd::bytes::u64_from_le_bytes;
use vstd::bytes::u64_to_le_bytes;
use vstd::slice::slice_subrange;

use crate::errors::CounterError;
use crate::state::Identity;

verus! {

/// Every operation the counter program accepts, in encoding order of
/// declaration: the leading byte of an encoded instruction is the variant's
/// 0-based index here, and changing this order would break every caller that
/// hard-codes the bytes.
#[derive(Clone, Copy, Debug, PartialEq, Eq, Structural)]
pub enum CounterInstruction {
    /// Create the primary account's counter record with a starting value.
    InitializeCounter { initial_value: u64 },
    /// Add one to the primary account's counter record.
    IncrementCounter,
    /// Ask the host to increment a counter of the companion program, with
    /// the nested instruction built the way its generated client builds it.
    IncrementAnchorCounter,
    /// The same nested call as [`CounterInstruction::IncrementAnchorCounter`],
    /// with the instruction bytes written out from the published constant.
    IncrementAnchorCounterRaw,
    /// Ask the host to run this program's own increment as a nested call.
    IncrementCounterSelfCpi,
    /// The same self-referential call as
    /// [`CounterInstruction::IncrementCounterSelfCpi`], built the way the
    /// generated client of this program builds it.
    IncrementCounterCodamaClient,
}

/// One account reference inside a nested instruction: which account the
/// callee receives, and with which access the host should hand it over.
#[derive(Clone, Copy, Debug, PartialEq, Eq, Structural)]
pub struct InstructionAccount {
    pub key: Identity,
    pub is_writable: bool,
    pub is_signer: bool,
}

/// A nested instruction: the triple a handler hands back to the host runtime
/// when an operation calls into another program (or back into this one). The
/// host executes it synchronously inside the current transaction, so if the
/// sub-call fails, the whole call fails and every write is rolled back.
#[derive(Clone, Debug, PartialEq, Eq)]
pub struct NestedInstruction {
    /// The program asked to run the sub-call.
    pub program_id: Identity,
    /// The accounts the callee receives, in the exact order it expects.
    pub accounts: Vec<InstructionAccount>,
    /// The encoded operation the callee is asked to run.
    pub data: Vec<u8>,
}

impl CounterInstruction {
    /// The byte encoding of an operation: one leading discriminant byte,
    /// then the little-endian fixed-width encoding of each payload field in
    /// declaration order. Payload-less variants are a single byte.
    pub open spec fn spec_encode(self) -> Seq<u8> {
        match self {
            CounterInstruction::InitializeCounter { initial_value } => seq![0u8]
                + spec_u64_to_le_bytes(initial_value),
            CounterInstruction::IncrementCounter => seq![1u8],
            CounterInstruction::IncrementAnchorCounter => seq![2u8],
            CounterInstruction::IncrementAnchorCounterRaw => seq![3u8],
            CounterInstruction::IncrementCounterSelfCpi => seq![4u8],
            CounterInstruction::IncrementCounterCodamaClient => seq![5u8],
        }
    }

    /// The operation a byte sequence encodes. Decoding fails, always with
    /// [`CounterError::InvalidInstructionData`], when the sequence is empty,
    /// when the discriminant byte is at least the variant count, or when
    /// fewer bytes follow the discriminant than its payload needs. Bytes
    /// after a fully decoded payload are ignored.
    pub open spec fn spec_decode(data: Seq<u8>) -> Result<CounterInstruction, CounterError> {
        if data.len() == 0 {
            Err(CounterError::InvalidInstructionData)
        } else if data[0] == 0 {
            if data.len() >= 9 {
                Ok(CounterInstruction::InitializeCounter {
                    initial_value: spec_u64_from_le_bytes(data.subrange(1, 9)),
                })
            } else {
                Err(CounterError::InvalidInstructionData)
            }
        } else if data[0] == 1 {
            Ok(CounterInstruction::IncrementCounter)
        } else if data[0] == 2 {
            Ok(CounterInstruction::IncrementAnchorCounter)
        } else if data[0] == 3 {
            Ok(CounterInstruction::IncrementAnchorCounterRaw)
        } else if data[0] == 4 {
            Ok(CounterInstruction::IncrementCounterSelfCpi)
        } else if data[0] == 5 {
            Ok(CounterInstruction::IncrementCounterCodamaClient)
        } else {
            Err(CounterError::InvalidInstructionData)
        }
    }

    /// Encodes this operation into its wire bytes.
    pub fn encode(&self) -> (r: Vec<u8>)
        ensures
            r@ == self.spec_encode(),
    {
        match self {
            CounterInstruction::InitializeCounter { initial_value } => {
                let mut out: Vec<u8> = Vec::new();
                out.push(0u8);
                let mut payload = u64_to_le_bytes(*initial_value);
                out.append(&mut payload);
                proof {
                    assert(out@ =~= self.spec_encode());
                }
                out
            },
            CounterInstruction::IncrementCounter => {
                let out = vec![1u8];
                proof {
                    assert(out@ =~= self.spec_encode());
                }
                out
            },
            CounterInstruction::IncrementAnchorCounter => {
                let out = vec![2u8];
                proof {
                    assert(out@ =~= self.spec_encode());
                }
                out
            },
            CounterInstruction::IncrementAnchorCounterRaw => {
                let out = vec![3u8];
                proof {
                    assert(out@ =~= self.spec_encode());
                }
                out
            },
            CounterInstruction::IncrementCounterSelfCpi => {
                let out = vec![4u8];
                proof {
                    assert(out@ =~= self.spec_encode());
                }
                out
            },
            CounterInstruction::IncrementCounterCodamaClient => {
                let out = vec![5u8];
                proof {
                    assert(out@ =~= self.spec_encode());
                }
                out
            },
        }
    }

    /// Decodes wire bytes back into the operation they encode.
    pub fn decode(data: &Vec<u8>) -> (r: Result<CounterInstruction, CounterError>)
        ensures
            r == CounterInstruction::spec_decode(data@),
    {
        if data.len() == 0 {
            return Err(CounterError::InvalidInstructionData);
        }
        let tag = data[0];
        if tag == 0 {
            if data.len() < 9 {
                return Err(CounterError::InvalidInstructionData);
            }
            let initial_value = u64_from_le_bytes(slice_subrange(data.as_slice(), 1, 9));
            Ok(CounterInstruction::InitializeCounter { initial_value })
        } else if tag == 1 {
            Ok(CounterInstruction::IncrementCounter)
        } else if tag == 2 {
            Ok(CounterInstruction::IncrementAnchorCounter)
        } else if tag == 3 {
            Ok(CounterInstruction::IncrementAnchorCounterRaw)
        } else if tag == 4 {
            Ok(CounterInstruction::IncrementCounterSelfCpi)
        } else if tag == 5 {
            Ok(CounterInstruction::IncrementCounterCodamaClient)
        } else {
            Err(CounterError::InvalidInstructionData)
        }
    }
}

/// Round trip: decoding the encoding of any constructible operation yields
/// that operation back, even when further bytes trail the encoding.
pub proof fn lemma_encode_decode_round_trip(op: CounterInstruction, trailing: Seq<u8>)
    ensures
        CounterInstruction::spec_decode(op.spec_encode()) == Ok::<
            CounterInstruction,
            CounterError,
        >(op),
        CounterInstruction::spec_decode(op.spec_encode() + trailing) == Ok::<
            CounterInstruction,
            CounterError,
        >(op),
{
    lemma_auto_spec_u64_to_from_le_bytes();
    let b = op.spec_encode();
    let e = b + trailing;
    assert(e.len() == b.len() + trailing.len());
    match op {
        CounterInstruction::InitializeCounter { initial_value } => {
            assert(b.subrange(1, 9) =~= spec_u64_to_le_bytes(initial_value));
            assert(e.subrange(1, 9) =~= spec_u64_to_le_bytes(initial_value));
        },
        _ => {},
    }
}

/// Decoding rejects the empty byte sequence, any leading byte at or beyond
/// the variant count, and a payload cut short, always with
/// [`CounterError::InvalidInstructionData`].
pub proof fn lemma_decode_rejects_malformed(data: Seq<u8>)
    ensures
        data.len() == 0 ==> CounterInstruction::spec_decode(data) == Err::<
            CounterInstruction,
            CounterError,
        >(CounterError::InvalidInstructionData),
        data.len() > 0 && data[0] >= 6 ==> CounterInstruction::spec_decode(data) == Err::<
            CounterInstruction,
            CounterError,
        >(CounterError::InvalidInstructionData),
        0 < data.len() < 9 && data[0] == 0 ==> CounterInstruction::spec_decode(data) == Err::<
            CounterInstruction,
            CounterError,
        >(CounterError::InvalidInstructionData),
{
}

} // verus!
