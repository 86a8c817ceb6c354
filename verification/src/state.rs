use vstd::prelude::*;

use vstd::bytes::lemma_auto_spec_u64_to_from_le_bytes;
use vstd::bytes::spec_u64_from_le_bytes;
use vstd::bytes::spec_u64_to_le_bytes;
use vstd::bytes::u64_from_le_bytes;
use vstd::bytes::u64_to_le_bytes;
use vstd::slice::slice_subrange;

use crate::errors::CounterError;

verus! {

/// A 32-byte identity, as the host runtime assigns one to every program and
/// account. It is stored as four 64-bit words; on the wire the words appear
/// in order, each in little-endian byte order.
#[derive(Clone, Copy, Debug, PartialEq, Eq, Structural)]
pub struct Identity {
    pub w0: u64,
    pub w1: u64,
    pub w2: u64,
    pub w3: u64,
}

impl Identity {
    /// The 32-byte wire form of this identity.
    pub open spec fn spec_to_le_bytes(self) -> Seq<u8> {
        spec_u64_to_le_bytes(self.w0) + spec_u64_to_le_bytes(self.w1)
            + spec_u64_to_le_bytes(self.w2) + spec_u64_to_le_bytes(self.w3)
    }

    /// The identity whose wire form a 32-byte sequence is.
    pub open spec fn spec_from_le_bytes(s: Seq<u8>) -> Identity
        recommends
            s.len() == 32,
    {
        Identity {
            w0: spec_u64_from_le_bytes(s.subrange(0, 8)),
            w1: spec_u64_from_le_bytes(s.subrange(8, 16)),
            w2: spec_u64_from_le_bytes(s.subrange(16, 24)),
            w3: spec_u64_from_le_bytes(s.subrange(24, 32)),
        }
    }

    /// Encodes this identity as its 32-byte wire form.
    pub fn to_le_bytes(&self) -> (r: Vec<u8>)
        ensures
            r@ == self.spec_to_le_bytes(),
            r@.len() == 32,
    {
        let mut out = u64_to_le_bytes(self.w0);
        let mut rest = u64_to_le_bytes(self.w1);
        out.append(&mut rest);
        let mut rest = u64_to_le_bytes(self.w2);
        out.append(&mut rest);
        let mut rest = u64_to_le_bytes(self.w3);
        out.append(&mut rest);
        out
    }

    /// Reads an identity back from its 32-byte wire form.
    pub fn from_le_bytes(s: &[u8]) -> (r: Identity)
        requires
            s@.len() == 32,
        ensures
            r == Identity::spec_from_le_bytes(s@),
    {
        Identity {
            w0: u64_from_le_bytes(slice_subrange(s, 0, 8)),
            w1: u64_from_le_bytes(slice_subrange(s, 8, 16)),
            w2: u64_from_le_bytes(slice_subrange(s, 16, 24)),
            w3: u64_from_le_bytes(slice_subrange(s, 24, 32)),
        }
    }
}

/// Decoding an identity's wire form yields the identity back, and encoding
/// what was decoded from 32 bytes yields those bytes: the 32-byte wire form
/// loses nothing.
pub proof fn lemma_identity_bytes_round_trip(id: Identity, s: Seq<u8>)
    ensures
        Identity::spec_from_le_bytes(id.spec_to_le_bytes()) == id,
        s.len() == 32 ==> Identity::spec_from_le_bytes(s).spec_to_le_bytes() == s,
{
    lemma_auto_spec_u64_to_from_le_bytes();
    let b = id.spec_to_le_bytes();
    assert(b.subrange(0, 8) =~= spec_u64_to_le_bytes(id.w0));
    assert(b.subrange(8, 16) =~= spec_u64_to_le_bytes(id.w1));
    assert(b.subrange(16, 24) =~= spec_u64_to_le_bytes(id.w2));
    assert(b.subrange(24, 32) =~= spec_u64_to_le_bytes(id.w3));
    if s.len() == 32 {
        assert(Identity::spec_from_le_bytes(s).spec_to_le_bytes() =~= s);
    }
}

/// The record persisted in a counter account: a single unsigned 64-bit
/// count. Its storage layout is the flat little-endian encoding of that
/// field, 8 bytes, with no internal versioning tag.
#[derive(Clone, Copy, Debug, PartialEq, Eq, Structural)]
pub struct CounterAccount {
    pub count: u64,
}

impl CounterAccount {
    /// The 8-byte storage form of this record.
    pub open spec fn spec_to_bytes(self) -> Seq<u8> {
        spec_u64_to_le_bytes(self.count)
    }

    /// The record stored in a byte buffer: its first 8 bytes, little-endian.
    /// A buffer shorter than the record is rejected.
    pub open spec fn spec_from_bytes(data: Seq<u8>) -> Result<CounterAccount, CounterError> {
        if data.len() >= 8 {
            Ok(CounterAccount { count: spec_u64_from_le_bytes(data.subrange(0, 8)) })
        } else {
            Err(CounterError::InvalidInstructionData)
        }
    }

    /// Encodes this record into its 8-byte storage form.
    pub fn to_bytes(&self) -> (r: Vec<u8>)
        ensures
            r@ == self.spec_to_bytes(),
            r@.len() == 8,
    {
        proof {
            lemma_auto_spec_u64_to_from_le_bytes();
        }
        u64_to_le_bytes(self.count)
    }

    /// Reads the record stored at the start of a byte buffer, failing on a
    /// buffer too short to hold one.
    pub fn from_bytes(data: &Vec<u8>) -> (r: Result<CounterAccount, CounterError>)
        ensures
            r == CounterAccount::spec_from_bytes(data@),
    {
        if data.len() < 8 {
            return Err(CounterError::InvalidInstructionData);
        }
        let count = u64_from_le_bytes(slice_subrange(data.as_slice(), 0, 8));
        Ok(CounterAccount { count })
    }
}

/// Reading back an encoded record yields the record: storing a count and
/// reading the account again always shows that same count.
pub proof fn lemma_counter_account_round_trip(a: CounterAccount)
    ensures
        CounterAccount::spec_from_bytes(a.spec_to_bytes()) == Ok::<
            CounterAccount,
            CounterError,
        >(a),
{
    lemma_auto_spec_u64_to_from_le_bytes();
    assert(a.spec_to_bytes().subrange(0, 8) =~= spec_u64_to_le_bytes(a.count));
}

/// The authority-bearing variant of the counter record: besides the count it
/// stores the identity set at creation and never reassigned. Its storage
/// layout is the flat little-endian encoding of the fields in declaration
/// order: 8 bytes of count, then the 32-byte authority, 40 bytes in all.
#[derive(Clone, Copy, Debug, PartialEq, Eq, Structural)]
pub struct Counter {
    pub count: u64,
    pub authority: Identity,
}

impl Counter {
    /// The 40-byte storage form of this record.
    pub open spec fn spec_to_bytes(self) -> Seq<u8> {
        spec_u64_to_le_bytes(self.count) + self.authority.spec_to_le_bytes()
    }

    /// The record stored in a byte buffer: its first 40 bytes. A buffer
    /// shorter than the record is rejected.
    pub open spec fn spec_from_bytes(data: Seq<u8>) -> Result<Counter, CounterError> {
        if data.len() >= 40 {
            Ok(Counter {
                count: spec_u64_from_le_bytes(data.subrange(0, 8)),
                authority: Identity::spec_from_le_bytes(data.subrange(8, 40)),
            })
        } else {
            Err(CounterError::InvalidInstructionData)
        }
    }

    /// Encodes this record into its 40-byte storage form.
    pub fn to_bytes(&self) -> (r: Vec<u8>)
        ensures
            r@ == self.spec_to_bytes(),
            r@.len() == 40,
    {
        proof {
            lemma_auto_spec_u64_to_from_le_bytes();
        }
        let mut out = u64_to_le_bytes(self.count);
        let mut rest = self.authority.to_le_bytes();
        out.append(&mut rest);
        out
    }

    /// Reads the record stored at the start of a byte buffer, failing on a
    /// buffer too short to hold one.
    pub fn from_bytes(data: &Vec<u8>) -> (r: Result<Counter, CounterError>)
        ensures
            r == Counter::spec_from_bytes(data@),
    {
        if data.len() < 40 {
            return Err(CounterError::InvalidInstructionData);
        }
        let count = u64_from_le_bytes(slice_subrange(data.as_slice(), 0, 8));
        let authority = Identity::from_le_bytes(slice_subrange(data.as_slice(), 8, 40));
        Ok(Counter { count, authority })
    }
}

/// Reading back an encoded authority-bearing record yields the record.
pub proof fn lemma_counter_round_trip(c: Counter)
    ensures
        Counter::spec_from_bytes(c.spec_to_bytes()) == Ok::<Counter, CounterError>(c),
{
    lemma_auto_spec_u64_to_from_le_bytes();
    lemma_identity_bytes_round_trip(c.authority, c.authority.spec_to_le_bytes());
    let b = c.spec_to_bytes();
    assert(b.subrange(0, 8) =~= spec_u64_to_le_bytes(c.count));
    assert(b.subrange(8, 40) =~= c.authority.spec_to_le_bytes());
}

/// Creates an authority-bearing counter record: the count starts at the
/// given value and the authority is the creating identity, which no later
/// operation reassigns.
pub fn initialize_counter(initial_value: u64, authority: Identity) -> (c: Counter)
    ensures
        c.count == initial_value,
        c.authority == authority,
{
    Counter { count: initial_value, authority }
}

/// Adds one to an authority-bearing counter record with checked arithmetic:
/// at the largest representable count the record is left exactly as it was
/// and the call fails with [`CounterError::CounterOverflow`]; otherwise only
/// the count changes, to one more than it was.
pub fn increment_counter(counter: &mut Counter) -> (r: Result<(), CounterError>)
    ensures
        old(counter).count < u64::MAX ==> {
            &&& r == Ok::<(), CounterError>(())
            &&& final(counter).count == old(counter).count + 1
            &&& final(counter).authority == old(counter).authority
        },
        old(counter).count == u64::MAX ==> {
            &&& r == Err::<(), CounterError>(CounterError::CounterOverflow)
            &&& *final(counter) == *old(counter)
        },
{
    if counter.count == u64::MAX {
        return Err(CounterError::CounterOverflow);
    }
    counter.count = counter.count + 1;
    Ok(())
}

/// One account handle, as the host runtime supplies it for a call: an
/// identity naming the account, the identity of the program that owns its
/// storage, whether the account signed the transaction, and the persisted
/// byte buffer itself. The program never allocates or frees handles; it only
/// reads and writes the buffer and reads the metadata.
#[derive(Clone, Debug)]
pub struct AccountHandle {
    pub key: Identity,
    pub owner: Identity,
    pub is_signer: bool,
    pub data: Vec<u8>,
}

} // verus!
