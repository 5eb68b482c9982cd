//! Plain value types shared by the whole library.
use vstd::prelude::*;

verus! {

/// A 256-bit word (storage key, storage value or block hash), as two 128-bit halves.
#[derive(Clone, Copy, Debug, PartialEq, Eq, Structural)]
pub struct H256 {
    pub hi: u128,
    pub lo: u128,
}

impl H256 {
    /// The all-zero word.
    pub open spec fn zero_spec() -> H256 {
        H256 { hi: 0, lo: 0 }
    }

    pub open spec fn is_zero_spec(self) -> bool {
        self == H256::zero_spec()
    }

    pub fn zero() -> (r: H256)
        ensures
            r == H256::zero_spec(),
    {
        H256 { hi: 0, lo: 0 }
    }

    pub fn is_zero(&self) -> (r: bool)
        ensures
            r == self.is_zero_spec(),
    {
        self.hi == 0 && self.lo == 0
    }
}

/// A 160-bit account address, as a 32-bit high part and a 128-bit low part.
#[derive(Clone, Copy, Debug, PartialEq, Eq, Structural)]
pub struct Address {
    pub hi: u32,
    pub lo: u128,
}

} // verus!

verus! {

/// Copies a byte slice into a fresh vector.
pub fn copy_bytes(src: &[u8]) -> (r: Vec<u8>)
    ensures
        r@ == src@,
{
    let mut r: Vec<u8> = Vec::new();
    let mut i: usize = 0;
    while i < src.len()
        invariant
            i <= src@.len(),
            r@ == src@.subrange(0, i as int),
        decreases src@.len() - i,
    {
        r.push(src[i]);
        i = i + 1;
        assert(r@ =~= src@.subrange(0, i as int));
    }
    assert(r@ =~= src@);
    r
}

} // verus!

verus! {

/// Gas costs and limits in force for one block.
#[derive(Clone, Copy, Debug, PartialEq, Eq, Structural)]
pub struct Schedule {
    /// Deepest call nesting allowed; a CALL or CREATE at this depth is declined.
    pub max_depth: usize,
    /// Gas given to a callee on top of what the caller forwards, when value is sent.
    pub call_stipend: u64,
    /// Extra cost of a call that sends value.
    pub call_value_transfer_gas: u64,
    /// Extra cost of a direct call to an account that does not exist yet.
    pub call_new_account_gas: u64,
    /// Cost of each byte of code deposited by a creation.
    pub create_data_gas: u64,
    /// Whether an unaffordable code deposit fails the creation (else nothing is deposited).
    pub exceptional_failed_code_deposit: bool,
}

/// The block being executed: its number and the hashes of up to 256 blocks before it,
/// most recent first (`last_hashes[0]` is the hash of block `number - 1`).
pub struct EnvInfo {
    pub number: u64,
    pub last_hashes: Vec<H256>,
}

/// One call or creation frame's parameters.
pub struct ActionParams {
    /// Account whose code runs and whose state changes.
    pub address: Address,
    /// Immediate caller.
    pub sender: Address,
    /// Sender of the transaction, the same in every frame.
    pub origin: Address,
    pub gas: u128,
    pub gas_price: u128,
    /// Amount moved into `address`.
    pub value: u128,
    pub code: Vec<u8>,
    pub data: Vec<u8>,
}

/// A log record, tagged with the address that emitted it.
pub struct LogEntry {
    pub address: Address,
    pub topics: Vec<H256>,
    pub data: Vec<u8>,
}

impl LogEntry {
    pub fn new(address: Address, topics: Vec<H256>, data: Vec<u8>) -> (r: LogEntry)
        ensures
            r == (LogEntry { address, topics, data }),
    {
        LogEntry { address, topics, data }
    }
}

/// Errors that halt the current frame.
#[derive(Clone, Copy, Debug, PartialEq, Eq, Structural)]
pub enum Error {
    /// A computed cost exceeds the gas offered.
    OutOfGas,
    /// A value-carrying call under a schedule whose value-transfer cost does not
    /// exceed its stipend: the call would hand out more gas than it charges.
    StipendNotCovered,
}

/// Where a message call's return data goes.
pub enum BytesRef {
    /// A destination of fixed length: the data's prefix that fits is copied over its start.
    Fixed(Vec<u8>),
    /// A growable destination: its contents become the data.
    Flexible(Vec<u8>),
}

/// What RETURN does with the data it is given, fixed for one frame.
pub enum OutputPolicy {
    /// Hand the data back to the caller.
    Return(BytesRef),
    /// Install the data as the code of the account being created.
    InitContract,
}

} // verus!
