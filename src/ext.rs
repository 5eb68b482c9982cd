//! The host interface that contract code runs against in one call frame.
use vstd::prelude::*;
use crate::state::State;
use crate::substate::{Substate, with_once};
use crate::types::{
    ActionParams, Address, BytesRef, EnvInfo, Error, H256, LogEntry, OutputPolicy, Schedule,
    copy_bytes,
};

verus! {

/// Whether writing `new_value` over `old_value` earns a storage-clearing refund.
pub open spec fn refund_due(old_value: H256, new_value: H256) -> bool {
    new_value.is_zero_spec() && !old_value.is_zero_spec()
}

/// First block number whose hash is visible from block `current`.
pub open spec fn window_start(current: nat) -> nat {
    if current < 256 {
        0
    } else {
        (current - 256) as nat
    }
}

/// Hash of block `number` as seen from block `current` with ancestor hashes `hashes`
/// (most recent first): the stored hash for the 256 blocks strictly before `current`,
/// zero for any other number or where no hash is stored.
pub open spec fn block_hash(current: nat, hashes: Seq<H256>, number: int) -> H256 {
    if window_start(current) <= number < current && current - number - 1 < hashes.len() {
        hashes[current - number - 1]
    } else {
        H256::zero_spec()
    }
}

/// `buf` with the longest prefix of `data` that fits copied over its start.
pub open spec fn fill_fixed(buf: Seq<u8>, data: Seq<u8>) -> Seq<u8> {
    let n = if buf.len() < data.len() {
        buf.len()
    } else {
        data.len()
    };
    data.subrange(0, n as int) + buf.subrange(n as int, buf.len() as int)
}

fn copy_into(buf: &mut Vec<u8>, data: &[u8])
    ensures
        final(buf)@ == fill_fixed(old(buf)@, data@),
{
    let n: usize = if buf.len() < data.len() {
        buf.len()
    } else {
        data.len()
    };
    let mut i: usize = 0;
    while i < n
        invariant
            n <= old(buf)@.len(),
            n <= data@.len(),
            n == old(buf)@.len() || n == data@.len(),
            i <= n,
            buf@.len() == old(buf)@.len(),
            forall|j: int| 0 <= j < i ==> buf@[j] == data@[j],
            forall|j: int| i <= j < buf@.len() ==> buf@[j] == old(buf)@[j],
        decreases n - i,
    {
        buf.set(i, data[i]);
        i = i + 1;
    }
    assert(buf@ =~= fill_fixed(old(buf)@, data@));
}

/// Outcome of admitting a message call.
pub enum CallStep {
    /// The call was declined (balance too low or depth at its limit): it counts as a
    /// success that returns `gas`.
    Declined { gas: u128 },
    /// A nested frame is to run with the given parameters.
    Run(SubCall),
}

/// A nested message-call frame to run, and the caller's gas left after paying for it.
pub struct SubCall {
    pub remaining: u128,
    pub params: ActionParams,
}

impl SubCall {
    /// The call's result once the nested frame ended: `Some(gas_left)` on success,
    /// `None` on failure, which forfeits all gas given to the frame.
    pub fn finish(&self, outcome: Option<u128>) -> (r: (u128, bool))
        requires
            outcome matches Some(g) ==> self.remaining + g <= u128::MAX,
        ensures
            r == match outcome {
                Some(g) => ((self.remaining + g) as u128, true),
                None => (self.remaining, false),
            },
    {
        match outcome {
            Some(g) => (self.remaining + g, true),
            None => (self.remaining, false),
        }
    }
}

/// Outcome of admitting a contract creation.
pub enum CreateStep {
    /// The creation was declined (balance too low or depth at its limit): all of `gas`
    /// comes back and no contract is made.
    Declined { gas: u128 },
    /// A creation frame is to run; the creator's nonce has been used up.
    Run(CreateRequest),
}

/// A creation frame to run. Its address is derived from `creator` and `nonce`.
pub struct CreateRequest {
    pub creator: Address,
    pub nonce: u64,
    pub origin: Address,
    pub gas: u128,
    pub gas_price: u128,
    pub value: u128,
    pub code: Vec<u8>,
}

impl CreateRequest {
    /// Parameters of the creation frame, given the derived address of the new contract.
    pub fn params(self, address: Address) -> (r: ActionParams)
        ensures
            r == (ActionParams {
                address,
                sender: self.creator,
                origin: self.origin,
                gas: self.gas,
                gas_price: self.gas_price,
                value: self.value,
                code: self.code,
                data: r.data,
            }),
            r.data@ == Seq::<u8>::empty(),
    {
        ActionParams {
            address,
            sender: self.creator,
            origin: self.origin,
            gas: self.gas,
            gas_price: self.gas_price,
            value: self.value,
            code: self.code,
            data: Vec::new(),
        }
    }
}

/// A creation's result once its frame ended: `Some(gas_left)` on success gives the new
/// address; failure forfeits all gas.
pub fn finish_create(outcome: Option<u128>, address: Address) -> (r: (u128, Option<Address>))
    ensures
        r == match outcome {
            Some(g) => (g, Some(address)),
            None => (0u128, None::<Address>),
        },
{
    match outcome {
        Some(g) => (g, Some(address)),
        None => (0, None),
    }
}

/// One call frame's view of the world: the state and transaction substate it
/// changes, and the block, parameters, schedule and output policy it runs under.
pub struct Externalities {
    pub state: State,
    pub info: EnvInfo,
    pub depth: usize,
    pub params: ActionParams,
    pub substate: Substate,
    pub schedule: Schedule,
    pub output: OutputPolicy,
}

impl Externalities {
    pub open spec fn wf(&self) -> bool {
        self.state.wf() && self.substate.wf()
    }

    /// Block, depth, parameters, schedule and output policy agree.
    pub open spec fn same_frame(&self, other: &Externalities) -> bool {
        &&& self.info == other.info
        &&& self.depth == other.depth
        &&& self.params == other.params
        &&& self.schedule == other.schedule
        &&& self.output == other.output
    }

    pub fn new(
        state: State,
        info: EnvInfo,
        schedule: Schedule,
        depth: usize,
        params: ActionParams,
        substate: Substate,
        output: OutputPolicy,
    ) -> (r: Externalities)
        ensures
            r == (Externalities { state, info, depth, params, substate, schedule, output }),
    {
        Externalities { state, info, depth, params, substate, schedule, output }
    }

    /// Reads a storage slot of the executing account.
    pub fn sload(&self, key: &H256) -> (r: H256)
        requires
            self.wf(),
        ensures
            r == self.state@.storage_at(self.params.address, *key),
    {
        self.state.storage_at(&self.params.address, key)
    }

    /// Writes a storage slot of the executing account, crediting one refund when a
    /// non-zero slot is cleared.
    pub fn sstore(&mut self, key: H256, value: H256)
        requires
            old(self).wf(),
            old(self).substate.refunds_count < u128::MAX,
        ensures
            final(self).wf(),
            final(self).same_frame(old(self)),
            final(self).state@ == old(self).state@.with_storage(
                old(self).params.address,
                key,
                value,
            ),
            final(self).substate.refunds_count == old(self).substate.refunds_count + if refund_due(
                old(self).state@.storage_at(old(self).params.address, key),
                value,
            ) {
                1int
            } else {
                0int
            },
            final(self).substate.logs == old(self).substate.logs,
            final(self).substate.suicides == old(self).substate.suicides,
            final(self).substate.contracts_created == old(self).substate.contracts_created,
    {
        if value.is_zero() && !self.state.storage_at(&self.params.address, &key).is_zero() {
            self.substate.refunds_count = self.substate.refunds_count + 1;
        }
        self.state.set_storage(&self.params.address, key, value);
    }

    pub fn balance(&self, address: &Address) -> (r: u128)
        requires
            self.wf(),
        ensures
            r == self.state@.balance(*address),
    {
        self.state.balance(address)
    }

    /// Hash of block `number`, zero outside the 256 blocks before the current one.
    pub fn blockhash(&self, number: u128) -> (r: H256)
        ensures
            r == block_hash(self.info.number as nat, self.info.last_hashes@, number as int),
    {
        let current = self.info.number;
        let start: u64 = if current < 256 {
            0
        } else {
            current - 256
        };
        if number < current as u128 && number >= start as u128 {
            let index = (current - number as u64 - 1) as usize;
            if index < self.info.last_hashes.len() {
                return self.info.last_hashes[index];
            }
        }
        H256::zero()
    }

    /// Code of `address`, empty where it has none.
    pub fn extcode(&self, address: &Address) -> (r: Vec<u8>)
        requires
            self.wf(),
        ensures
            r@ == self.state@.code(*address),
    {
        self.state.code(address)
    }

    /// Appends a log entry tagged with the executing address.
    pub fn log(&mut self, topics: Vec<H256>, data: Vec<u8>)
        requires
            old(self).wf(),
        ensures
            final(self).wf(),
            final(self).same_frame(old(self)),
            final(self).state == old(self).state,
            final(self).substate.logs@ == old(self).substate.logs@.push(
                LogEntry { address: old(self).params.address, topics, data },
            ),
            final(self).substate.suicides == old(self).substate.suicides,
            final(self).substate.contracts_created == old(self).substate.contracts_created,
            final(self).substate.refunds_count == old(self).substate.refunds_count,
    {
        let address = self.params.address;
        self.substate.logs.push(LogEntry::new(address, topics, data));
    }

    /// Sends the executing account's whole balance to `refund_address` (itself
    /// included) and schedules the account for removal.
    pub fn suicide(&mut self, refund_address: &Address)
        requires
            old(self).wf(),
            *refund_address != old(self).params.address ==> old(self).state@.balance(
                *refund_address,
            ) + old(self).state@.balance(old(self).params.address) <= u128::MAX,
        ensures
            final(self).wf(),
            final(self).same_frame(old(self)),
            final(self).state@ == old(self).state@.transfer(
                old(self).params.address,
                *refund_address,
                old(self).state@.balance(old(self).params.address),
            ),
            final(self).substate.suicides@ == with_once(
                old(self).substate.suicides@,
                old(self).params.address,
            ),
            final(self).substate.logs == old(self).substate.logs,
            final(self).substate.contracts_created == old(self).substate.contracts_created,
            final(self).substate.refunds_count == old(self).substate.refunds_count,
    {
        let address = self.params.address;
        let balance = self.state.balance(&address);
        self.state.transfer_balance(&address, refund_address, balance);
        self.substate.add_suicide(address);
    }

    pub fn schedule(&self) -> (r: &Schedule)
        ensures
            *r == self.schedule,
    {
        &self.schedule
    }

    pub fn env_info(&self) -> (r: &EnvInfo)
        ensures
            *r == self.info,
    {
        &self.info
    }

    /// Whether a CALL or CREATE moving `value` may run a nested frame: the executing
    /// account can pay and the depth limit is not reached.
    pub open spec fn admits(&self, value: u128) -> bool {
        self.state@.balance(self.params.address) >= value && self.depth < self.schedule.max_depth
    }

    /// Gas a call costs the caller: what it forwards, the new-account surcharge for a
    /// direct call to a missing account, and the value-transfer surcharge.
    pub open spec fn call_cost(
        &self,
        call_gas: u128,
        receive_address: Address,
        value: u128,
        code_address: Address,
    ) -> int {
        call_gas + (if receive_address == code_address && !self.state@.has_account(code_address) {
            self.schedule.call_new_account_gas as int
        } else {
            0int
        }) + (if value > 0 {
            self.schedule.call_value_transfer_gas as int
        } else {
            0int
        })
    }

    /// Gas the callee receives: what is forwarded, plus the stipend when value is sent.
    pub open spec fn call_forwarded(&self, call_gas: u128, value: u128) -> int {
        call_gas + if value > 0 {
            self.schedule.call_stipend as int
        } else {
            0int
        }
    }

    /// Charges for and admits a message call. Nothing changes here: a nested frame that
    /// runs is described by the returned step, and `SubCall::finish` gives the result.
    pub fn call(
        &self,
        gas: u128,
        call_gas: u128,
        receive_address: &Address,
        value: u128,
        data: &[u8],
        code_address: &Address,
    ) -> (r: Result<CallStep, Error>)
        requires
            self.wf(),
        ensures
            value > 0 && self.schedule.call_value_transfer_gas <= self.schedule.call_stipend
                ==> r == Err::<CallStep, Error>(Error::StipendNotCovered),
            !(value > 0 && self.schedule.call_value_transfer_gas <= self.schedule.call_stipend)
                ==> {
                let cost = self.call_cost(call_gas, *receive_address, value, *code_address);
                let fwd = self.call_forwarded(call_gas, value);
                if cost > gas {
                    r == Err::<CallStep, Error>(Error::OutOfGas)
                } else if !self.admits(value) {
                    r == Ok::<CallStep, Error>(CallStep::Declined { gas: (gas - cost + fwd) as u128 })
                } else {
                    &&& r matches Ok(CallStep::Run(sub))
                    &&& sub.remaining == gas - cost
                    &&& sub.params.address == *receive_address
                    &&& sub.params.sender == self.params.address
                    &&& sub.params.origin == self.params.origin
                    &&& sub.params.gas == fwd
                    &&& sub.params.gas_price == self.params.gas_price
                    &&& sub.params.value == value
                    &&& sub.params.code@ == self.state@.code(*code_address)
                    &&& sub.params.data@ == data@
                }
            },
    {
        let new_account: u128 = if *receive_address == *code_address && !self.state.has_account(
            code_address,
        ) {
            self.schedule.call_new_account_gas as u128
        } else {
            0
        };
        let mut surcharge: u128 = new_account;
        let mut stipend: u128 = 0;
        if value > 0 {
            if self.schedule.call_value_transfer_gas <= self.schedule.call_stipend {
                return Err(Error::StipendNotCovered);
            }
            surcharge = surcharge + self.schedule.call_value_transfer_gas as u128;
            stipend = self.schedule.call_stipend as u128;
        }
        if call_gas > gas || surcharge > gas - call_gas {
            return Err(Error::OutOfGas);
        }
        let remaining = gas - call_gas - surcharge;
        let forwarded = call_gas + stipend;
        if self.state.balance(&self.params.address) < value || self.depth >= self.schedule.max_depth {
            return Ok(CallStep::Declined { gas: remaining + forwarded });
        }
        let params = ActionParams {
            address: *receive_address,
            sender: self.params.address,
            origin: self.params.origin,
            gas: forwarded,
            gas_price: self.params.gas_price,
            value,
            code: self.state.code(code_address),
            data: copy_bytes(data),
        };
        Ok(CallStep::Run(SubCall { remaining, params }))
    }

    /// Admits a contract creation. When admitted, the creator's nonce is used up and the
    /// returned request describes the creation frame; `finish_create` gives the result.
    pub fn create(&mut self, gas: u128, value: u128, code: &[u8]) -> (r: CreateStep)
        requires
            old(self).wf(),
            old(self).state@.nonce(old(self).params.address) < u64::MAX,
        ensures
            final(self).wf(),
            final(self).same_frame(old(self)),
            final(self).substate == old(self).substate,
            !old(self).admits(value) ==> r == (CreateStep::Declined { gas }) && final(self).state
                == old(self).state,
            old(self).admits(value) ==> {
                &&& final(self).state@ == old(self).state@.with_nonce(
                    old(self).params.address,
                    (old(self).state@.nonce(old(self).params.address) + 1) as nat,
                )
                &&& r matches CreateStep::Run(req)
                &&& req.creator == old(self).params.address
                &&& req.nonce == old(self).state@.nonce(old(self).params.address)
                &&& req.origin == old(self).params.origin
                &&& req.gas == gas
                &&& req.gas_price == old(self).params.gas_price
                &&& req.value == value
                &&& req.code@ == code@
            },
    {
        if self.state.balance(&self.params.address) < value || self.depth >= self.schedule.max_depth {
            return CreateStep::Declined { gas };
        }
        let creator = self.params.address;
        let nonce = self.state.nonce(&creator);
        self.state.inc_nonce(&creator);
        CreateStep::Run(
            CreateRequest {
                creator,
                nonce,
                origin: self.params.origin,
                gas,
                gas_price: self.params.gas_price,
                value,
                code: copy_bytes(code),
            },
        )
    }

    /// Code-deposit cost of returning `len` bytes from a creation frame.
    pub open spec fn deposit_cost(&self, len: nat) -> int {
        len * self.schedule.create_data_gas
    }

    /// Commits return data under the frame's output policy. A message call's
    /// destination receives the data and all gas comes back. A creation deposits the
    /// data as the account's code and pays for each byte; where that is unaffordable it
    /// fails or, under a lenient schedule, deposits nothing and keeps the gas.
    pub fn ret(&mut self, gas: u128, data: &[u8]) -> (r: Result<u128, Error>)
        requires
            old(self).wf(),
        ensures
            final(self).wf(),
            final(self).info == old(self).info,
            final(self).depth == old(self).depth,
            final(self).params == old(self).params,
            final(self).schedule == old(self).schedule,
            match old(self).output {
                OutputPolicy::Return(BytesRef::Fixed(buf)) => {
                    &&& r == Ok::<u128, Error>(gas)
                    &&& final(self).state == old(self).state
                    &&& final(self).substate == old(self).substate
                    &&& (final(self).output matches OutputPolicy::Return(BytesRef::Fixed(b)) && b@
                        == fill_fixed(buf@, data@))
                },
                OutputPolicy::Return(BytesRef::Flexible(_)) => {
                    &&& r == Ok::<u128, Error>(gas)
                    &&& final(self).state == old(self).state
                    &&& final(self).substate == old(self).substate
                    &&& (final(self).output matches OutputPolicy::Return(BytesRef::Flexible(b))
                        && b@ == data@)
                },
                OutputPolicy::InitContract => {
                    &&& final(self).output == old(self).output
                    &&& if old(self).deposit_cost(data@.len()) > gas {
                        &&& r == if old(self).schedule.exceptional_failed_code_deposit {
                            Err::<u128, Error>(Error::OutOfGas)
                        } else {
                            Ok::<u128, Error>(gas)
                        }
                        &&& final(self).state == old(self).state
                        &&& final(self).substate == old(self).substate
                    } else {
                        &&& r == Ok::<u128, Error>(
                            (gas - old(self).deposit_cost(data@.len())) as u128,
                        )
                        &&& final(self).state@ == old(self).state@.with_code(
                            old(self).params.address,
                            data@,
                        )
                        &&& final(self).substate.contracts_created@
                            == old(self).substate.contracts_created@.push(old(self).params.address)
                        &&& final(self).substate.logs == old(self).substate.logs
                        &&& final(self).substate.suicides == old(self).substate.suicides
                        &&& final(self).substate.refunds_count == old(self).substate.refunds_count
                    }
                },
            },
    {
        let mut output = OutputPolicy::InitContract;
        core::mem::swap(&mut output, &mut self.output);
        match output {
            OutputPolicy::Return(BytesRef::Fixed(mut buf)) => {
                copy_into(&mut buf, data);
                self.output = OutputPolicy::Return(BytesRef::Fixed(buf));
                Ok(gas)
            },
            OutputPolicy::Return(BytesRef::Flexible(_)) => {
                self.output = OutputPolicy::Return(BytesRef::Flexible(copy_bytes(data)));
                Ok(gas)
            },
            OutputPolicy::InitContract => {
                let len = data.len() as u128;
                let per_byte = self.schedule.create_data_gas as u128;
                proof {
                    assert(len * per_byte <= u128::MAX) by (nonlinear_arith)
                        requires
                            len <= u64::MAX,
                            per_byte <= u64::MAX,
                    ;
                }
                let cost = len * per_byte;
                if cost > gas {
                    return if self.schedule.exceptional_failed_code_deposit {
                        Err(Error::OutOfGas)
                    } else {
                        Ok(gas)
                    };
                }
                let address = self.params.address;
                self.state.init_code(&address, copy_bytes(data));
                self.substate.contracts_created.push(address);
                Ok(gas - cost)
            },
        }
    }
}

} // verus!
