//! Properties that hold across the operations of the host interface.
use vstd::prelude::*;
use crate::ext::{Externalities, block_hash, window_start};
use crate::state::StateView;
use crate::substate::with_once;
use crate::types::{Address, H256};

verus! {

/// A block-hash lookup gives zero for the current block and any later one, and for
/// any block more than 256 blocks behind the current one.
pub proof fn lemma_block_hash_outside_window(current: nat, hashes: Seq<H256>, number: int)
    ensures
        number >= current ==> block_hash(current, hashes, number) == H256::zero_spec(),
        number + 256 < current ==> block_hash(current, hashes, number) == H256::zero_spec(),
        number < 0 ==> block_hash(current, hashes, number) == H256::zero_spec(),
{
}

/// With a full window of 256 stored hashes, the lookup of the block just before the
/// current one gives the first stored hash, and that of the block 256 behind gives the last.
pub proof fn lemma_block_hash_window_edges(current: nat, hashes: Seq<H256>)
    requires
        current >= 256,
        hashes.len() >= 256,
    ensures
        block_hash(current, hashes, current - 1) == hashes[0],
        block_hash(current, hashes, current - 256) == hashes[255],
        window_start(current) == current - 256,
{
}

/// A direct call to a missing account pays the new-account surcharge once on top of
/// what it forwards and the value surcharge; a call to an existing account never pays it.
pub proof fn lemma_new_account_surcharge(
    ext: &Externalities,
    call_gas: u128,
    receive_address: Address,
    value: u128,
    code_address: Address,
)
    ensures
        ({
            let value_part: int = if value > 0 {
                ext.schedule.call_value_transfer_gas as int
            } else {
                0
            };
            &&& receive_address == code_address && !ext.state@.has_account(code_address)
                ==> ext.call_cost(call_gas, receive_address, value, code_address) == call_gas
                + ext.schedule.call_new_account_gas + value_part
            &&& ext.state@.has_account(code_address) ==> ext.call_cost(
                call_gas,
                receive_address,
                value,
                code_address,
            ) == call_gas + value_part
            &&& receive_address != code_address ==> ext.call_cost(
                call_gas,
                receive_address,
                value,
                code_address,
            ) == call_gas + value_part
        }),
{
}

/// Self-destructing to one's own address, once or twice in a row, leaves every
/// account's balance, nonce and code and every storage slot as they were, and lists
/// the address among the removed accounts exactly once.
pub proof fn lemma_self_destruct_to_self(s: StateView, suicides: Seq<Address>, a: Address)
    requires
        suicides.no_duplicates(),
    ensures
        ({
            let s1 = s.transfer(a, a, s.balance(a));
            let s2 = s1.transfer(a, a, s1.balance(a));
            &&& forall|x: Address| #[trigger] s1.account(x) == s.account(x)
            &&& forall|x: Address| #[trigger] s2.account(x) == s.account(x)
            &&& s1.storage == s.storage
            &&& s2.storage == s.storage
        }),
        with_once(with_once(suicides, a), a) == with_once(suicides, a),
        with_once(suicides, a).contains(a),
        with_once(suicides, a).no_duplicates(),
{
    let s1 = s.transfer(a, a, s.balance(a));
    assert forall|x: Address| #[trigger] s1.account(x) == s.account(x) by {}
    let s2 = s1.transfer(a, a, s1.balance(a));
    assert forall|x: Address| #[trigger] s2.account(x) == s1.account(x) by {}
    if !suicides.contains(a) {
        assert(suicides.push(a)[suicides.len() as int] == a);
    }
}

/// Under a schedule whose value surcharge exceeds its stipend, an affordable call
/// never gives back more gas than it was offered: a declined call returns what is left
/// after its cost plus what it would have forwarded, and a nested frame that hands
/// back at most what it received leaves the caller at most the offered gas.
pub proof fn lemma_call_gas_conserved(
    ext: &Externalities,
    gas: u128,
    call_gas: u128,
    receive_address: Address,
    value: u128,
    code_address: Address,
    gas_left: u128,
)
    requires
        ext.schedule.call_value_transfer_gas > ext.schedule.call_stipend,
        ext.call_cost(call_gas, receive_address, value, code_address) <= gas,
        gas_left <= ext.call_forwarded(call_gas, value),
    ensures
        ({
            let cost = ext.call_cost(call_gas, receive_address, value, code_address);
            let fwd = ext.call_forwarded(call_gas, value);
            &&& fwd <= cost
            &&& gas - cost + fwd <= gas
            &&& gas - cost + gas_left <= gas
        }),
{
}

} // verus!
