//! Help for arranging the accounts of an instruction.

use solana_sdk::instruction::AccountMeta;
use solana_sdk::pubkey::Pubkey;
use vstd::prelude::*;
use vstd::std_specs::iter::IteratorSpec;

verus! {

/// The key of the next account that `iter` yields, or `None` if it has run
/// out: a list of accounts that is too short is no fault and reads nothing
/// beyond its end.
pub fn next_account<'a>(iter: &mut impl Iterator<Item = &'a AccountMeta>) -> (key: Option<Pubkey>)
    ensures
        IteratorSpec::obeys_prophetic_iter_laws(old(iter)) ==> {
            &&& IteratorSpec::obeys_prophetic_iter_laws(final(iter))
            &&& if IteratorSpec::remaining(old(iter)).len() > 0 {
                &&& key == Some(IteratorSpec::remaining(old(iter))[0].pubkey)
                &&& IteratorSpec::remaining(final(iter)) == IteratorSpec::remaining(
                    old(iter),
                ).drop_first()
            } else {
                &&& key is None
                &&& IteratorSpec::remaining(final(iter)) == IteratorSpec::remaining(old(iter))
            }
        },
{
    match iter.next() {
        Some(meta) => Some(meta.pubkey),
        None => None,
    }
}

} // verus!
