//! The bounded search for an unspent output that a transaction may spend.

use vstd::prelude::*;
use crate::collaborators::{check_accepts, check_is_pure};
use crate::ledger::{Entries, Ledger};
use crate::parameters::Height;
use crate::transaction::Transaction;
use crate::transparent::{CoinbaseSpendRestriction, OrderedUtxo, OrderedUtxoView, OutPoint};

verus! {

/// The number of ledger entries that one search looks at before it gives up.
/// A search never goes through the whole ledger: it may miss an output that
/// stands further back.
pub const MAX_PROBES: usize = 100;

/// A rule that says whether an output may be spent under a restriction.
pub type Accepts = spec_fn(OutPoint, CoinbaseSpendRestriction, OrderedUtxoView) -> bool;

/// The rule that `check` computes.
pub open spec fn accepts_of<T, E, F: Fn(OutPoint, CoinbaseSpendRestriction, &OrderedUtxo) -> Result<T, E>>(
    check: F,
) -> Accepts {
    |outpoint: OutPoint, restriction: CoinbaseSpendRestriction, utxo: OrderedUtxoView|
        check_accepts(check, outpoint, restriction, utxo)
}

/// What a look at one ledger entry decides.
#[derive(Clone, Copy, Debug, PartialEq, Eq, Structural)]
pub enum Verdict {
    /// The output can be spent by the transaction as it is.
    AsIs,
    /// The output can be spent once the transaction has given up its
    /// transparent outputs.
    WithoutOutputs,
    /// The output cannot be spent by this transaction.
    Refused,
}

/// What a look at `entry` decides for a transaction that is mined at
/// `spend_height`, spends under `restriction`, and has shielded outputs or not.
pub open spec fn verdict(
    accepts: Accepts,
    entry: (OutPoint, OrderedUtxoView),
    restriction: CoinbaseSpendRestriction,
    has_shielded_outputs: bool,
    spend_height: Height,
) -> Verdict {
    if accepts(entry.0, restriction, entry.1) {
        Verdict::AsIs
    } else if has_shielded_outputs && accepts(
        entry.0,
        CoinbaseSpendRestriction::OnlyShieldedOutputs { spend_height },
        entry.1,
    ) {
        Verdict::WithoutOutputs
    } else {
        Verdict::Refused
    }
}

/// The first position below `limit` whose entry is not refused.
pub open spec fn first_spendable(
    accepts: Accepts,
    entries: Entries,
    restriction: CoinbaseSpendRestriction,
    has_shielded_outputs: bool,
    spend_height: Height,
    limit: nat,
) -> Option<int>
    decreases limit,
{
    if limit == 0 {
        None
    } else {
        match first_spendable(
            accepts,
            entries,
            restriction,
            has_shielded_outputs,
            spend_height,
            (limit - 1) as nat,
        ) {
            Some(i) => Some(i),
            None => if limit - 1 < entries.len() && verdict(
                accepts,
                entries[limit - 1],
                restriction,
                has_shielded_outputs,
                spend_height,
            ) != Verdict::Refused {
                Some(limit - 1)
            } else {
                None
            },
        }
    }
}

/// The position that a search selects: the first of the first
/// [`MAX_PROBES`] entries that is not refused.
pub open spec fn selected(
    accepts: Accepts,
    entries: Entries,
    restriction: CoinbaseSpendRestriction,
    has_shielded_outputs: bool,
    spend_height: Height,
) -> Option<int> {
    first_spendable(accepts, entries, restriction, has_shielded_outputs, spend_height, MAX_PROBES as nat)
}

/// The number of entries that a search looks at.
pub open spec fn probes(
    accepts: Accepts,
    entries: Entries,
    restriction: CoinbaseSpendRestriction,
    has_shielded_outputs: bool,
    spend_height: Height,
) -> int {
    match selected(accepts, entries, restriction, has_shielded_outputs, spend_height) {
        Some(i) => i + 1,
        None => if entries.len() < MAX_PROBES {
            entries.len() as int
        } else {
            MAX_PROBES as int
        },
    }
}

/// What [`first_spendable`] finds is the first entry below the limit that is
/// not refused; it finds nothing only if every entry below the limit is
/// refused.
pub proof fn lemma_first_spendable(
    accepts: Accepts,
    entries: Entries,
    restriction: CoinbaseSpendRestriction,
    has_shielded_outputs: bool,
    spend_height: Height,
    limit: nat,
)
    ensures
        match first_spendable(accepts, entries, restriction, has_shielded_outputs, spend_height, limit) {
            Some(i) => {
                &&& 0 <= i < limit
                &&& i < entries.len()
                &&& verdict(accepts, entries[i], restriction, has_shielded_outputs, spend_height)
                    != Verdict::Refused
                &&& forall|j: int|
                    0 <= j < i ==> verdict(
                        accepts,
                        #[trigger] entries[j],
                        restriction,
                        has_shielded_outputs,
                        spend_height,
                    ) == Verdict::Refused
            },
            None => forall|j: int|
                0 <= j < limit && j < entries.len() ==> verdict(
                    accepts,
                    #[trigger] entries[j],
                    restriction,
                    has_shielded_outputs,
                    spend_height,
                ) == Verdict::Refused,
        },
    decreases limit,
{
    if limit > 0 {
        lemma_first_spendable(
            accepts,
            entries,
            restriction,
            has_shielded_outputs,
            spend_height,
            (limit - 1) as nat,
        );
    }
}

/// A position that is found below one limit is found below every larger one.
pub proof fn lemma_first_spendable_stays(
    accepts: Accepts,
    entries: Entries,
    restriction: CoinbaseSpendRestriction,
    has_shielded_outputs: bool,
    spend_height: Height,
    low: nat,
    high: nat,
)
    requires
        low <= high,
        first_spendable(accepts, entries, restriction, has_shielded_outputs, spend_height, low) is Some
            || entries.len() <= low,
    ensures
        first_spendable(accepts, entries, restriction, has_shielded_outputs, spend_height, high)
            == first_spendable(accepts, entries, restriction, has_shielded_outputs, spend_height, low),
    decreases high,
{
    if low < high {
        lemma_first_spendable_stays(
            accepts,
            entries,
            restriction,
            has_shielded_outputs,
            spend_height,
            low,
            (high - 1) as nat,
        );
    }
}

/// A search looks at no more than [`MAX_PROBES`] entries, and at no entry
/// behind the one it selects.
pub proof fn lemma_probes_bounded(
    accepts: Accepts,
    entries: Entries,
    restriction: CoinbaseSpendRestriction,
    has_shielded_outputs: bool,
    spend_height: Height,
)
    ensures
        0 <= probes(accepts, entries, restriction, has_shielded_outputs, spend_height) <= MAX_PROBES,
        probes(accepts, entries, restriction, has_shielded_outputs, spend_height) <= entries.len(),
{
    lemma_first_spendable(
        accepts,
        entries,
        restriction,
        has_shielded_outputs,
        spend_height,
        MAX_PROBES as nat,
    );
}

/// The outcome of a search: the position it selected, whether the
/// transaction has to give up its transparent outputs for it, and the number
/// of entries it looked at.
#[derive(Clone, Copy, Debug, PartialEq, Eq)]
pub struct Search {
    pub position: Option<usize>,
    pub without_outputs: bool,
    pub probes: usize,
}

/// Looks through the first entries of `utxos`, in walking order, for one that
/// `check` lets a transaction spend: either under `restriction`, or, if the
/// transaction has shielded outputs, under the restriction that it keeps no
/// transparent output. Stops at the first such entry, and after
/// [`MAX_PROBES`] entries at the latest.
pub fn search_ledger<T, E, F>(
    utxos: &Ledger,
    restriction: CoinbaseSpendRestriction,
    has_shielded_outputs: bool,
    spend_height: Height,
    check: F,
) -> (found: Search) where F: Fn(OutPoint, CoinbaseSpendRestriction, &OrderedUtxo) -> Result<T, E>
    requires
        check_is_pure(check),
    ensures
        found.probes <= MAX_PROBES,
        found.probes == probes(accepts_of(check), utxos@, restriction, has_shielded_outputs, spend_height),
        match selected(accepts_of(check), utxos@, restriction, has_shielded_outputs, spend_height) {
            Some(i) => found.position == Some(i as usize) && i < utxos@.len() && found.without_outputs == (
            verdict(accepts_of(check), utxos@[i], restriction, has_shielded_outputs, spend_height)
                == Verdict::WithoutOutputs),
            None => found.position is None && !found.without_outputs,
        },
{
    let ghost accepts = accepts_of(check);
    let stricter = CoinbaseSpendRestriction::OnlyShieldedOutputs { spend_height };
    let mut i: usize = 0;
    while i < utxos.len() && i < MAX_PROBES
        invariant
            i <= MAX_PROBES,
            i <= utxos@.len(),
            check_is_pure(check),
            accepts == accepts_of(check),
            stricter == (CoinbaseSpendRestriction::OnlyShieldedOutputs { spend_height }),
            first_spendable(accepts, utxos@, restriction, has_shielded_outputs, spend_height, i as nat)
                is None,
        decreases MAX_PROBES - i,
    {
        let outpoint = utxos.outpoint_at(i);
        let utxo = utxos.utxo_at(i);
        let as_is = check(outpoint, restriction, utxo).is_ok();
        assert(as_is == accepts(outpoint, restriction, utxo@));
        let mut without_outputs = false;
        if !as_is && has_shielded_outputs {
            without_outputs = check(outpoint, stricter, utxo).is_ok();
            assert(without_outputs == accepts(outpoint, stricter, utxo@));
        }
        if as_is || without_outputs {
            proof {
                assert(first_spendable(
                    accepts,
                    utxos@,
                    restriction,
                    has_shielded_outputs,
                    spend_height,
                    (i + 1) as nat,
                ) == Some(i as int));
                lemma_first_spendable_stays(
                    accepts,
                    utxos@,
                    restriction,
                    has_shielded_outputs,
                    spend_height,
                    (i + 1) as nat,
                    MAX_PROBES as nat,
                );
            }
            return Search { position: Some(i), without_outputs, probes: i + 1 };
        }
        i += 1;
    }
    proof {
        if i < MAX_PROBES {
            lemma_first_spendable_stays(
                accepts,
                utxos@,
                restriction,
                has_shielded_outputs,
                spend_height,
                i as nat,
                MAX_PROBES as nat,
            );
        }
    }
    Search { position: None, without_outputs: false, probes: i }
}

/// Finds an unspent output in `utxos` that `transaction`, mined at
/// `spend_height`, may spend, and returns its outpoint.
///
/// The search is that of [`search_ledger`]. Where the selected output can
/// only be spent by a transaction without transparent outputs, `transaction`
/// loses its transparent outputs and `spend_restriction` becomes the
/// restriction that says so. Otherwise, and when nothing is found, both stay
/// as they are.
pub fn find_valid_utxo_for_spend<T, E, F>(
    transaction: &mut Transaction,
    spend_restriction: &mut CoinbaseSpendRestriction,
    spend_height: Height,
    utxos: &Ledger,
    check_transparent_coinbase_spend: F,
) -> (outpoint: Option<OutPoint>) where
    F: Fn(OutPoint, CoinbaseSpendRestriction, &OrderedUtxo) -> Result<T, E>,

    requires
        check_is_pure(check_transparent_coinbase_spend),
    ensures
        match selected(
            accepts_of(check_transparent_coinbase_spend),
            utxos@,
            *old(spend_restriction),
            old(transaction)@.has_shielded_outputs(),
            spend_height,
        ) {
            Some(i) => {
                let without_outputs = verdict(
                    accepts_of(check_transparent_coinbase_spend),
                    utxos@[i],
                    *old(spend_restriction),
                    old(transaction)@.has_shielded_outputs(),
                    spend_height,
                ) == Verdict::WithoutOutputs;
                &&& 0 <= i < utxos@.len()
                &&& i < MAX_PROBES
                &&& outpoint == Some(utxos@[i].0)
                &&& final(transaction)@ == if without_outputs {
                    old(transaction)@.without_outputs()
                } else {
                    old(transaction)@
                }
                &&& *final(spend_restriction) == if without_outputs {
                    CoinbaseSpendRestriction::OnlyShieldedOutputs { spend_height }
                } else {
                    *old(spend_restriction)
                }
            },
            None => {
                &&& outpoint is None
                &&& final(transaction)@ == old(transaction)@
                &&& *final(spend_restriction) == *old(spend_restriction)
            },
        },
{
    let has_shielded_outputs = transaction.has_shielded_outputs();
    let found = search_ledger(
        utxos,
        *spend_restriction,
        has_shielded_outputs,
        spend_height,
        check_transparent_coinbase_spend,
    );
    proof {
        lemma_first_spendable(
            accepts_of(check_transparent_coinbase_spend),
            utxos@,
            *old(spend_restriction),
            has_shielded_outputs,
            spend_height,
            MAX_PROBES as nat,
        );
    }
    match found.position {
        Some(i) => {
            if found.without_outputs {
                transaction.clear_outputs();
                *spend_restriction = CoinbaseSpendRestriction::OnlyShieldedOutputs { spend_height };
            }
            Some(utxos.outpoint_at(i))
        },
        None => None,
    }
}

/// The rule that lets every output be spent.
pub fn allow_all_transparent_coinbase_spends(
    _outpoint: OutPoint,
    _restriction: CoinbaseSpendRestriction,
    _utxo: &OrderedUtxo,
) -> (allowed: Result<(), ()>)
    ensures
        allowed is Ok,
{
    Ok(())
}

} // verus!
