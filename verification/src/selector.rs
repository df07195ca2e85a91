//! First-fit selection of unspent outputs.
//!
//! Outputs are taken in the order in which they are supplied, one at a time,
//! until their total covers the payment and the fee of a transaction with
//! that many inputs. The order is part of the contract: no sorting happens.

use vstd::prelude::*;
use crate::fee::{fee_of, FEE_PER_INPUT};
use crate::utxo::{total_amount, total_amount_step, UnspentOutput};

verus! {

/// The outputs chosen for a payment.
#[derive(Debug, PartialEq, Eq)]
pub struct Selection {
    /// The chosen outputs: a prefix of what was available.
    pub inputs: Vec<UnspentOutput>,
    /// The fee of a transaction with this many inputs.
    pub fee: u64,
    /// The total of the chosen amounts, capped at `u64::MAX`.
    pub total_in: u64,
}

/// The available outputs do not cover the payment and its fee.
#[derive(Clone, Copy, Debug, PartialEq, Eq)]
pub struct InsufficientFunds {
    /// The total of everything that was available, capped at `u64::MAX`.
    pub have: u64,
    /// The payment plus the fee of spending everything available, capped at
    /// `u64::MAX`.
    pub need: u64,
}

/// Whether the first `k` of `available` cover `amount` and the fee of a
/// transaction with `k` inputs. A payment that with its fee is beyond the
/// range of amounts is covered by nothing.
pub open spec fn covers(available: Seq<UnspentOutput>, amount: u64, k: int) -> bool {
    &&& amount + fee_of(k as nat) <= u64::MAX
    &&& total_amount(available.take(k)) >= amount + fee_of(k as nat)
}

/// Whether `k` is the length of the shortest prefix of `available` that
/// covers `amount`.
pub open spec fn is_first_cover(available: Seq<UnspentOutput>, amount: u64, k: int) -> bool {
    &&& 0 <= k <= available.len()
    &&& covers(available, amount, k)
    &&& forall|j: int| 0 <= j < k ==> !covers(available, amount, j)
}

/// Whether no prefix of `available`, the whole of it included, covers
/// `amount`.
pub open spec fn no_cover(available: Seq<UnspentOutput>, amount: u64) -> bool {
    forall|j: int| 0 <= j <= available.len() ==> !covers(available, amount, j)
}

/// A total as the wallet records it: capped at `u64::MAX`.
pub open spec fn capped(total: nat) -> u64 {
    if total > u64::MAX {
        u64::MAX
    } else {
        total as u64
    }
}

/// A total of amounts is at most as many times the largest amount.
proof fn total_amount_is_bounded(outputs: Seq<UnspentOutput>)
    ensures
        total_amount(outputs) <= outputs.len() * u64::MAX,
    decreases outputs.len(),
{
    if outputs.len() > 0 {
        total_amount_is_bounded(outputs.drop_last());
        assert((outputs.len() - 1) * u64::MAX + u64::MAX == outputs.len() * u64::MAX)
            by (nonlinear_arith);
    }
}

/// Selects the shortest prefix of `available` whose total covers `amount`
/// plus the fee for that many inputs.
///
/// Fails if even the whole of `available` falls short, reporting what there
/// is and what spending all of it would need, both capped at `u64::MAX`.
pub fn select(available: Vec<UnspentOutput>, amount: u64) -> (r: Result<
    Selection,
    InsufficientFunds,
>)
    ensures
        match r {
            Ok(sel) => {
                &&& is_first_cover(available@, amount, sel.inputs.len() as int)
                &&& sel.inputs@ == available@.take(sel.inputs.len() as int)
                &&& sel.fee == fee_of(sel.inputs.len() as nat)
                &&& sel.total_in == capped(total_amount(sel.inputs@))
                &&& sel.total_in >= amount + sel.fee
            },
            Err(e) => {
                &&& no_cover(available@, amount)
                &&& e.have == capped(total_amount(available@))
                &&& e.need == capped(amount as nat + fee_of(available.len() as nat))
            },
        },
{
    let mut available = available;
    let ghost all = available@;
    let n: usize = available.len();
    let mut total: u128 = 0;
    let mut due: u128 = amount as u128 + FEE_PER_INPUT as u128;
    let mut taken: usize = 0;
    let mut found: bool = false;
    proof {
        assert(total_amount(all.take(0)) == 0);
    }
    while taken < n && !found
        invariant
            available@ == all,
            n == all.len(),
            taken <= n,
            total == total_amount(all.take(taken as int)),
            due == amount + fee_of(taken as nat),
            forall|j: int| 0 <= j < taken ==> !covers(all, amount, j),
            found ==> covers(all, amount, taken as int),
            !found ==> !covers(all, amount, taken as int),
        decreases n - taken + (if found { 0int } else { 1int }),
    {
        proof {
            total_amount_step(all, taken as int);
            total_amount_is_bounded(all.take(taken as int));
            assert(taken * u64::MAX + u64::MAX <= u64::MAX * u64::MAX + u64::MAX) by (nonlinear_arith)
                requires
                    taken <= u64::MAX,
            ;
            assert((taken + 2) * 2000 <= (u64::MAX + 2) * 2000) by (nonlinear_arith)
                requires
                    taken <= u64::MAX,
            ;
        }
        total = total + available[taken].amount as u128;
        due = due + FEE_PER_INPUT as u128;
        taken = taken + 1;
        if due <= u64::MAX as u128 && total >= due {
            found = true;
        }
    }
    if found {
        let charged: u64 = (due - amount as u128) as u64;
        let total_in: u64 = if total > u64::MAX as u128 {
            u64::MAX
        } else {
            total as u64
        };
        available.truncate(taken);
        assert(available@ =~= all.take(taken as int));
        Ok(Selection { inputs: available, fee: charged, total_in })
    } else {
        assert(all.take(n as int) =~= all);
        let have: u64 = if total > u64::MAX as u128 {
            u64::MAX
        } else {
            total as u64
        };
        let need: u64 = if due > u64::MAX as u128 {
            u64::MAX
        } else {
            due as u64
        };
        Err(InsufficientFunds { have, need })
    }
}

/// What a successful selection guarantees: the chosen outputs cover the
/// payment and the fee for their number, at least one output is chosen, and
/// without the last of them the rest would fall short.
pub proof fn first_cover_is_a_minimal_cover(available: Seq<UnspentOutput>, amount: u64, k: int)
    requires
        is_first_cover(available, amount, k),
    ensures
        k >= 1,
        total_amount(available.take(k)) >= amount + fee_of(k as nat),
        total_amount(available.take(k - 1)) < amount + fee_of((k - 1) as nat),
{
    assert(total_amount(available.take(0)) == 0);
    assert(!covers(available, amount, 0));
    assert(!covers(available, amount, k - 1));
}

/// There is one shortest covering prefix at most.
pub proof fn first_cover_is_unique(available: Seq<UnspentOutput>, amount: u64, j: int, k: int)
    requires
        is_first_cover(available, amount, j),
        is_first_cover(available, amount, k),
    ensures
        j == k,
{
}

/// Where some prefix covers, a shortest one does.
pub proof fn some_cover_has_a_first(available: Seq<UnspentOutput>, amount: u64, j: int)
    requires
        0 <= j <= available.len(),
        covers(available, amount, j),
    ensures
        exists|k: int| 0 <= k <= j && #[trigger] is_first_cover(available, amount, k),
    decreases j,
{
    if forall|i: int| 0 <= i < j ==> !covers(available, amount, i) {
        assert(is_first_cover(available, amount, j));
    } else {
        let i = choose|i: int| 0 <= i < j && covers(available, amount, i);
        some_cover_has_a_first(available, amount, i);
    }
}

/// Selection either succeeds or fails, never both: nothing covers exactly
/// if there is no shortest covering prefix.
pub proof fn no_cover_means_no_first_cover(available: Seq<UnspentOutput>, amount: u64)
    ensures
        no_cover(available, amount) <==> !exists|k: int| #[trigger]
            is_first_cover(available, amount, k),
{
    if !no_cover(available, amount) {
        let j = choose|j: int| 0 <= j <= available.len() && covers(available, amount, j);
        some_cover_has_a_first(available, amount, j);
    }
}

/// What is selected is taken from what was available, and from nowhere
/// else: two selections from sources that share no outpoint share none
/// either. So a later claim cannot spend what an earlier one spent, once the
/// node no longer reports it.
pub proof fn selections_from_disjoint_sources_are_disjoint(
    earlier: Seq<UnspentOutput>,
    j: int,
    later: Seq<UnspentOutput>,
    k: int,
)
    requires
        0 <= j <= earlier.len(),
        0 <= k <= later.len(),
        forall|a: int, b: int|
            0 <= a < earlier.len() && 0 <= b < later.len() ==> (#[trigger] earlier[a]).outpoint != (
            #[trigger] later[b]).outpoint,
    ensures
        forall|a: int, b: int|
            0 <= a < j && 0 <= b < k ==> (#[trigger] earlier.take(j)[a]).outpoint != (
            #[trigger] later.take(k)[b]).outpoint,
{
    assert forall|a: int, b: int| 0 <= a < j && 0 <= b < k implies (#[trigger] earlier.take(
        j,
    )[a]).outpoint != (#[trigger] later.take(k)[b]).outpoint by {
        assert(earlier.take(j)[a] == earlier[a]);
        assert(later.take(k)[b] == later[b]);
    }
}

} // verus!
