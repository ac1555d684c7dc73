//! Atomic operation groups and a ledger model that applies them all or nothing.

use vstd::prelude::*;
use crate::guard::{GuardParameters, guard_passes};
use crate::oracle::PriceQuote;

verus! {

/// One operation of a group. Accounts are indices into the ledger.
#[derive(Debug, Clone, Copy, PartialEq, Eq, Structural)]
pub enum Operation {
    /// Moves `amount` from one account to another.
    Transfer { from: usize, to: usize, amount: u64 },
    /// Pays the relay's inclusion fee.
    PriorityFee { from: usize, to: usize, amount: u64 },
    /// Aborts the whole group unless the guard passes.
    GuardCheck(GuardParameters),
}

/// An ordered sequence of operations that commits or reverts as one.
#[derive(Debug)]
pub struct AtomicOperationGroup {
    pub ops: Vec<Operation>,
}

/// How a group ended on the ledger.
#[derive(Debug, Clone, Copy, PartialEq, Eq, Structural)]
pub enum GroupOutcome {
    Committed,
    Reverted,
}

/// Balances after moving `amount` from `from` to `to`, if that is possible.
pub open spec fn moved(bal: Seq<u64>, from: usize, to: usize, amount: u64) -> Option<Seq<u64>> {
    if from < bal.len() && to < bal.len() && bal[from as int] >= amount {
        let debited = bal.update(from as int, (bal[from as int] - amount) as u64);
        if debited[to as int] + amount <= u64::MAX {
            Some(debited.update(to as int, (debited[to as int] + amount) as u64))
        } else {
            None
        }
    } else {
        None
    }
}

/// Balances after one operation, or `None` if it fails.
pub open spec fn applied_op(bal: Seq<u64>, op: Operation, quote: PriceQuote) -> Option<Seq<u64>> {
    match op {
        Operation::Transfer { from, to, amount } => moved(bal, from, to, amount),
        Operation::PriorityFee { from, to, amount } => moved(bal, from, to, amount),
        Operation::GuardCheck(g) => if guard_passes(g, quote) {
            Some(bal)
        } else {
            None
        },
    }
}

/// Balances after every operation in order, or `None` if any of them fails.
pub open spec fn applied(bal: Seq<u64>, ops: Seq<Operation>, quote: PriceQuote) -> Option<
    Seq<u64>,
>
    decreases ops.len(),
{
    if ops.len() == 0 {
        Some(bal)
    } else {
        match applied_op(bal, ops[0], quote) {
            Some(next) => applied(next, ops.drop_first(), quote),
            None => None,
        }
    }
}

impl AtomicOperationGroup {
    /// Bundles operations, in the order given, into one group.
    pub fn build(ops: Vec<Operation>) -> (r: Self)
        ensures
            r.ops@ == ops@,
    {
        AtomicOperationGroup { ops }
    }

    /// The group of a guarded bet: the guard check first, then the stake
    /// transfer, then the priority fee.
    pub fn guarded_bet(
        guard: GuardParameters,
        wallet: usize,
        settlement: usize,
        stake: u64,
        fee_account: usize,
        fee: u64,
    ) -> (r: Self)
        ensures
            r.ops@ == guarded_bet_ops(guard, wallet, settlement, stake, fee_account, fee),
    {
        let mut ops: Vec<Operation> = Vec::new();
        ops.push(Operation::GuardCheck(guard));
        ops.push(Operation::Transfer { from: wallet, to: settlement, amount: stake });
        ops.push(Operation::PriorityFee { from: wallet, to: fee_account, amount: fee });
        assert(ops@ =~= guarded_bet_ops(guard, wallet, settlement, stake, fee_account, fee));
        AtomicOperationGroup { ops }
    }
}

/// The operations of a guarded bet, guard first.
pub open spec fn guarded_bet_ops(
    guard: GuardParameters,
    wallet: usize,
    settlement: usize,
    stake: u64,
    fee_account: usize,
    fee: u64,
) -> Seq<Operation> {
    seq![
        Operation::GuardCheck(guard),
        Operation::Transfer { from: wallet, to: settlement, amount: stake },
        Operation::PriorityFee { from: wallet, to: fee_account, amount: fee },
    ]
}

/// Account balances in ten-thousandths of a unit, indexed by account.
pub struct Ledger {
    balances: Vec<u64>,
}

impl View for Ledger {
    type V = Seq<u64>;

    closed spec fn view(&self) -> Seq<u64> {
        self.balances@
    }
}

/// Moves `amount` within `bal`, in place; false, with `bal` left as it may be, on failure.
fn move_in(bal: &mut Vec<u64>, from: usize, to: usize, amount: u64) -> (ok: bool)
    ensures
        ok <==> moved(old(bal)@, from, to, amount) is Some,
        ok ==> moved(old(bal)@, from, to, amount) == Some(final(bal)@),
{
    if from >= bal.len() || to >= bal.len() || bal[from] < amount {
        return false;
    }
    let left = bal[from] - amount;
    bal.set(from, left);
    let before = bal[to];
    if before > u64::MAX - amount {
        return false;
    }
    bal.set(to, before + amount);
    true
}

impl Ledger {
    /// A ledger holding the given balances.
    pub fn new(balances: Vec<u64>) -> (r: Self)
        ensures
            r@ == balances@,
    {
        Ledger { balances }
    }

    /// The number of accounts.
    pub fn accounts(&self) -> (r: usize)
        ensures
            r == self@.len(),
    {
        self.balances.len()
    }

    /// The balance of `account`, if it exists.
    pub fn balance_of(&self, account: usize) -> (r: Option<u64>)
        ensures
            r == (if account < self@.len() {
                Some(self@[account as int])
            } else {
                None::<u64>
            }),
    {
        if account < self.balances.len() {
            Some(self.balances[account])
        } else {
            None
        }
    }

    /// Applies a group against `quote` as one transaction: when every
    /// operation succeeds, all of their effects are kept; otherwise none are.
    pub fn commit(&mut self, group: &AtomicOperationGroup, quote: &PriceQuote) -> (r: GroupOutcome)
        ensures
            match applied(old(self)@, group.ops@, *quote) {
                Some(after) => r == GroupOutcome::Committed && final(self)@ == after,
                None => r == GroupOutcome::Reverted && final(self)@ == old(self)@,
            },
    {
        let mut scratch: Vec<u64> = Vec::new();
        let mut k: usize = 0;
        while k < self.balances.len()
            invariant
                0 <= k <= self@.len(),
                scratch@ =~= self@.subrange(0, k as int),
            decreases self@.len() - k,
        {
            scratch.push(self.balances[k]);
            k = k + 1;
        }
        assert(scratch@ =~= self@);
        let ops = &group.ops;
        assert(ops@.subrange(0, ops@.len() as int) =~= ops@);
        let mut i: usize = 0;
        while i < ops.len()
            invariant
                0 <= i <= ops@.len(),
                ops@ == group.ops@,
                applied(self@, ops@, *quote) == applied(scratch@, ops@.subrange(i as int, ops@.len() as int), *quote),
            decreases ops@.len() - i,
        {
            let ghost rest = ops@.subrange(i as int, ops@.len() as int);
            assert(rest.drop_first() =~= ops@.subrange(i + 1, ops@.len() as int));
            let ghost before = scratch@;
            let ok = match ops[i] {
                Operation::Transfer { from, to, amount } => move_in(&mut scratch, from, to, amount),
                Operation::PriorityFee { from, to, amount } => move_in(&mut scratch, from, to, amount),
                Operation::GuardCheck(g) => g.check(quote).is_ok(),
            };
            if !ok {
                assert(applied_op(before, rest[0], *quote) is None);
                assert(applied(before, rest, *quote) is None);
                return GroupOutcome::Reverted;
            }
            assert(applied_op(before, rest[0], *quote) == Some(scratch@));
            assert(applied(before, rest, *quote) == applied(scratch@, rest.drop_first(), *quote));
            i = i + 1;
        }
        assert(ops@.subrange(i as int, ops@.len() as int).len() == 0);
        self.balances = scratch;
        GroupOutcome::Committed
    }
}

/// A group with a losing guard anywhere in it applies nothing at all, whatever
/// else it holds: the ledger is left exactly as it was.
pub proof fn lemma_losing_guard_aborts(
    bal: Seq<u64>,
    ops: Seq<Operation>,
    quote: PriceQuote,
    i: int,
)
    requires
        0 <= i < ops.len(),
        ops[i] matches Operation::GuardCheck(g) && !guard_passes(g, quote),
    ensures
        applied(bal, ops, quote) is None,
    decreases ops.len(),
{
    if i > 0 {
        if let Some(next) = applied_op(bal, ops[0], quote) {
            assert(ops.drop_first()[i - 1] == ops[i]);
            lemma_losing_guard_aborts(next, ops.drop_first(), quote, i - 1);
        }
    }
}

} // verus!
