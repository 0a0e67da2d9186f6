use vstd::prelude::*;

use crate::tiles::{ContentKind, Direction, is_sellable, sellable_kind};
use crate::viewport::Viewport;

verus! {

/// Failure of a sell transaction.
#[derive(Clone, Copy, Debug, PartialEq, Eq, Structural)]
pub enum SellError {
    /// No orthogonal neighbor of the viewport carries a market: the tool
    /// cannot be used from here, and no partial work happened.
    OperationNotAllowed,
    /// The market could not credit the earned coins back to the agent; the
    /// payload is the quantity whose deposit was being attempted.
    NotEnoughSpace(usize),
}

/// What a completed sale sold: each of the three sellable kinds mapped to
/// the quantity deposited for it, zero for a kind that was not sold.
#[derive(Clone, Copy, Debug, PartialEq, Eq, Structural)]
pub struct SellReceipt {
    pub rock: usize,
    pub tree: usize,
    pub fish: usize,
}

/// The receipt that records no sale at all.
pub open spec fn empty_receipt() -> SellReceipt {
    SellReceipt { rock: 0, tree: 0, fish: 0 }
}

impl SellReceipt {
    /// The quantity recorded for a kind; kinds outside the sellable set
    /// are never recorded and read as zero.
    pub open spec fn amount(self, k: ContentKind) -> usize {
        match k {
            ContentKind::Rock => self.rock,
            ContentKind::Tree => self.tree,
            ContentKind::Fish => self.fish,
            _ => 0,
        }
    }

    /// Read the quantity recorded for a kind.
    pub fn amount_of(&self, k: ContentKind) -> (r: usize)
        ensures
            r == self.amount(k),
    {
        match k {
            ContentKind::Rock => self.rock,
            ContentKind::Tree => self.tree,
            ContentKind::Fish => self.fish,
            _ => 0,
        }
    }
}

/// One deposit the host is asked to perform: all held quantity of one
/// sellable kind, toward the located market.
#[derive(Clone, Copy, Debug, PartialEq, Eq, Structural)]
pub struct DepositRequest {
    pub kind: ContentKind,
    pub quantity: usize,
    pub direction: Direction,
}

/// What the host reported back for one deposit.
///
/// Any failure other than these two is a violation of the host contract:
/// the caller must treat it as fatal and must not hand it back to the
/// transaction.
#[derive(Clone, Copy, Debug, PartialEq, Eq, Structural)]
pub enum DepositOutcome {
    /// The market took the items and paid `coins`.
    Accepted { coins: usize },
    /// The market lacked space to credit the coins; `attempted` is the
    /// quantity whose deposit was attempted.
    Refused { attempted: usize },
}

/// An inventory entry that takes part in a sale: a sellable kind held in
/// positive quantity.
pub open spec fn is_sale_entry(e: (ContentKind, usize)) -> bool {
    is_sellable(e.0) && e.1 > 0
}

/// The deposits a sale attempts: the sale entries of the inventory
/// snapshot, kept in snapshot order.
pub open spec fn sale_plan(snapshot: Seq<(ContentKind, usize)>) -> Seq<(ContentKind, usize)>
    decreases snapshot.len(),
{
    if snapshot.len() == 0 {
        Seq::empty()
    } else if is_sale_entry(snapshot.last()) {
        sale_plan(snapshot.drop_last()).push(snapshot.last())
    } else {
        sale_plan(snapshot.drop_last())
    }
}

/// The receipt after one accepted deposit: the entry's kind is set to the
/// deposited quantity; a kind outside the sellable set records nothing.
pub open spec fn record_entry(r: SellReceipt, k: ContentKind, q: usize) -> SellReceipt {
    match k {
        ContentKind::Rock => SellReceipt { rock: q, ..r },
        ContentKind::Tree => SellReceipt { tree: q, ..r },
        ContentKind::Fish => SellReceipt { fish: q, ..r },
        _ => r,
    }
}

/// The receipt after every deposit of a plan was accepted, in order.
pub open spec fn receipt_after(plan: Seq<(ContentKind, usize)>) -> SellReceipt
    decreases plan.len(),
{
    if plan.len() == 0 {
        empty_receipt()
    } else {
        record_entry(receipt_after(plan.drop_last()), plan.last().0, plan.last().1)
    }
}

/// A best-effort sell transaction in flight.
///
/// The host drives it: while [`Self::next_action`] hands out a deposit
/// request, the host performs that deposit and reports the outcome through
/// [`Self::record_outcome`]. A refused deposit aborts the whole sale at
/// once — items deposited earlier in the same sale stay sold (there is no
/// rollback), but the caller receives no record of them.
pub struct SellTransaction {
    direction: Direction,
    pending: Vec<(ContentKind, usize)>,
    next: usize,
    receipt: SellReceipt,
    coins: u128,
    failure: Option<usize>,
}

impl SellTransaction {
    /// Direction of the located market every deposit goes toward.
    pub closed spec fn direction(self) -> Direction {
        self.direction
    }

    /// The deposits this sale attempts, in order.
    pub closed spec fn pending(self) -> Seq<(ContentKind, usize)> {
        self.pending@
    }

    /// How many deposits have been accepted so far.
    pub closed spec fn progress(self) -> int {
        self.next as int
    }

    /// The receipt built so far.
    pub closed spec fn receipt_so_far(self) -> SellReceipt {
        self.receipt
    }

    /// The coins earned so far (informational; not part of the receipt).
    pub closed spec fn coins_so_far(self) -> int {
        self.coins as int
    }

    /// The attempted quantity of a refused deposit, if one was refused.
    pub closed spec fn failure(self) -> Option<usize> {
        self.failure
    }

    /// A deposit is still owed and none was refused.
    pub open spec fn in_progress(self) -> bool {
        self.failure() is None && self.progress() < self.pending().len()
    }

    /// The transaction is over: every deposit was accepted, or one was
    /// refused.
    pub open spec fn done(self) -> bool {
        !self.in_progress()
    }

    /// Validity of a transaction value: progress stays within the plan,
    /// the coin total stays within its accumulator, and while no deposit
    /// was refused the receipt is exactly the fold of the accepted prefix.
    pub open spec fn consistent(self) -> bool {
        &&& 0 <= self.progress() <= self.pending().len()
        &&& self.pending().len() <= usize::MAX as int
        &&& self.coins_so_far() <= self.progress() * (usize::MAX as int)
        &&& (self.failure() is None ==> self.receipt_so_far() == receipt_after(
            self.pending().take(self.progress()),
        ))
    }

    /// The result handed back to the caller once the transaction is done:
    /// the completed receipt, or the refusal with the attempted quantity.
    /// A refusal discards the receipt built so far.
    pub open spec fn spec_outcome(self) -> Result<SellReceipt, SellError> {
        match self.failure() {
            Some(n) => Err(SellError::NotEnoughSpace(n)),
            None => Ok(self.receipt_so_far()),
        }
    }

    /// Start a sale at the market adjacent in the viewport.
    ///
    /// Fails with `OperationNotAllowed`, before any work, exactly when no
    /// orthogonal neighbor carries a market. Otherwise the plan holds the
    /// sale entries of the snapshot, in snapshot order, and nothing has
    /// been deposited yet.
    pub fn begin(view: &Viewport, snapshot: &Vec<(ContentKind, usize)>) -> (r: Result<
        SellTransaction,
        SellError,
    >)
        ensures
            match r {
                Ok(tx) => {
                    &&& view.located_market() matches Some(d) && tx.direction() == d
                    &&& tx.pending() == sale_plan(snapshot@)
                    &&& tx.progress() == 0
                    &&& tx.receipt_so_far() == empty_receipt()
                    &&& tx.coins_so_far() == 0
                    &&& tx.failure() is None
                    &&& tx.consistent()
                },
                Err(e) => {
                    &&& e == SellError::OperationNotAllowed
                    &&& view.located_market() is None
                },
            },
    {
        let dir = match view.find_market() {
            Some(d) => d,
            None => {
                return Err(SellError::OperationNotAllowed);
            },
        };
        let mut pending: Vec<(ContentKind, usize)> = Vec::new();
        let mut idx: usize = 0;
        while idx < snapshot.len()
            invariant
                idx <= snapshot.len(),
                pending@ == sale_plan(snapshot@.take(idx as int)),
                pending@.len() <= idx,
            decreases snapshot.len() - idx,
        {
            let entry = snapshot[idx];
            if sellable_kind(entry.0) && entry.1 > 0 {
                pending.push(entry);
            }
            proof {
                assert(snapshot@.take(idx as int + 1).drop_last() =~= snapshot@.take(idx as int));
            }
            idx += 1;
        }
        proof {
            assert(snapshot@.take(snapshot@.len() as int) =~= snapshot@);
        }
        let tx = SellTransaction {
            direction: dir,
            pending,
            next: 0,
            receipt: SellReceipt { rock: 0, tree: 0, fish: 0 },
            coins: 0,
            failure: None,
        };
        proof {
            assert(tx.pending().take(0) =~= Seq::<(ContentKind, usize)>::empty());
        }
        Ok(tx)
    }

    /// The next deposit the host should perform, or nothing once the
    /// transaction is done.
    pub open spec fn spec_next_action(self) -> Option<DepositRequest> {
        if self.in_progress() {
            Some(
                DepositRequest {
                    kind: self.pending()[self.progress()].0,
                    quantity: self.pending()[self.progress()].1,
                    direction: self.direction(),
                },
            )
        } else {
            None
        }
    }

    /// Hand out the next deposit to perform, if a deposit is still owed.
    pub fn next_action(&self) -> (r: Option<DepositRequest>)
        ensures
            r == self.spec_next_action(),
    {
        if self.failure.is_none() && self.next < self.pending.len() {
            let entry = self.pending[self.next];
            Some(DepositRequest { kind: entry.0, quantity: entry.1, direction: self.direction })
        } else {
            None
        }
    }

    /// Feed back what the host reported for the deposit handed out last.
    ///
    /// An accepted deposit records the deposited quantity for its kind and
    /// accumulates the coins; a refused one aborts the sale, keeping
    /// exactly the attempted quantity the market reported.
    pub fn record_outcome(&mut self, outcome: DepositOutcome)
        requires
            old(self).in_progress(),
            old(self).consistent(),
        ensures
            final(self).direction() == old(self).direction(),
            final(self).pending() == old(self).pending(),
            final(self).consistent(),
            match outcome {
                DepositOutcome::Accepted { coins } => {
                    &&& final(self).progress() == old(self).progress() + 1
                    &&& final(self).failure() is None
                    &&& final(self).receipt_so_far() == record_entry(
                        old(self).receipt_so_far(),
                        old(self).pending()[old(self).progress()].0,
                        old(self).pending()[old(self).progress()].1,
                    )
                    &&& final(self).coins_so_far() == old(self).coins_so_far() + coins
                },
                DepositOutcome::Refused { attempted } => {
                    &&& final(self).progress() == old(self).progress()
                    &&& final(self).receipt_so_far() == old(self).receipt_so_far()
                    &&& final(self).coins_so_far() == old(self).coins_so_far()
                    &&& final(self).failure() == Some(attempted)
                },
            },
    {
        match outcome {
            DepositOutcome::Accepted { coins } => {
                let entry = self.pending[self.next];
                match entry.0 {
                    ContentKind::Rock => {
                        self.receipt.rock = entry.1;
                    },
                    ContentKind::Tree => {
                        self.receipt.tree = entry.1;
                    },
                    ContentKind::Fish => {
                        self.receipt.fish = entry.1;
                    },
                    _ => {},
                }
                self.coins = self.coins + (coins as u128);
                self.next = self.next + 1;
                proof {
                    assert(self.pending@.take(self.next as int).drop_last() =~= self.pending@.take(
                        self.next as int - 1,
                    ));
                }
            },
            DepositOutcome::Refused { attempted } => {
                self.failure = Some(attempted);
            },
        }
    }

    /// Whether the transaction is over.
    pub fn is_finished(&self) -> (r: bool)
        ensures
            r == self.done(),
    {
        !(self.failure.is_none() && self.next < self.pending.len())
    }

    /// The result of the finished transaction.
    pub fn outcome(&self) -> (r: Result<SellReceipt, SellError>)
        requires
            self.done(),
        ensures
            r == self.spec_outcome(),
    {
        match self.failure {
            Some(n) => Err(SellError::NotEnoughSpace(n)),
            None => Ok(self.receipt),
        }
    }

    /// The coins earned so far, informational only.
    pub fn coins_earned(&self) -> (r: u128)
        ensures
            r as int == self.coins_so_far(),
    {
        self.coins
    }
}

/// After every deposit of the plan of `snapshot` was accepted, the receipt
/// records, for a kind held at exactly one snapshot entry, the quantity of
/// that entry.
proof fn lemma_plan_receipt_amount(snapshot: Seq<(ContentKind, usize)>, i: int)
    requires
        0 <= i < snapshot.len(),
        is_sale_entry(snapshot[i]),
        forall|j: int|
            0 <= j < snapshot.len() && j != i ==> (#[trigger] snapshot[j]).0 != snapshot[i].0,
    ensures
        receipt_after(sale_plan(snapshot)).amount(snapshot[i].0) == snapshot[i].1,
    decreases snapshot.len(),
{
    if i == snapshot.len() - 1 {
        let plan = sale_plan(snapshot);
        assert(plan == sale_plan(snapshot.drop_last()).push(snapshot[i]));
        assert(plan.drop_last() =~= sale_plan(snapshot.drop_last()));
        assert(plan.last() == snapshot[i]);
    } else {
        let prev = snapshot.drop_last();
        assert(prev[i] == snapshot[i]);
        assert forall|j: int|
            0 <= j < prev.len() && j != i implies (#[trigger] prev[j]).0 != prev[i].0 by {
            assert(prev[j] == snapshot[j]);
        }
        lemma_plan_receipt_amount(prev, i);
        let e = snapshot.last();
        assert(e == snapshot[snapshot.len() - 1]);
        assert(e.0 != snapshot[i].0);
        if is_sale_entry(e) {
            let plan = sale_plan(snapshot);
            assert(plan == sale_plan(prev).push(e));
            assert(plan.drop_last() =~= sale_plan(prev));
            assert(plan.last() == e);
        }
    }
}

/// Law: selling with an empty inventory at an adjacent market completes at
/// once, with a receipt mapping all three sellable kinds to zero and no
/// error.
pub proof fn lemma_empty_inventory_sale(tx: SellTransaction, snapshot: Seq<(ContentKind, usize)>)
    requires
        snapshot.len() == 0,
        tx.pending() == sale_plan(snapshot),
        tx.failure() is None,
        tx.consistent(),
    ensures
        tx.done(),
        tx.spec_outcome() == Ok::<SellReceipt, SellError>(empty_receipt()),
{
    assert(tx.pending().take(tx.progress()) =~= sale_plan(snapshot));
}

/// Law: when every deposit was accepted, the completed sale's receipt maps
/// a sellable kind held in positive quantity at exactly one snapshot entry
/// to exactly the quantity deposited for it.
pub proof fn lemma_completed_sale_records_quantity(
    tx: SellTransaction,
    snapshot: Seq<(ContentKind, usize)>,
    i: int,
)
    requires
        tx.pending() == sale_plan(snapshot),
        tx.failure() is None,
        tx.done(),
        tx.consistent(),
        0 <= i < snapshot.len(),
        is_sale_entry(snapshot[i]),
        forall|j: int|
            0 <= j < snapshot.len() && j != i ==> (#[trigger] snapshot[j]).0 != snapshot[i].0,
    ensures
        tx.spec_outcome() matches Ok(r) && r.amount(snapshot[i].0) == snapshot[i].1,
{
    assert(tx.progress() == tx.pending().len());
    assert(tx.pending().take(tx.progress()) =~= tx.pending());
    lemma_plan_receipt_amount(snapshot, i);
}

/// Law: a refused deposit ends the sale at once, and the error carries
/// exactly the attempted quantity the market reported; the receipt built
/// so far is discarded.
pub proof fn lemma_refused_deposit_aborts(tx: SellTransaction, attempted: usize)
    requires
        tx.failure() == Some(attempted),
    ensures
        tx.done(),
        tx.spec_outcome() == Err::<SellReceipt, SellError>(SellError::NotEnoughSpace(attempted)),
{
}

} // verus!
