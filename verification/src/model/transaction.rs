//! Pending transfers and the pool that queues them until they are sealed into
//! a block.

use vstd::prelude::*;
use vstd::seq_lib::group_to_multiset_ensures;
use vstd::seq_lib::lemma_multiset_commutative;

verus! {

/// One transfer of value between two named parties. The amount is a signed
/// fixed-point number counted in millionths of a currency unit.
#[derive(Debug)]
pub struct Transaction {
    pub sender: String,
    pub receiver: String,
    pub amount: i64,
}

/// The pool of transfers waiting to be sealed into the next block. Every
/// accepted transaction is appended at the tail and leaves the pool exactly
/// once, with the drain that returns it.
#[derive(Debug)]
pub struct MutexTransactionList {
    transactions: Vec<Transaction>,
}

/// The failure reported when a transaction is refused by the pool.
#[derive(Debug, PartialEq)]
pub struct TransactionMutexError {
    status: String,
    report: String,
}

impl View for MutexTransactionList {
    type V = Seq<Transaction>;

    closed spec fn view(&self) -> Seq<Transaction> {
        self.transactions@
    }
}

impl Transaction {
    /// A transaction is acceptable only when both parties are named and the
    /// amount moves value at all.
    pub open spec fn spec_is_valid(&self) -> bool {
        self.sender@.len() > 0 && self.receiver@.len() > 0 && self.amount != 0
    }

    /// Create a new transaction from its three fields.
    pub fn from_data(sender: String, receiver: String, amount: i64) -> (r: Self)
        ensures
            r.sender == sender,
            r.receiver == receiver,
            r.amount == amount,
    {
        Self { sender, receiver, amount }
    }

    /// Check if a transaction is valid: `sender` and `receiver` must not be
    /// empty and `amount` must not be zero.
    pub fn is_valid(&self) -> (r: bool)
        ensures
            r == self.spec_is_valid(),
    {
        !self.sender.as_str().is_empty() && !self.receiver.as_str().is_empty() && self.amount != 0
    }
}

impl Default for Transaction {
    fn default() -> (r: Self)
        ensures
            r.sender@ == Seq::<char>::empty(),
            r.receiver@ == Seq::<char>::empty(),
            r.amount == 0,
            !r.spec_is_valid(),
    {
        Transaction { sender: String::new(), receiver: String::new(), amount: 0 }
    }
}

impl TransactionMutexError {
    /// The short status word of the failure.
    pub closed spec fn spec_status(&self) -> Seq<char> {
        self.status@
    }

    /// The readable account of the failure.
    pub closed spec fn spec_report(&self) -> Seq<char> {
        self.report@
    }

    /// The short status word of the failure.
    pub fn status(&self) -> (r: &str)
        ensures
            r@ == self.spec_status(),
    {
        self.status.as_str()
    }

    /// The readable account of the failure.
    pub fn report(&self) -> (r: &str)
        ensures
            r@ == self.spec_report(),
    {
        self.report.as_str()
    }
}

impl Default for MutexTransactionList {
    fn default() -> (r: Self)
        ensures
            r@ == Seq::<Transaction>::empty(),
    {
        Self::new()
    }
}

impl MutexTransactionList {
    /// An empty pool.
    pub fn new() -> (r: Self)
        ensures
            r@ == Seq::<Transaction>::empty(),
    {
        Self { transactions: Vec::<Transaction>::new() }
    }

    /// A pool already holding the given transactions, in order.
    pub fn from_vec(transactions: Vec<Transaction>) -> (r: Self)
        ensures
            r@ == transactions@,
    {
        Self { transactions }
    }

    /// Register a transaction by values. A valid transaction is appended at
    /// the tail; an invalid one is refused and the pool is left unchanged.
    pub fn add_transaction_from_data(&mut self, sender: &str, receiver: &str, amount: i64) -> (r:
        Result<(), TransactionMutexError>)
        ensures
            sender@.len() > 0 && receiver@.len() > 0 && amount != 0 ==> {
                &&& r is Ok
                &&& final(self)@.len() == old(self)@.len() + 1
                &&& final(self)@.drop_last() == old(self)@
                &&& final(self)@.last().sender@ == sender@
                &&& final(self)@.last().receiver@ == receiver@
                &&& final(self)@.last().amount == amount
            },
            !(sender@.len() > 0 && receiver@.len() > 0 && amount != 0) ==> {
                &&& r is Err
                &&& final(self)@ == old(self)@
            },
    {
        let r = self.add_transaction(
            Transaction { sender: sender.to_owned(), receiver: receiver.to_owned(), amount },
        );
        proof {
            if sender@.len() > 0 && receiver@.len() > 0 && amount != 0 {
                assert(self@.drop_last() =~= old(self)@);
            }
        }
        r
    }

    /// Register a transaction by structure. A valid transaction is appended
    /// at the tail, to be sealed with the next mined block; an invalid one is
    /// refused and the pool is left unchanged.
    pub fn add_transaction(&mut self, transaction: Transaction) -> (r: Result<
        (),
        TransactionMutexError,
    >)
        ensures
            transaction.spec_is_valid() ==> {
                &&& r is Ok
                &&& final(self)@ == old(self)@.push(transaction)
            },
            !transaction.spec_is_valid() ==> {
                &&& r is Err
                &&& final(self)@ == old(self)@
                &&& (r matches Err(e) ==> e.spec_status() == "invalid"@
                    && e.spec_report() == "Transaction List: Transaction is invalid"@)
            },
    {
        if !transaction.is_valid() {
            return Err(
                TransactionMutexError {
                    status: "invalid".to_owned(),
                    report: "Transaction List: Transaction is invalid".to_owned(),
                },
            );
        }
        self.transactions.push(transaction);
        Ok(())
    }

    /// Remove and return all pending transactions at once, in submission
    /// order, leaving the pool empty. The snapshot returned and the removal
    /// are one operation: nothing can be observed partially.
    pub fn into_vec(&mut self) -> (r: Vec<Transaction>)
        ensures
            r@ == old(self)@,
            final(self)@ == Seq::<Transaction>::empty(),
    {
        let r = self.transactions.split_off(0);
        proof {
            assert(r@ =~= old(self)@);
            assert(self@ =~= Seq::<Transaction>::empty());
        }
        r
    }

    /// Put transactions back into an empty pool; used to undo a drain whose
    /// follow-up work could not complete.
    pub(crate) fn refill(&mut self, transactions: Vec<Transaction>)
        requires
            old(self)@.len() == 0,
        ensures
            final(self)@ == transactions@,
    {
        self.transactions = transactions;
    }

    /// The number of pending transactions. Reading the count never changes
    /// the pool: two consecutive reads return the same value.
    pub fn get_count(&self) -> (r: usize)
        ensures
            r == self@.len(),
    {
        self.transactions.len()
    }
}

/// Law: submitting a valid transaction `t` and then draining yields every
/// previously pending transaction first, in order, and `t` exactly once, at
/// the end. (`add_transaction` appends `t`, and `into_vec` returns the whole
/// pending sequence.)
pub proof fn lemma_submit_then_drain(pending: Seq<Transaction>, t: Transaction)
    requires
        t.spec_is_valid(),
    ensures
        pending.push(t).drop_last() == pending,
        pending.push(t).last() == t,
        pending.push(t).to_multiset().count(t) == pending.to_multiset().count(t) + 1,
{
    broadcast use group_to_multiset_ensures;

    assert(pending.push(t).drop_last() =~= pending);
    assert(pending.push(t).to_multiset() =~= pending.to_multiset().insert(t));
}

/// Law: a drain is atomic. It returns the whole pending sequence and resets
/// the pool to empty, so when later submissions are drained in turn, each
/// transaction instance is handed out exactly once: the two drains together
/// return exactly the submissions, with their multiplicities.
pub proof fn lemma_drain_exactly_once(
    pending: Seq<Transaction>,
    later: Seq<Transaction>,
    t: Transaction,
)
    ensures
        (pending + later).to_multiset().count(t) == pending.to_multiset().count(t)
            + later.to_multiset().count(t),
{
    lemma_multiset_commutative(pending, later);
}

} // verus!
