//! The mining worker: it runs proof-of-work passes against the shared ledger
//! and transaction pool and reports each outcome. The first pass on an empty
//! ledger is a bootstrap pass that seals the fixed reward transaction into
//! the genesis block; pending submissions stay queued for the next block.

use vstd::prelude::*;

use crate::model::blockchain::{
    spec_block_hash, spec_json_of_block, spec_meets_difficulty, spec_wf_chain, Block, Blockchain,
};
use crate::model::transaction::{MutexTransactionList, Transaction};
use crate::text::{append_u64, spec_dec_nat};

verus! {

/// The request handed to a mining worker; it carries no data.
#[derive(Debug)]
pub struct MiningMessage;

/// A successful mining outcome: a status word and a readable report.
#[derive(Debug)]
pub struct MiningResponse {
    pub status: String,
    pub report: String,
}

/// A failed mining outcome: a status word and a readable report.
#[derive(Debug)]
pub struct MiningError {
    status: String,
    report: String,
}

impl MiningError {
    /// The short status word of the failure.
    pub closed spec fn spec_status(&self) -> Seq<char> {
        self.status@
    }

    /// The readable account of the failure.
    pub closed spec fn spec_report(&self) -> Seq<char> {
        self.report@
    }

    /// The short status word of the failure.
    pub fn status(&self) -> (r: &str)
        ensures
            r@ == self.spec_status(),
    {
        self.status.as_str()
    }

    /// The readable account of the failure.
    pub fn report(&self) -> (r: &str)
        ensures
            r@ == self.spec_report(),
    {
        self.report.as_str()
    }
}

/// The fixed reward transaction that the bootstrap pass seals into the
/// genesis block: ten currency units from the chain itself to the miner.
pub open spec fn spec_is_reward(t: Transaction) -> bool {
    t.sender@ == "Blockchain"@ && t.receiver@ == "Miner"@ && t.amount == 10_000_000
}

/// The report text for a freshly sealed block: its index, its winning nonce
/// and its canonical encoding.
pub open spec fn spec_success_report(b: Block) -> Seq<char> {
    "Block (Index: "@ + spec_dec_nat(b.index as nat) + "; Proof: "@ + spec_dec_nat(b.proof as nat)
        + "): New Block mined: "@ + spec_json_of_block(b)
}

/// Build the success response reported for a freshly sealed block.
pub fn success_response(block: &Block) -> (r: MiningResponse)
    ensures
        r.status@ == "success"@,
        r.report@ == spec_success_report(*block),
{
    let mut report = String::new();
    report.append("Block (Index: ");
    append_u64(&mut report, block.index);
    report.append("; Proof: ");
    append_u64(&mut report, block.proof);
    report.append("): New Block mined: ");
    let json = block.to_json();
    report.append(json.as_str());
    proof {
        assert(report@ =~= spec_success_report(*block));
    }
    MiningResponse { status: "success".to_owned(), report }
}

/// One full mining pass over a ledger and its pool, run to completion.
///
/// On an empty ledger this is the bootstrap pass: the fixed reward
/// transaction is injected into a startup pool and the full search is run
/// over that, so exactly the reward is sealed into block 1 and pending
/// submissions stay queued for the next block. On a non-empty ledger the
/// pool is drained and what was pending is sealed into the next block. A
/// pass fails only if the whole nonce space is exhausted; the ledger and the
/// pool are then left as they were.
pub fn mine_pass(blockchain: &mut Blockchain, transactions: &mut MutexTransactionList) -> (r:
    Result<u64, MiningError>)
    requires
        old(blockchain).wf(),
        old(blockchain).chain@.len() < u64::MAX,
    ensures
        final(blockchain).wf(),
        final(blockchain).nodes == old(blockchain).nodes,
        r matches Ok(proof) ==> {
            &&& final(blockchain).chain@.len() == old(blockchain).chain@.len() + 1
            &&& final(blockchain).chain@.drop_last() == old(blockchain).chain@
            &&& final(blockchain).chain@.last().proof == proof
            &&& final(blockchain).chain@.last().index == old(blockchain).chain@.len() + 1
            &&& final(blockchain).chain@.last().previous_hash@ == (if old(
                blockchain,
            ).chain@.len() == 0 {
                "0"@
            } else {
                spec_block_hash(old(blockchain).chain@.last())
            })
            &&& spec_meets_difficulty(spec_block_hash(final(blockchain).chain@.last()))
            &&& (old(blockchain).chain@.len() == 0 ==> {
                &&& final(blockchain).chain@.last().transactions@.len() == 1
                &&& spec_is_reward(final(blockchain).chain@.last().transactions@[0])
                &&& final(transactions)@ == old(transactions)@
            })
            &&& (old(blockchain).chain@.len() > 0 ==> {
                &&& final(blockchain).chain@.last().transactions@ == old(transactions)@
                &&& final(transactions)@ == Seq::<Transaction>::empty()
            })
        },
        r is Err ==> {
            &&& *final(blockchain) == *old(blockchain)
            &&& final(transactions)@ == old(transactions)@
            &&& (r matches Err(e) ==> e.spec_status() == "failed"@)
        },
{
    if blockchain.chain.len() == 0 {
        let reward = Transaction::from_data(
            "Blockchain".to_owned(),
            "Miner".to_owned(),
            10_000_000,
        );
        let mut genesis_pool = MutexTransactionList::from_vec(vec![reward]);
        match blockchain.proof_of_work(&mut genesis_pool) {
            Some(proof) => Ok(proof),
            None => Err(
                MiningError {
                    status: "failed".to_owned(),
                    report: "Blockchain: Proof of Work exhausted the nonce space".to_owned(),
                },
            ),
        }
    } else {
        match blockchain.proof_of_work(transactions) {
            Some(proof) => Ok(proof),
            None => Err(
                MiningError {
                    status: "failed".to_owned(),
                    report: "Blockchain: Proof of Work exhausted the nonce space".to_owned(),
                },
            ),
        }
    }
}

/// One mining worker. It holds the ledger and the pool it works against and
/// executes one search pass per request, serially: only one pass mutates the
/// ledger at a time.
pub struct MiningWorker {
    blockchain: Blockchain,
    transactions: MutexTransactionList,
}

impl MiningWorker {
    /// The chain of the ledger this worker works against.
    pub closed spec fn spec_chain(&self) -> Seq<Block> {
        self.blockchain.chain@
    }

    /// The pending transactions of the pool this worker works against.
    pub closed spec fn spec_pending(&self) -> Seq<Transaction> {
        self.transactions@
    }

    /// The worker's ledger satisfies the chain invariant.
    pub open spec fn wf(&self) -> bool {
        spec_wf_chain(self.spec_chain())
    }

    /// A worker over a fresh, empty ledger and pool.
    pub fn new() -> (r: Self)
        ensures
            r.spec_chain() == Seq::<Block>::empty(),
            r.spec_pending() == Seq::<Transaction>::empty(),
            r.wf(),
    {
        Self { blockchain: Blockchain::new(), transactions: MutexTransactionList::new() }
    }

    /// A worker over the given ledger and pool.
    pub fn with_data(blockchain: Blockchain, transactions: MutexTransactionList) -> (r: Self)
        ensures
            r.spec_chain() == blockchain.chain@,
            r.spec_pending() == transactions@,
    {
        Self { blockchain, transactions }
    }

    /// Replace the ledger and pool this worker works against.
    pub fn set_data(&mut self, blockchain: Blockchain, transactions: MutexTransactionList)
        ensures
            final(self).spec_chain() == blockchain.chain@,
            final(self).spec_pending() == transactions@,
    {
        self.blockchain = blockchain;
        self.transactions = transactions;
    }

    /// Queue a transaction with the worker's pool: a valid one is appended,
    /// an invalid one is refused and the pool is left unchanged. The ledger
    /// is untouched either way.
    pub fn add_transaction(&mut self, transaction: Transaction) -> (r: Result<
        (),
        crate::model::transaction::TransactionMutexError,
    >)
        ensures
            final(self).spec_chain() == old(self).spec_chain(),
            transaction.spec_is_valid() ==> r is Ok && final(self).spec_pending() == old(
                self,
            ).spec_pending().push(transaction),
            !transaction.spec_is_valid() ==> r is Err && final(self).spec_pending() == old(
                self,
            ).spec_pending() && (r matches Err(e) ==> e.spec_status() == "invalid"@),
    {
        self.transactions.add_transaction(transaction)
    }

    /// The number of pending transactions in the worker's pool.
    pub fn get_transaction_count(&self) -> (r: usize)
        ensures
            r == self.spec_pending().len(),
    {
        self.transactions.get_count()
    }

    /// Run one mining pass to completion and return the winning nonce.
    ///
    /// On an empty ledger this is the bootstrap pass: it seals exactly the
    /// fixed reward transaction into block 1 and leaves the pool as it is.
    /// On a non-empty ledger it drains the pool and seals what was pending
    /// into the next block. A pass fails only if the whole nonce space is
    /// exhausted; the ledger and the pool are then left as they were.
    pub fn mine_block(&mut self) -> (r: Result<u64, MiningError>)
        requires
            old(self).wf(),
            old(self).spec_chain().len() < u64::MAX,
        ensures
            final(self).wf(),
            r matches Ok(proof) ==> {
                &&& final(self).spec_chain().len() == old(self).spec_chain().len() + 1
                &&& final(self).spec_chain().drop_last() == old(self).spec_chain()
                &&& final(self).spec_chain().last().proof == proof
                &&& final(self).spec_chain().last().index == old(self).spec_chain().len() + 1
                &&& final(self).spec_chain().last().previous_hash@ == (if old(
                    self,
                ).spec_chain().len() == 0 {
                    "0"@
                } else {
                    spec_block_hash(old(self).spec_chain().last())
                })
                &&& spec_meets_difficulty(spec_block_hash(final(self).spec_chain().last()))
                &&& (old(self).spec_chain().len() == 0 ==> {
                    &&& final(self).spec_chain().last().transactions@.len() == 1
                    &&& spec_is_reward(final(self).spec_chain().last().transactions@[0])
                    &&& final(self).spec_pending() == old(self).spec_pending()
                })
                &&& (old(self).spec_chain().len() > 0 ==> {
                    &&& final(self).spec_chain().last().transactions@ == old(self).spec_pending()
                    &&& final(self).spec_pending() == Seq::<Transaction>::empty()
                })
            },
            r is Err ==> {
                &&& final(self).spec_chain() == old(self).spec_chain()
                &&& final(self).spec_pending() == old(self).spec_pending()
                &&& (r matches Err(e) ==> e.spec_status() == "failed"@)
            },
    {
        mine_pass(&mut self.blockchain, &mut self.transactions)
    }

    /// The ledger this worker works against, for consultation.
    pub fn blockchain(&self) -> (r: &Blockchain)
        ensures
            r.chain@ == self.spec_chain(),
    {
        &self.blockchain
    }

    /// The number of sealed blocks in the worker's ledger.
    pub fn get_block_count(&self) -> (r: usize)
        ensures
            r == self.spec_chain().len(),
    {
        self.blockchain.chain.len()
    }

    /// Serve one mining request: run a pass to completion and report the
    /// sealed block, or the failure that stopped the pass.
    pub fn handle(&mut self, _msg: MiningMessage) -> (r: Result<MiningResponse, MiningError>)
        requires
            old(self).wf(),
            old(self).spec_chain().len() < u64::MAX,
        ensures
            final(self).wf(),
            r matches Ok(resp) ==> {
                &&& final(self).spec_chain().len() == old(self).spec_chain().len() + 1
                &&& final(self).spec_chain().drop_last() == old(self).spec_chain()
                &&& final(self).spec_chain().last().index == old(self).spec_chain().len() + 1
                &&& spec_meets_difficulty(spec_block_hash(final(self).spec_chain().last()))
                &&& (old(self).spec_chain().len() == 0 ==> {
                    &&& final(self).spec_chain().last().transactions@.len() == 1
                    &&& spec_is_reward(final(self).spec_chain().last().transactions@[0])
                    &&& final(self).spec_pending() == old(self).spec_pending()
                })
                &&& (old(self).spec_chain().len() > 0 ==> {
                    &&& final(self).spec_chain().last().transactions@ == old(self).spec_pending()
                    &&& final(self).spec_pending() == Seq::<Transaction>::empty()
                })
                &&& resp.status@ == "success"@
                &&& resp.report@ == spec_success_report(final(self).spec_chain().last())
            },
            r is Err ==> {
                &&& final(self).spec_chain() == old(self).spec_chain()
                &&& final(self).spec_pending() == old(self).spec_pending()
            },
    {
        let _proof = match self.mine_block() {
            Ok(p) => p,
            Err(e) => {
                return Err(e);
            },
        };
        match self.blockchain.get_last_block() {
            Some(b) => Ok(success_response(b)),
            None => Err(
                MiningError {
                    status: "empty".to_owned(),
                    report: "Blockchain: Blockchain is empty".to_owned(),
                },
            ),
        }
    }
}

} // verus!
