//! Blocks, the hash-linked chain, and the proof-of-work search that seals
//! pending transactions into new blocks.

use vstd::prelude::*;

use vstd::arithmetic::div_mod::{lemma_mod_add_multiples_vanish, lemma_small_mod, lemma_sub_mod_noop};

use crate::model::transaction::{MutexTransactionList, Transaction};
use crate::text::{append_escaped, append_i64, append_u64, spec_dec_int, spec_dec_nat, spec_escape};
use crate::text::u64_to_string;

verus! {

/// A chain is well formed when its blocks are numbered 1, 2, 3, ... in order,
/// the first block carries the sentinel previous hash "0", every later block
/// carries the hash of its predecessor, and every block's own hash satisfies
/// the fixed difficulty.
pub open spec fn spec_wf_chain(chain: Seq<Block>) -> bool {
    &&& forall|i: int| #![trigger chain[i]] 0 <= i < chain.len() ==> chain[i].index == i + 1
    &&& chain.len() > 0 ==> chain[0].previous_hash@ == "0"@
    &&& forall|i: int|
        #![trigger chain[i]]
        1 <= i < chain.len() ==> chain[i].previous_hash@ == spec_block_hash(chain[i - 1])
    &&& forall|i: int|
        #![trigger chain[i]]
        0 <= i < chain.len() ==> spec_meets_difficulty(spec_block_hash(chain[i]))
}

/// One sealed (or, during a search, candidate) block: its position in the
/// chain, the second it was stamped, the nonce found by the search, the hash
/// of its predecessor and the transactions it seals.
#[derive(Debug)]
pub struct Block {
    pub index: u64,
    pub timestamp: u32,
    pub proof: u64,
    pub previous_hash: String,
    pub transactions: Vec<Transaction>,
}

/// The append-only chain of sealed blocks, plus the peer list carried along
/// with it.
#[derive(Debug)]
pub struct Blockchain {
    pub chain: Vec<Block>,
    pub nodes: Vec<String>,
}

/// The hex digest that the outside hash function returns for a given text.
/// It is a function of the text alone; nothing further is assumed of it.
pub uninterp spec fn sha256_hex(s: Seq<char>) -> Seq<char>;

/// Relies on `sha256::digest` for `&str`: the SHA-256 digest of the input
/// text as 64 lowercase hex characters, a function of the input alone.
#[verifier::external_body]
fn digest_str(s: &str) -> (r: String)
    ensures
        r@ == sha256_hex(s@),
        r@.len() == 64,
{
    sha256::digest(s)
}

/// Relies on `SystemTime::now` and `duration_since`: the wall clock as whole
/// seconds since the Unix epoch, truncated to 32 bits, or 0 if the clock
/// reads before the epoch. Nothing is assumed of the value returned.
#[verifier::external_body]
fn now_seconds() -> u32 {
    match std::time::SystemTime::now().duration_since(std::time::SystemTime::UNIX_EPOCH) {
        Ok(n) => n.as_secs() as u32,
        Err(_) => 0u32,
    }
}

/// The canonical encoding of one transaction inside a block.
pub open spec fn spec_json_of_transaction(t: Transaction) -> Seq<char> {
    "{\"sender\":\""@ + spec_escape(t.sender@) + "\",\"receiver\":\""@ + spec_escape(t.receiver@)
        + "\",\"amount\":"@ + spec_dec_int(t.amount as int) + "}"@
}

/// The canonical encoding of a transaction list: the transactions in order,
/// separated by commas.
pub open spec fn spec_json_of_transactions(ts: Seq<Transaction>) -> Seq<char>
    decreases ts.len(),
{
    if ts.len() == 0 {
        Seq::empty()
    } else if ts.len() == 1 {
        spec_json_of_transaction(ts.last())
    } else {
        spec_json_of_transactions(ts.drop_last()) + ","@ + spec_json_of_transaction(ts.last())
    }
}

/// The canonical encoding of a whole block; this text is what gets hashed.
/// Opaque so that reasoning about whole chains need not unfold it; `to_json`
/// reveals it where the encoding itself is built.
#[verifier::opaque]
pub open spec fn spec_json_of_block(b: Block) -> Seq<char> {
    "{\"index\":"@ + spec_dec_nat(b.index as nat) + ",\"timestamp\":"@ + spec_dec_nat(
        b.timestamp as nat,
    ) + ",\"proof\":"@ + spec_dec_nat(b.proof as nat) + ",\"previous_hash\":\""@ + spec_escape(
        b.previous_hash@,
    ) + "\",\"transactions\":["@ + spec_json_of_transactions(b.transactions@) + "]}"@
}

/// The hash of a block: the digest of its canonical encoding.
pub open spec fn spec_block_hash(b: Block) -> Seq<char> {
    sha256_hex(spec_json_of_block(b))
}

/// A digest satisfies the fixed difficulty exactly when it begins with four
/// hex zero characters.
pub open spec fn spec_meets_difficulty(h: Seq<char>) -> bool {
    h.len() >= 4 && h[0] == '0' && h[1] == '0' && h[2] == '0' && h[3] == '0'
}

/// Check the difficulty prefix of a digest.
pub fn meets_difficulty(h: &str) -> (r: bool)
    ensures
        r == spec_meets_difficulty(h@),
{
    let len = h.unicode_len();
    if len < 4 {
        return false;
    }
    h.get_char(0) == '0' && h.get_char(1) == '0' && h.get_char(2) == '0' && h.get_char(3) == '0'
}

/// Appends the canonical encoding of one transaction.
fn append_transaction(out: &mut String, t: &Transaction)
    ensures
        final(out)@ == old(out)@ + spec_json_of_transaction(*t),
{
    out.append("{\"sender\":\"");
    append_escaped(out, t.sender.as_str());
    out.append("\",\"receiver\":\"");
    append_escaped(out, t.receiver.as_str());
    out.append("\",\"amount\":");
    append_i64(out, t.amount);
    out.append("}");
    assert(out@ =~= old(out)@ + spec_json_of_transaction(*t));
}

/// Appends the canonical encoding of a transaction list.
fn append_transactions(out: &mut String, ts: &Vec<Transaction>)
    ensures
        final(out)@ == old(out)@ + spec_json_of_transactions(ts@),
{
    let mut i: usize = 0;
    while i < ts.len()
        invariant
            i <= ts@.len(),
            out@ == old(out)@ + spec_json_of_transactions(ts@.take(i as int)),
        decreases ts@.len() - i,
    {
        if i > 0 {
            out.append(",");
        }
        append_transaction(out, &ts[i]);
        proof {
            let t = ts@.take((i + 1) as int);
            assert(t.drop_last() =~= ts@.take(i as int));
            assert(t.last() == ts@[i as int]);
            assert(out@ =~= old(out)@ + spec_json_of_transactions(t));
        }
        i += 1;
    }
    proof {
        assert(ts@.take(ts@.len() as int) =~= ts@);
    }
}

impl Default for Block {
    fn default() -> (r: Self)
        ensures
            r.index == 0,
            r.proof == 0,
            r.previous_hash@ == Seq::<char>::empty(),
            r.transactions@ == Seq::<Transaction>::empty(),
    {
        Self::new()
    }
}

impl Block {
    /// An empty placeholder block with index 0.
    pub fn new() -> (r: Self)
        ensures
            r.index == 0,
            r.proof == 0,
            r.previous_hash@ == Seq::<char>::empty(),
            r.transactions@ == Seq::<Transaction>::empty(),
    {
        let r = Self::build_block(0, 0, "", None);
        proof {
            assert(""@ =~= Seq::<char>::empty()) by {
                reveal_strlit("");
            }
        }
        r
    }

    /// Build a block from its fields, stamping the current wall-clock second
    /// as its timestamp.
    pub fn build_block(
        index: u64,
        proof: u64,
        previous_hash: &str,
        transactions: Option<Vec<Transaction>>,
    ) -> (r: Self)
        ensures
            r.index == index,
            r.proof == proof,
            r.previous_hash@ == previous_hash@,
            r.transactions@ == (match transactions {
                Some(tx) => tx@,
                None => Seq::<Transaction>::empty(),
            }),
    {
        let timestamp = now_seconds();
        let transactions = match transactions {
            Some(tx) => tx,
            None => Vec::<Transaction>::new(),
        };
        Self { index, timestamp, proof, previous_hash: previous_hash.to_owned(), transactions }
    }

    /// The canonical encoding of this block, including its timestamp.
    pub fn to_json(&self) -> (r: String)
        ensures
            r@ == spec_json_of_block(*self),
    {
        let mut out = String::new();
        out.append("{\"index\":");
        append_u64(&mut out, self.index);
        out.append(",\"timestamp\":");
        append_u64(&mut out, self.timestamp as u64);
        out.append(",\"proof\":");
        append_u64(&mut out, self.proof);
        out.append(",\"previous_hash\":\"");
        append_escaped(&mut out, self.previous_hash.as_str());
        out.append("\",\"transactions\":[");
        append_transactions(&mut out, &self.transactions);
        out.append("]}");
        proof {
            reveal(spec_json_of_block);
            assert(out@ =~= spec_json_of_block(*self));
        }
        out
    }

    /// The hash of this block: the digest of its canonical encoding. Because
    /// the timestamp is part of the encoded text, the hash changes whenever
    /// the block is re-stamped.
    pub fn to_hash(&self) -> (r: String)
        ensures
            r@ == spec_block_hash(*self),
            r@.len() == 64,
    {
        let block_json = self.to_json();
        digest_str(block_json.as_str())
    }

    /// Re-stamp the block to the given second, or to the current wall clock;
    /// used only during an active proof-of-work search, never after sealing.
    pub fn update_timestamp(&mut self, timestamp: Option<u32>) -> (r: u32)
        ensures
            final(self).index == old(self).index,
            final(self).proof == old(self).proof,
            final(self).previous_hash == old(self).previous_hash,
            final(self).transactions == old(self).transactions,
            timestamp matches Some(t) ==> final(self).timestamp == t,
            r == final(self).timestamp,
    {
        self.timestamp = match timestamp {
            Some(t) => t,
            None => now_seconds(),
        };
        self.timestamp
    }
}

impl Default for Blockchain {
    fn default() -> (r: Self)
        ensures
            r.chain@ == Seq::<Block>::empty(),
            r.nodes@ == Seq::<String>::empty(),
    {
        Self::new()
    }
}

impl Blockchain {
    /// The chain invariant; established by every successful search and
    /// preserved ever after, since sealed blocks are never changed.
    pub open spec fn wf(&self) -> bool {
        spec_wf_chain(self.chain@)
    }

    /// An empty ledger with no peers.
    pub fn new() -> (r: Self)
        ensures
            r.chain@ == Seq::<Block>::empty(),
            r.nodes@ == Seq::<String>::empty(),
            r.wf(),
    {
        Self { chain: Vec::<Block>::new(), nodes: Vec::<String>::new() }
    }

    /// Drain the pool and append a block sealing those transactions, without
    /// searching for a proof. This layer does not re-validate linkage or
    /// difficulty: it trusts its caller, as the search does the validating.
    pub fn build_block(
        &mut self,
        proof: u64,
        previous_hash: &str,
        transaction_mutex: &mut MutexTransactionList,
    ) -> (r: u64)
        requires
            old(self).chain@.len() > 0 ==> old(self).chain@.last().index < u64::MAX,
        ensures
            final(self).nodes == old(self).nodes,
            final(self).chain@.len() == old(self).chain@.len() + 1,
            final(self).chain@.drop_last() == old(self).chain@,
            final(transaction_mutex)@ == Seq::<Transaction>::empty(),
            r == final(self).chain@.last().index,
            final(self).chain@.last().index == (if old(self).chain@.len() == 0 {
                1
            } else {
                old(self).chain@.last().index + 1
            }),
            final(self).chain@.last().proof == proof,
            final(self).chain@.last().previous_hash@ == previous_hash@,
            final(self).chain@.last().transactions@ == old(transaction_mutex)@,
    {
        let next_index = self.get_last_block_index() + 1;
        let transactions = transaction_mutex.into_vec();
        let block = Block::build_block(next_index, proof, previous_hash, Some(transactions));
        self.chain.push(block);
        proof {
            assert(self.chain@.drop_last() =~= old(self).chain@);
        }
        next_index
    }

    /// The proof-of-work search. Drains the pool once, builds a candidate
    /// block linked to the current tip, and tries nonces 0, 1, 2, ... until
    /// the candidate's hash satisfies the difficulty; whenever the wall-clock
    /// second changes it re-stamps the candidate and folds newly arrived
    /// transactions into it. On success the sealed block is appended and the
    /// winning nonce returned. `None` is returned only if the whole nonce
    /// space is exhausted; the ledger and the pool are then left as they
    /// were.
    pub fn proof_of_work(&mut self, transaction_mutex: &mut MutexTransactionList) -> (r: Option<
        u64,
    >)
        requires
            old(self).wf(),
            old(self).chain@.len() < u64::MAX,
        ensures
            final(self).wf(),
            final(self).nodes == old(self).nodes,
            r matches Some(proof) ==> {
                &&& final(self).chain@.len() == old(self).chain@.len() + 1
                &&& final(self).chain@.drop_last() == old(self).chain@
                &&& final(transaction_mutex)@ == Seq::<Transaction>::empty()
                &&& final(self).chain@.last().proof == proof
                &&& final(self).chain@.last().index == old(self).chain@.len() + 1
                &&& final(self).chain@.last().previous_hash@ == (if old(self).chain@.len() == 0 {
                    "0"@
                } else {
                    spec_block_hash(old(self).chain@.last())
                })
                &&& final(self).chain@.last().transactions@ == old(transaction_mutex)@
                &&& spec_meets_difficulty(spec_block_hash(final(self).chain@.last()))
            },
            r is None ==> *final(self) == *old(self) && final(transaction_mutex)@ == old(
                transaction_mutex,
            )@,
    {
        let last_block = self.get_last_block();
        let last_hash: String = match last_block {
            Some(b) => b.to_hash(),
            None => "0".to_owned(),
        };
        let next_index: u64 = match last_block {
            Some(b) => b.index + 1,
            None => 1,
        };
        let mut new_proof: u64 = 0;
        let transactions = transaction_mutex.into_vec();
        let mut new_block = Block::build_block(
            next_index,
            new_proof,
            last_hash.as_str(),
            Some(transactions),
        );
        let mut proof_matches = false;
        let mut exhausted = false;
        let mut last_timestamp = new_block.timestamp;

        while !proof_matches && !exhausted
            invariant
                self.chain == old(self).chain,
                self.nodes == old(self).nodes,
                old(self).wf(),
                old(self).chain@.len() < u64::MAX,
                transaction_mutex@ == Seq::<Transaction>::empty(),
                new_block.index == old(self).chain@.len() + 1,
                new_block.previous_hash@ == (if old(self).chain@.len() == 0 {
                    "0"@
                } else {
                    spec_block_hash(old(self).chain@.last())
                }),
                new_block.transactions@ == old(transaction_mutex)@,
                proof_matches ==> new_block.proof == new_proof && spec_meets_difficulty(
                    spec_block_hash(new_block),
                ),
            decreases u64::MAX - new_proof, (if proof_matches || exhausted {
                0int
            } else {
                1int
            }),
        {
            new_block.proof = new_proof;
            let current = new_block.update_timestamp(None);
            if current != last_timestamp {
                last_timestamp = current;
                if transaction_mutex.get_count() != 0 {
                    let mut tx = transaction_mutex.into_vec();
                    new_block.transactions.append(&mut tx);
                }
            }
            let block_hash = new_block.to_hash();
            if meets_difficulty(block_hash.as_str()) {
                proof_matches = true;
            } else if new_proof == u64::MAX {
                exhausted = true;
            } else {
                new_proof = new_proof + 1;
            }
        }

        if proof_matches {
            let ghost nb = new_block;
            let ghost oldc = old(self).chain@;
            self.chain.push(new_block);
            proof {
                let newc = self.chain@;
                assert(newc.drop_last() =~= oldc);
                assert forall|i: int| #![trigger newc[i]] 0 <= i < newc.len() implies newc[i].index
                    == i + 1 by {
                    if i < oldc.len() {
                        assert(newc[i] == oldc[i]);
                    } else {
                        assert(newc[i] == nb);
                    }
                }
                assert forall|i: int|
                    #![trigger newc[i]]
                    1 <= i < newc.len() implies newc[i].previous_hash@ == spec_block_hash(
                    newc[i - 1],
                ) by {
                    if i < oldc.len() {
                        assert(newc[i] == oldc[i]);
                        assert(newc[i - 1] == oldc[i - 1]);
                    } else {
                        assert(newc[i] == nb);
                        if oldc.len() > 0 {
                            assert(newc[i - 1] == oldc[oldc.len() - 1]);
                        }
                    }
                }
                assert forall|i: int|
                    #![trigger newc[i]]
                    0 <= i < newc.len() implies spec_meets_difficulty(
                    spec_block_hash(newc[i]),
                ) by {
                    if i < oldc.len() {
                        assert(newc[i] == oldc[i]);
                    } else {
                        assert(newc[i] == nb);
                    }
                }
                if oldc.len() > 0 {
                    assert(newc[0] == oldc[0]);
                }
            }
            Some(new_proof)
        } else {
            let Block { transactions: leftover, .. } = new_block;
            transaction_mutex.refill(leftover);
            None
        }
    }

    /// The index of the tip block, or 0 while the chain is empty. Never
    /// fails.
    pub fn get_last_block_index(&self) -> (r: u64)
        ensures
            r == (if self.chain@.len() > 0 {
                self.chain@.last().index
            } else {
                0
            }),
    {
        if self.chain.len() > 0 {
            self.chain[self.chain.len() - 1].index
        } else {
            0
        }
    }

    /// Check the chain invariant by recomputing every block's hash: block
    /// numbering, the genesis sentinel, the hash links and the difficulty
    /// prefix. This is how an unverified caller can test `wf` before asking
    /// for work.
    pub fn validate_chain(&self) -> (r: bool)
        ensures
            r == self.wf(),
    {
        let n = self.chain.len();
        let zero = "0".to_owned();
        let mut i: usize = 0;
        while i < n
            invariant
                n == self.chain@.len(),
                i <= n,
                zero@ == "0"@,
                forall|j: int|
                    #![trigger self.chain@[j]]
                    0 <= j < i ==> self.chain@[j].index == j + 1,
                i > 0 ==> self.chain@[0].previous_hash@ == "0"@,
                forall|j: int|
                    #![trigger self.chain@[j]]
                    1 <= j < i ==> self.chain@[j].previous_hash@ == spec_block_hash(
                        self.chain@[j - 1],
                    ),
                forall|j: int|
                    #![trigger self.chain@[j]]
                    0 <= j < i ==> spec_meets_difficulty(spec_block_hash(self.chain@[j])),
            decreases n - i,
        {
            let b = &self.chain[i];
            if b.index != (i as u64) + 1 {
                proof {
                    if spec_wf_chain(self.chain@) {
                        assert(self.chain@[i as int].index == i + 1);
                    }
                }
                return false;
            }
            if i == 0 {
                if !(b.previous_hash == zero) {
                    proof {
                        if spec_wf_chain(self.chain@) {
                            assert(self.chain@[0].previous_hash@ == "0"@);
                        }
                    }
                    return false;
                }
            } else {
                let prev_hash = self.chain[i - 1].to_hash();
                if !(b.previous_hash == prev_hash) {
                    proof {
                        if spec_wf_chain(self.chain@) {
                            assert(self.chain@[i as int].previous_hash@ == spec_block_hash(
                                self.chain@[i as int - 1],
                            ));
                        }
                    }
                    return false;
                }
            }
            let own_hash = b.to_hash();
            if !meets_difficulty(own_hash.as_str()) {
                proof {
                    if spec_wf_chain(self.chain@) {
                        assert(spec_meets_difficulty(spec_block_hash(self.chain@[i as int])));
                    }
                }
                return false;
            }
            i += 1;
        }
        true
    }

    /// The tip block, or `None` while the chain is empty. Never fails.
    pub fn get_last_block(&self) -> (r: Option<&Block>)
        ensures
            self.chain@.len() > 0 ==> (r matches Some(b) && *b == self.chain@.last()),
            self.chain@.len() == 0 ==> r is None,
    {
        if self.chain.len() > 0 {
            Some(&self.chain[self.chain.len() - 1])
        } else {
            None
        }
    }
}

/// Law: in a well-formed chain the first sealed block has index 1 and the
/// sentinel previous hash "0".
pub proof fn lemma_genesis_block(chain: Seq<Block>)
    requires
        spec_wf_chain(chain),
        chain.len() > 0,
    ensures
        chain[0].index == 1,
        chain[0].previous_hash@ == "0"@,
{
}

/// Law: in a well-formed chain every block after the first links to its
/// predecessor: its previous hash is the hash of the block directly before
/// it.
pub proof fn lemma_chain_linkage(chain: Seq<Block>, i: int)
    requires
        spec_wf_chain(chain),
        1 <= i < chain.len(),
    ensures
        chain[i].previous_hash@ == spec_block_hash(chain[i - 1]),
{
}

/// Law: in a well-formed chain every sealed block's hash begins with the
/// required four-hex-zero difficulty prefix.
pub proof fn lemma_chain_difficulty(chain: Seq<Block>, i: int)
    requires
        spec_wf_chain(chain),
        0 <= i < chain.len(),
    ensures
        spec_meets_difficulty(spec_block_hash(chain[i])),
{
}

/// The text hashed by the standalone nonce search for candidate `k` against
/// previous nonce `p`: the decimal rendering of k² − p², squares and
/// difference taken modulo 2^64.
pub open spec fn spec_pow_input(k: u64, p: u64) -> Seq<char> {
    spec_dec_nat((((k as int * k as int) - (p as int * p as int)) % 0x1_0000_0000_0000_0000int) as nat)
}

/// The standalone proof-of-work search over a previous nonce alone: try
/// candidates 1, 2, 3, ... until the digest of k² − p² (squares and
/// difference wrapping modulo 2^64) satisfies the difficulty. The result is
/// the least matching candidate; every candidate below it fails. Only if the
/// whole nonce space short of `u64::MAX` fails is `u64::MAX` returned
/// unchecked.
pub fn proof_of_work(previous_proof: u64) -> (r: u64)
    ensures
        forall|k: u64|
            1 <= k < r ==> !spec_meets_difficulty(
                sha256_hex(#[trigger] spec_pow_input(k, previous_proof)),
            ),
        r < u64::MAX ==> spec_meets_difficulty(sha256_hex(spec_pow_input(r, previous_proof))),
{
    let mut new_proof: u64 = 1;
    let mut check_proof = false;
    let mut exhausted = false;

    while !check_proof && !exhausted
        invariant
            1 <= new_proof,
            forall|k: u64|
                1 <= k < new_proof ==> !spec_meets_difficulty(
                    sha256_hex(#[trigger] spec_pow_input(k, previous_proof)),
                ),
            check_proof ==> spec_meets_difficulty(
                sha256_hex(spec_pow_input(new_proof, previous_proof)),
            ),
            exhausted ==> new_proof == u64::MAX,
        decreases u64::MAX - new_proof, (if check_proof || exhausted {
            0int
        } else {
            1int
        }),
    {
        let a = new_proof.wrapping_mul(new_proof);
        let b = previous_proof.wrapping_mul(previous_proof);
        let diff = a.wrapping_sub(b);
        proof {
            lemma_pow_input_wrapping(new_proof, previous_proof, a, b, diff);
        }
        let input = u64_to_string(diff);
        let hash_operation = digest_str(input.as_str());
        if meets_difficulty(hash_operation.as_str()) {
            check_proof = true;
        } else if new_proof == u64::MAX {
            exhausted = true;
        } else {
            new_proof = new_proof + 1;
        }
    }
    new_proof
}

/// The composition of wrapping squares and a wrapping difference equals the
/// single modular difference that `spec_pow_input` is stated over.
proof fn lemma_pow_input_wrapping(k: u64, p: u64, a: u64, b: u64, diff: u64)
    requires
        a == vstd::wrapping::u64_specs::wrapping_mul(k, k),
        b == vstd::wrapping::u64_specs::wrapping_mul(p, p),
        diff == vstd::wrapping::u64_specs::wrapping_sub(a, b),
    ensures
        spec_dec_nat(diff as nat) == spec_pow_input(k, p),
{
    let m = 0x1_0000_0000_0000_0000int;
    let kk = k as int * k as int;
    let pp = p as int * p as int;
    assert(k as int * k as int >= 0) by (nonlinear_arith);
    assert(p as int * p as int >= 0) by (nonlinear_arith);
    assert(a as int == kk % m);
    assert(b as int == pp % m);
    lemma_sub_mod_noop(kk, pp, m);
    assert((a as int - b as int) % m == (kk - pp) % m);
    if (a as int - b as int) < 0 {
        assert(diff as int == a as int - b as int + m);
        lemma_mod_add_multiples_vanish(a as int - b as int, m);
        lemma_small_mod((a as int - b as int + m) as nat, m as nat);
        assert((a as int - b as int) % m == diff as int);
    } else {
        lemma_small_mod((a as int - b as int) as nat, m as nat);
        assert((a as int - b as int) % m == diff as int);
    }
    assert(diff as int == (kk - pp) % m);
}

} // verus!
