//! The FIFO queue of admitted requests and the formation of prefill batches
//! under the joint token budgets.

use vstd::prelude::*;
use vstd::seq_lib::*;

verus! {

/// Router-side book-keeping for one queued request.
#[derive(Clone, Copy, Debug)]
pub struct Entry {
    /// Monotonic request id, assigned at queue insertion.
    pub id: u64,
    /// Tokenized prompt length.
    pub input_length: u32,
    /// Resolved bound on the tokens still to generate.
    pub max_new_tokens: u32,
    /// Whether the requester's receiver was observed closed.
    pub cancelled: bool,
    /// Instant the entry was queued, in milliseconds.
    pub queue_time_ms: u64,
}

/// A formed prefill batch, addressed by its id.
#[derive(Clone, Debug)]
pub struct Batch {
    pub id: u64,
    pub request_ids: Vec<u64>,
    pub size: usize,
    /// The batch's token budget claim: the sum over its entries of
    /// `input_length + max_new_tokens`.
    pub max_tokens: u64,
}

/// Sum of the entries' prompt lengths.
pub open spec fn prefill_sum(s: Seq<Entry>) -> int
    decreases s.len(),
{
    if s.len() == 0 {
        0
    } else {
        prefill_sum(s.drop_last()) + s.last().input_length
    }
}

/// Sum of the entries' generation bounds.
pub open spec fn mnt_sum(s: Seq<Entry>) -> int
    decreases s.len(),
{
    if s.len() == 0 {
        0
    } else {
        mnt_sum(s.drop_last()) + s.last().max_new_tokens
    }
}

/// The longest prompt among the entries, zero when there are none.
pub open spec fn max_input(s: Seq<Entry>) -> int
    decreases s.len(),
{
    if s.len() == 0 {
        0
    } else if s.last().input_length >= max_input(s.drop_last()) {
        s.last().input_length as int
    } else {
        max_input(s.drop_last())
    }
}

/// The decode-token cost of a candidate batch. Under padding the shapes are
/// rectangular, so every entry pays for the longest prompt.
pub open spec fn decode_cost(s: Seq<Entry>, requires_padding: bool) -> int {
    if requires_padding {
        max_input(s) * s.len() + mnt_sum(s)
    } else {
        mnt_sum(s)
    }
}

/// The token budget a batch claims while resident in shard memory.
pub open spec fn batch_tokens(s: Seq<Entry>) -> int {
    prefill_sum(s) + mnt_sum(s)
}

/// Whether a prefix of length `k` of the live entries fits the budgets.
pub open spec fn admissible(
    s: Seq<Entry>,
    k: int,
    requires_padding: bool,
    prefill_token_budget: u32,
    token_budget: u32,
    max_size: Option<usize>,
) -> bool {
    &&& 0 <= k <= s.len()
    &&& prefill_sum(s.take(k)) <= prefill_token_budget
    &&& prefill_sum(s.take(k)) + decode_cost(s.take(k), requires_padding) <= token_budget
    &&& (max_size matches Some(m) ==> k <= m)
}

/// Whether an entry is still wanted: its receiver has not closed.
pub open spec fn live(e: Entry) -> bool {
    !e.cancelled
}

/// The live entries of a queue, in order: those whose receiver has not
/// closed. Cancelled entries are dropped when the queue is scanned.
pub open spec fn live_seq(s: Seq<Entry>) -> Seq<Entry>
    decreases s.len(),
{
    if s.len() == 0 {
        Seq::empty()
    } else {
        live_seq(s.drop_last()) + (if live(s.last()) {
            seq![s.last()]
        } else {
            Seq::empty()
        })
    }
}

/// Whether every entry of the sequence has an id below the bound.
pub open spec fn all_ids_lt(s: Seq<Entry>, bound: u64) -> bool {
    forall|i: int| 0 <= i < s.len() ==> (#[trigger] s[i]).id < bound
}

/// Whether the entries' ids strictly increase.
pub open spec fn ids_sorted(s: Seq<Entry>) -> bool {
    forall|i: int, j: int| 0 <= i < j < s.len() ==> (#[trigger] s[i]).id < (#[trigger] s[j]).id
}

proof fn lemma_live_seq_sorted(s: Seq<Entry>, bound: u64)
    requires
        ids_sorted(s),
        all_ids_lt(s, bound),
    ensures
        ids_sorted(live_seq(s)),
        all_ids_lt(live_seq(s), bound),
        live_seq(s).len() <= s.len(),
    decreases s.len(),
{
    if s.len() > 0 {
        let bl = s.drop_last();
        assert(ids_sorted(bl));
        assert(all_ids_lt(bl, s.last().id));
        lemma_live_seq_sorted(bl, s.last().id);
        assert(s.last().id < bound);
        assert forall|i: int| 0 <= i < live_seq(s).len() implies (#[trigger] live_seq(s)[i]).id
            < bound by {
            if i < live_seq(bl).len() {
                assert(live_seq(bl)[i].id < s.last().id);
            }
        }
        assert forall|i: int, j: int| 0 <= i < j < live_seq(s).len() implies (
        #[trigger] live_seq(s)[i]).id < (#[trigger] live_seq(s)[j]).id by {
            if j < live_seq(bl).len() {
            } else {
                assert(live_seq(bl)[i].id < s.last().id);
            }
        }
    }
}

proof fn lemma_sums_nonneg(s: Seq<Entry>)
    ensures
        prefill_sum(s) >= 0,
        mnt_sum(s) >= 0,
        max_input(s) >= 0,
    decreases s.len(),
{
    if s.len() > 0 {
        lemma_sums_nonneg(s.drop_last());
    }
}

/// The FIFO queue of validated, admitted requests. The scheduler is its only
/// consumer.
pub struct Queue {
    pub entries: Vec<Entry>,
    /// The id the next appended request receives.
    pub next_id: u64,
    /// The id the next formed batch receives.
    pub next_batch_id: u64,
    /// Whether the shards require rectangular (padded) batch shapes.
    pub requires_padding: bool,
}

/// Well-formedness of the queue: entry ids strictly increase in FIFO order
/// and stay below the next id to be issued.
pub open spec fn queue_wf(q: Queue) -> bool {
    &&& forall|i: int, j: int|
        0 <= i < j < q.entries@.len() ==> (#[trigger] q.entries@[i]).id < (
        #[trigger] q.entries@[j]).id
    &&& forall|i: int| 0 <= i < q.entries@.len() ==> (#[trigger] q.entries@[i]).id < q.next_id
}

impl Queue {
    /// An empty queue.
    pub fn new(requires_padding: bool) -> (q: Queue)
        ensures
            queue_wf(q),
            q.entries@.len() == 0,
            q.next_id == 0,
            q.next_batch_id == 0,
            q.requires_padding == requires_padding,
    {
        Queue { entries: Vec::new(), next_id: 0, next_batch_id: 0, requires_padding }
    }

    /// The number of queued entries.
    pub fn len(&self) -> (n: usize)
        ensures
            n == self.entries@.len(),
    {
        self.entries.len()
    }

    /// Appends a request, assigning it the next monotonic id, which is
    /// returned.
    pub fn append(
        &mut self,
        input_length: u32,
        max_new_tokens: u32,
        queue_time_ms: u64,
    ) -> (id: u64)
        requires
            queue_wf(*old(self)),
            old(self).next_id < u64::MAX,
        ensures
            queue_wf(*final(self)),
            id == old(self).next_id,
            final(self).next_id == old(self).next_id + 1,
            final(self).next_batch_id == old(self).next_batch_id,
            final(self).requires_padding == old(self).requires_padding,
            final(self).entries@ == old(self).entries@.push(Entry {
                id,
                input_length,
                max_new_tokens,
                cancelled: false,
                queue_time_ms,
            }),
    {
        let id = self.next_id;
        self.entries.push(Entry {
            id,
            input_length,
            max_new_tokens,
            cancelled: false,
            queue_time_ms,
        });
        self.next_id = id + 1;
        id
    }

    /// Marks the entry with the given id cancelled, leaving every other
    /// entry untouched.
    pub fn mark_cancelled(&mut self, id: u64)
        requires
            queue_wf(*old(self)),
        ensures
            queue_wf(*final(self)),
            final(self).next_id == old(self).next_id,
            final(self).next_batch_id == old(self).next_batch_id,
            final(self).requires_padding == old(self).requires_padding,
            final(self).entries@.len() == old(self).entries@.len(),
            forall|i: int|
                0 <= i < old(self).entries@.len() ==> {
                    let e = #[trigger] old(self).entries@[i];
                    if e.id == id {
                        final(self).entries@[i] == Entry { cancelled: true, ..e }
                    } else {
                        final(self).entries@[i] == e
                    }
                },
    {
        let n = self.entries.len();
        let mut i: usize = 0;
        while i < n
            invariant
                queue_wf(*self),
                n == self.entries@.len() == old(self).entries@.len(),
                i <= n,
                self.next_id == old(self).next_id,
                self.next_batch_id == old(self).next_batch_id,
                self.requires_padding == old(self).requires_padding,
                forall|k: int|
                    0 <= k < i ==> {
                        let e = #[trigger] old(self).entries@[k];
                        if e.id == id {
                            self.entries@[k] == Entry { cancelled: true, ..e }
                        } else {
                            self.entries@[k] == e
                        }
                    },
                forall|k: int|
                    i <= k < n ==> #[trigger] self.entries@[k] == old(self).entries@[k],
            decreases n - i,
        {
            if self.entries[i].id == id {
                let e = self.entries[i];
                self.entries.set(i, Entry { cancelled: true, ..e });
            }
            i += 1;
        }
    }

    /// Forms the next prefill batch: drops cancelled entries, then takes the
    /// longest FIFO prefix of the live entries that fits the prefill and
    /// total token budgets (rectangular cost under padding) and the batch
    /// size cap. Returns `None`, leaving the batch id untouched, when no
    /// live entry fits or the prefix stays under `min_size`. The formed
    /// batch's `max_tokens` claim never exceeds `token_budget`.
    pub fn next_batch(
        &mut self,
        min_size: Option<usize>,
        max_size: Option<usize>,
        prefill_token_budget: u32,
        token_budget: u32,
    ) -> (r: Option<Batch>)
        requires
            queue_wf(*old(self)),
            old(self).next_batch_id < u64::MAX,
        ensures
            queue_wf(*final(self)),
            final(self).next_id == old(self).next_id,
            final(self).requires_padding == old(self).requires_padding,
            ({
                let lv = live_seq(old(self).entries@);
                let pad = old(self).requires_padding;
                match r {
                    None => {
                        &&& final(self).entries@ == lv
                        &&& final(self).next_batch_id == old(self).next_batch_id
                        &&& exists|kk: int|
                            {
                                &&& #[trigger] admissible(
                                    lv,
                                    kk,
                                    pad,
                                    prefill_token_budget,
                                    token_budget,
                                    max_size,
                                )
                                &&& (kk == lv.len() || !admissible(
                                    lv,
                                    kk + 1,
                                    pad,
                                    prefill_token_budget,
                                    token_budget,
                                    max_size,
                                ))
                                &&& (kk == 0 || (min_size matches Some(m) && kk < m))
                            }
                    },
                    Some(b) => {
                        &&& b.id == old(self).next_batch_id
                        &&& final(self).next_batch_id == old(self).next_batch_id + 1
                        &&& 1 <= b.size <= lv.len()
                        &&& admissible(
                            lv,
                            b.size as int,
                            pad,
                            prefill_token_budget,
                            token_budget,
                            max_size,
                        )
                        &&& (b.size == lv.len() || !admissible(
                            lv,
                            b.size + 1,
                            pad,
                            prefill_token_budget,
                            token_budget,
                            max_size,
                        ))
                        &&& (min_size matches Some(m) ==> b.size >= m)
                        &&& b.request_ids@ == lv.take(b.size as int).map_values(
                            |e: Entry| e.id,
                        )
                        &&& b.max_tokens == batch_tokens(lv.take(b.size as int))
                        &&& b.max_tokens <= token_budget
                        &&& final(self).entries@ == lv.skip(b.size as int)
                    },
                }
            }),
    {
        let ghost entries0 = self.entries@;
        let ghost lv = live_seq(entries0);
        let pad = self.requires_padding;

        // Drop the cancelled entries, keeping FIFO order.
        let n = self.entries.len();
        let mut kept: Vec<Entry> = Vec::new();
        let mut j: usize = 0;
        while j < n
            invariant
                n == entries0.len(),
                j <= n,
                self.entries@ == entries0,
                kept@ == live_seq(entries0.take(j as int)),
            decreases n - j,
        {
            let e = self.entries[j];
            proof {
                assert(entries0.take(j + 1).drop_last() =~= entries0.take(j as int));
                assert(entries0.take(j + 1).last() == entries0[j as int]);
            }
            if !e.cancelled {
                kept.push(e);
            }
            j += 1;
        }
        proof {
            assert(entries0.take(n as int) =~= entries0);
            lemma_live_seq_sorted(entries0, self.next_id);
        }

        // Scan the live prefix while the budgets hold.
        let ln = kept.len();
        let mut k: usize = 0;
        let mut prefill_acc: u64 = 0;
        let mut mnt_acc: u64 = 0;
        let mut max_in: u64 = 0;
        let mut stop: bool = false;
        while k < ln && !stop
            invariant
                ln == lv.len(),
                kept@ == lv,
                k <= ln,
                admissible(lv, k as int, pad, prefill_token_budget, token_budget, max_size),
                prefill_acc as int == prefill_sum(lv.take(k as int)),
                mnt_acc as int == mnt_sum(lv.take(k as int)),
                max_in as int == max_input(lv.take(k as int)),
                prefill_acc <= prefill_token_budget,
                mnt_acc <= token_budget,
                max_in < 0x1_0000_0000,
                stop ==> !admissible(
                    lv,
                    k + 1,
                    pad,
                    prefill_token_budget,
                    token_budget,
                    max_size,
                ),
            decreases ln - k, (if stop { 0int } else { 1int }),
        {
            let e = kept[k];
            proof {
                assert(lv.take(k + 1).drop_last() =~= lv.take(k as int));
                assert(lv.take(k + 1).last() == lv[k as int]);
            }
            let new_prefill: u64 = prefill_acc + e.input_length as u64;
            let new_mnt: u64 = mnt_acc + e.max_new_tokens as u64;
            let new_max: u64 = if e.input_length as u64 > max_in {
                e.input_length as u64
            } else {
                max_in
            };
            proof {
                assert((new_max as int) * (k as int + 1) <= 0x1_0000_0000
                    * 0x1_0000_0000_0000_0000) by (nonlinear_arith)
                    requires
                        0 <= new_max <= 0x1_0000_0000,
                        0 <= k as int + 1 <= 0x1_0000_0000_0000_0000,
                ;
            }
            let decode: u128 = if pad {
                new_max as u128 * (k as u128 + 1) + new_mnt as u128
            } else {
                new_mnt as u128
            };
            proof {
                assert(prefill_sum(lv.take(k + 1)) == new_prefill as int);
                assert(mnt_sum(lv.take(k + 1)) == new_mnt as int);
                assert(max_input(lv.take(k + 1)) == new_max as int);
                assert(lv.take(k + 1).len() == k + 1);
                if pad {
                    assert(new_max as u128 * (k as u128 + 1) == (new_max as int) * (k + 1))
                        by (nonlinear_arith)
                        requires
                            new_max < 0x1_0000_0000_0000_0000,
                            k < 0x1_0000_0000_0000_0000_0000_0000_0000_0000 - 1,
                    ;
                    assert(decode as int == decode_cost(lv.take(k + 1), pad));
                } else {
                    assert(decode as int == decode_cost(lv.take(k + 1), pad));
                }
            }
            let fits = new_prefill <= prefill_token_budget as u64 && new_prefill as u128
                + decode <= token_budget as u128 && (match max_size {
                Some(m) => k < m,
                None => true,
            });
            if fits {
                proof {
                    if pad {
                        assert((new_max as int) * (k + 1) >= 0) by (nonlinear_arith)
                            requires
                                new_max >= 0,
                                k >= 0,
                        ;
                    }
                    assert(admissible(
                        lv,
                        k + 1,
                        pad,
                        prefill_token_budget,
                        token_budget,
                        max_size,
                    ));
                }
                prefill_acc = new_prefill;
                mnt_acc = new_mnt;
                max_in = new_max;
                k += 1;
            } else {
                proof {
                    assert(!admissible(
                        lv,
                        k + 1,
                        pad,
                        prefill_token_budget,
                        token_budget,
                        max_size,
                    ));
                }
                stop = true;
            }
        }

        // Decide whether the prefix forms a batch.
        let formed = k > 0 && (match min_size {
            Some(m) => k >= m,
            None => true,
        });
        if !formed {
            self.entries = kept;
            proof {
                assert(k == lv.len() || stop);
                assert(admissible(
                    lv,
                    k as int,
                    pad,
                    prefill_token_budget,
                    token_budget,
                    max_size,
                ));
            }
            return None;
        }

        // Collect the batched ids and keep the remainder queued.
        let mut ids: Vec<u64> = Vec::new();
        let mut i: usize = 0;
        while i < k
            invariant
                k <= ln == lv.len(),
                kept@ == lv,
                i <= k,
                ids@ == lv.take(i as int).map_values(|e: Entry| e.id),
            decreases k - i,
        {
            ids.push(kept[i].id);
            proof {
                assert(lv.take(i + 1).map_values(|e: Entry| e.id) =~= lv.take(
                    i as int,
                ).map_values(|e: Entry| e.id).push(lv[i as int].id));
            }
            i += 1;
        }
        let mut remaining: Vec<Entry> = Vec::new();
        let mut i2: usize = k;
        while i2 < ln
            invariant
                k <= i2 <= ln == lv.len(),
                kept@ == lv,
                remaining@ == lv.subrange(k as int, i2 as int),
            decreases ln - i2,
        {
            remaining.push(kept[i2]);
            i2 += 1;
        }
        proof {
            assert(remaining@ =~= lv.skip(k as int));
            lemma_sums_nonneg(lv.take(k as int));
            if pad {
                assert(max_input(lv.take(k as int)) * lv.take(k as int).len() >= 0)
                    by (nonlinear_arith)
                    requires
                        max_input(lv.take(k as int)) >= 0,
                        lv.take(k as int).len() >= 0,
                ;
            }
        }
        let batch_id = self.next_batch_id;
        self.next_batch_id = batch_id + 1;
        self.entries = remaining;
        let batch = Batch {
            id: batch_id,
            request_ids: ids,
            size: k,
            max_tokens: prefill_acc + mnt_acc,
        };
        Some(batch)
    }
}

} // verus!
