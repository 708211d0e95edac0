use vstd::prelude::*;

verus! {

/// The failure that aborted a key-generation batch.
#[derive(Clone, Debug)]
pub struct KeygenError {
    /// Position of the failing entry among the batch's entries.
    pub entry: usize,
    pub reason: String,
}

/// What a batch has produced so far.
pub struct BatchView {
    pub expected: nat,
    pub vks: Seq<Vec<u8>>,
    pub failure: Option<KeygenError>,
}

/// The progress of a batch that turns entry-function configs into verifying
/// keys one at a time, in order, and stops at the first failure.
pub struct VkBatch {
    expected: usize,
    vks: Vec<Vec<u8>>,
    failure: Option<KeygenError>,
}

impl View for VkBatch {
    type V = BatchView;

    closed spec fn view(&self) -> BatchView {
        BatchView { expected: self.expected as nat, vks: self.vks@, failure: self.failure }
    }
}

/// The entry a batch works on next, if it is to go on.
pub open spec fn next_entry_spec(b: BatchView) -> Option<nat> {
    if b.failure is None && b.vks.len() < b.expected {
        Some(b.vks.len())
    } else {
        None
    }
}

/// The batch after the outcome of its next entry.
pub open spec fn record_spec(b: BatchView, outcome: Result<Vec<u8>, String>) -> BatchView {
    match outcome {
        Ok(vk) => BatchView { vks: b.vks.push(vk), ..b },
        Err(reason) => BatchView {
            failure: Some(KeygenError { entry: b.vks.len() as usize, reason }),
            ..b
        },
    }
}

/// What a finished batch returns.
pub open spec fn finish_spec(b: BatchView) -> Result<Seq<Vec<u8>>, KeygenError> {
    match b.failure {
        Some(e) => Err(e),
        None => Ok(b.vks),
    }
}

/// The batch after the outcomes of its entries, fed in order while it goes on.
pub open spec fn feed(b: BatchView, outcomes: Seq<Result<Vec<u8>, String>>) -> BatchView
    decreases outcomes.len(),
{
    if outcomes.len() == 0 || next_entry_spec(b) is None {
        b
    } else {
        feed(record_spec(b, outcomes[0]), outcomes.drop_first())
    }
}

/// The outcome of a batch over entry outcomes `outcomes[from..]`: every key in
/// input order, or the first failure with its position.
pub open spec fn batch_result(outcomes: Seq<Result<Vec<u8>, String>>, from: int) -> Result<Seq<Vec<u8>>, KeygenError>
    decreases outcomes.len() - from,
{
    if from < 0 || from >= outcomes.len() {
        Ok(Seq::empty())
    } else {
        match outcomes[from] {
            Err(reason) => Err(KeygenError { entry: from as usize, reason }),
            Ok(vk) => match batch_result(outcomes, from + 1) {
                Ok(rest) => Ok(seq![vk] + rest),
                Err(e) => Err(e),
            },
        }
    }
}

impl VkBatch {
    /// A batch of `expected` entries with nothing done.
    pub fn new(expected: usize) -> (r: VkBatch)
        ensures
            r@.expected == expected,
            r@.vks.len() == 0,
            r@.failure is None,
    {
        VkBatch { expected, vks: Vec::new(), failure: None }
    }

    /// The position of the entry to work on next, or `None` once every entry
    /// has its key or one has failed.
    pub fn next_entry(&self) -> (r: Option<usize>)
        ensures
            r matches Some(i) ==> next_entry_spec(self@) == Some(i as nat),
            r is None ==> next_entry_spec(self@) is None,
    {
        if self.failure.is_none() && self.vks.len() < self.expected {
            Some(self.vks.len())
        } else {
            None
        }
    }

    /// Takes the outcome of the entry that `next_entry` named.
    pub fn record(&mut self, outcome: Result<Vec<u8>, String>)
        requires
            next_entry_spec(old(self)@) is Some,
        ensures
            final(self)@ == record_spec(old(self)@, outcome),
    {
        match outcome {
            Ok(vk) => self.vks.push(vk),
            Err(reason) => {
                self.failure = Some(KeygenError { entry: self.vks.len(), reason });
            },
        }
    }

    /// One key per entry in input order, or the failure that stopped the batch.
    pub fn finish(self) -> (r: Result<Vec<Vec<u8>>, KeygenError>)
        requires
            next_entry_spec(self@) is None,
        ensures
            match finish_spec(self@) {
                Ok(vks) => r matches Ok(v) && v@ == vks,
                Err(e) => r matches Err(e2) && e2 == e,
            },
    {
        match self.failure {
            Some(e) => Err(e),
            None => Ok(self.vks),
        }
    }
}

proof fn lemma_feed_from(b: BatchView, outcomes: Seq<Result<Vec<u8>, String>>, k: int)
    requires
        0 <= k <= outcomes.len(),
        b.expected == outcomes.len(),
        b.failure is None,
        b.vks.len() == k,
    ensures
        next_entry_spec(feed(b, outcomes.subrange(k, outcomes.len() as int))) is None,
        finish_spec(feed(b, outcomes.subrange(k, outcomes.len() as int))) == match batch_result(outcomes, k) {
            Ok(rest) => Ok(b.vks + rest),
            Err(e) => Err::<Seq<Vec<u8>>, KeygenError>(e),
        },
    decreases outcomes.len() - k,
{
    let rest = outcomes.subrange(k, outcomes.len() as int);
    if k == outcomes.len() {
        assert(b.vks + Seq::<Vec<u8>>::empty() =~= b.vks);
    } else {
        assert(rest[0] == outcomes[k]);
        assert(rest.drop_first() =~= outcomes.subrange(k + 1, outcomes.len() as int));
        let b2 = record_spec(b, outcomes[k]);
        match outcomes[k] {
            Ok(vk) => {
                lemma_feed_from(b2, outcomes, k + 1);
                match batch_result(outcomes, k + 1) {
                    Ok(r) => {
                        assert(b2.vks + r =~= b.vks + (seq![vk] + r));
                    },
                    Err(_) => {},
                }
            },
            Err(_) => {
                assert(feed(b2, rest.drop_first()) == b2);
            },
        }
    }
}

/// Feeding the outcomes of all entries of a batch in order ends it, and it
/// then returns one key per entry in input order when all succeeded, and the
/// first failure, with its position, otherwise.
pub proof fn lemma_batch_outcome(outcomes: Seq<Result<Vec<u8>, String>>)
    ensures
        ({
            let start = BatchView { expected: outcomes.len(), vks: Seq::empty(), failure: None };
            &&& next_entry_spec(feed(start, outcomes)) is None
            &&& finish_spec(feed(start, outcomes)) == batch_result(outcomes, 0)
        }),
{
    let start = BatchView { expected: outcomes.len(), vks: Seq::empty(), failure: None };
    assert(outcomes.subrange(0, outcomes.len() as int) =~= outcomes);
    lemma_feed_from(start, outcomes, 0);
    match batch_result(outcomes, 0) {
        Ok(r) => assert(Seq::<Vec<u8>>::empty() + r =~= r),
        Err(_) => {},
    }
}

/// When every entry succeeds, the batch returns exactly one key per entry,
/// each the key of the entry at the same position.
pub proof fn lemma_all_succeed(outcomes: Seq<Result<Vec<u8>, String>>, from: int)
    requires
        0 <= from <= outcomes.len(),
        forall|i: int| 0 <= i < outcomes.len() ==> outcomes[i] is Ok,
    ensures
        batch_result(outcomes, from) matches Ok(vks) && vks.len() == outcomes.len() - from
            && forall|i: int| 0 <= i < vks.len() ==> outcomes[from + i] == Ok::<Vec<u8>, String>(#[trigger] vks[i]),
    decreases outcomes.len() - from,
{
    if from < outcomes.len() {
        lemma_all_succeed(outcomes, from + 1);
        let vks = batch_result(outcomes, from)->Ok_0;
        let rest = batch_result(outcomes, from + 1)->Ok_0;
        assert forall|i: int| 0 <= i < vks.len() implies outcomes[from + i] == Ok::<Vec<u8>, String>(#[trigger] vks[i]) by {
            if i > 0 {
                assert(vks[i] == rest[i - 1]);
            }
        }
    }
}

} // verus!
