//! Transcript store: the ordered, append-only sequence of accepted
//! contributions, together with a record of how much of it has been made
//! durable. The store is mutated only by the admission pipeline, and only
//! while that pipeline holds the exclusive slot; it is never rolled back.

use vstd::prelude::*;

verus! {

/// One participant's update to the ceremony: an opaque randomness payload.
/// The correctness proof that accompanies it is consumed by the external
/// verification oracle and is not retained here.
#[derive(Clone, PartialEq, Eq, Debug)]
pub struct Contribution {
    /// The participant's updated randomness material, as submitted.
    pub payload: Vec<u8>,
}

impl Contribution {
    /// The payload bytes, as a mathematical sequence.
    pub open spec fn view(self) -> Seq<u8> {
        self.payload@
    }
}

/// One step of the witness digest: fold the next byte into the running
/// value, keeping the result within 64 bits.
pub open spec fn digest_step(d: u64, b: u8) -> u64 {
    (((d as nat) * 31 + (b as nat)) % 0x1_0000_0000_0000_0000) as u64
}

/// The witness digest of a payload: the receipt of a finished contribution
/// commits to this value.
pub open spec fn digest_of(s: Seq<u8>) -> u64
    decreases s.len(),
{
    if s.len() == 0 {
        0u64
    } else {
        digest_step(digest_of(s.drop_last()), s.last())
    }
}

/// Computes the witness digest of a payload.
pub fn compute_digest(payload: &Vec<u8>) -> (r: u64)
    ensures
        r == digest_of(payload@),
{
    let mut d: u64 = 0;
    let mut i: usize = 0;
    while i < payload.len()
        invariant
            i <= payload.len(),
            d == digest_of(payload@.take(i as int)),
        decreases payload.len() - i,
    {
        let b = payload[i];
        let wide: u128 = (d as u128) * 31 + (b as u128);
        let next: u64 = (wide % 0x1_0000_0000_0000_0000u128) as u64;
        proof {
            assert(payload@.take(i + 1).drop_last() =~= payload@.take(i as int));
            assert(payload@.take(i + 1).last() == payload@[i as int]);
            assert(next == digest_step(d, payload@[i as int]));
        }
        d = next;
        i = i + 1;
    }
    proof {
        assert(payload@.take(payload@.len() as int) =~= payload@);
    }
    d
}

/// Owns the current ceremony transcript and tracks the durable prefix: the
/// contributions up to `durable_len` have been written out by the crash-safe
/// journal-and-swap protocol, the ones after it live only in memory.
pub struct TranscriptStore {
    contributions: Vec<Contribution>,
    durable_len: usize,
}

impl TranscriptStore {
    /// The accepted contributions, in acceptance order.
    pub closed spec fn contributions(self) -> Seq<Seq<u8>> {
        self.contributions@.map_values(|c: Contribution| c@)
    }

    /// How many leading contributions are durably persisted.
    pub closed spec fn durable_len(self) -> nat {
        self.durable_len as nat
    }

    /// The durable copy never runs ahead of the in-memory transcript, and
    /// its length is a machine-word count.
    pub open spec fn wf(self) -> bool {
        &&& self.durable_len() <= self.contributions().len()
        &&& self.durable_len() <= usize::MAX
    }

    /// An empty transcript whose durable copy is in sync.
    pub fn new() -> (r: TranscriptStore)
        ensures
            r.wf(),
            r.contributions() =~= Seq::<Seq<u8>>::empty(),
            r.durable_len() == 0,
    {
        TranscriptStore { contributions: Vec::new(), durable_len: 0 }
    }

    /// The number of accepted contributions.
    pub fn len(&self) -> (r: usize)
        ensures
            r == self.contributions().len(),
    {
        self.contributions.len()
    }

    /// The number of leading contributions that are durably persisted.
    pub fn num_durable(&self) -> (r: usize)
        ensures
            r == self.durable_len(),
    {
        self.durable_len
    }

    /// Read-only view of the accepted contributions, the verification
    /// baseline for the next contribution. Valid for the duration of one
    /// verify step; readers never interleave with an in-flight append.
    pub fn snapshot(&self) -> (r: &Vec<Contribution>)
        ensures
            r@.map_values(|c: Contribution| c@) == self.contributions(),
    {
        &self.contributions
    }

    /// Appends an accepted contribution. Exclusive, single-writer: the
    /// caller holds the slot. The durable copy is untouched.
    pub fn append(&mut self, contribution: Contribution)
        requires
            old(self).wf(),
        ensures
            final(self).wf(),
            final(self).contributions() =~= old(self).contributions().push(contribution@),
            final(self).durable_len() == old(self).durable_len(),
    {
        self.contributions.push(contribution);
        proof {
            assert(self.contributions@.drop_last() =~= old(self).contributions@);
        }
    }

    /// Records that the full transcript has been durably written out: the
    /// write-then-atomic-replace protocol completed, so the durable copy now
    /// matches the in-memory one.
    pub fn mark_durable(&mut self)
        requires
            old(self).wf(),
        ensures
            final(self).wf(),
            final(self).contributions() == old(self).contributions(),
            final(self).durable_len() == final(self).contributions().len(),
    {
        self.durable_len = self.contributions.len();
    }
}

} // verus!
