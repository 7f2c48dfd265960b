//! The data the tailer moves: shards, records, and record batches.
//!
//! These mirror what the remote stream service hands back, as plain values
//! the logic can reason about.  A record's payload is a byte sequence; its
//! arrival time, when present, is a count of milliseconds since the epoch;
//! its encryption marker, when present, is the service's name for the
//! scheme.  The binary converts the service's own types into these.

use vstd::prelude::*;

verus! {

/// One partition of the stream, as the enumeration call reports it.
/// The tailer uses only the identifier; the parent links are carried
/// through for completeness.
#[derive(Debug)]
pub struct Shard {
    pub shard_id: Option<String>,
    pub parent_shard_id: Option<String>,
    pub adjacent_parent_shard_id: Option<String>,
}

/// One record of a shard, immutable once received.
#[derive(Debug)]
pub struct Record {
    /// Milliseconds since the epoch at which the record arrived, when the
    /// service reports it.
    pub approximate_arrival_timestamp: Option<u64>,
    /// The payload bytes.
    pub data: Option<Vec<u8>>,
    /// The service's name for the encryption scheme, when the record is
    /// encrypted at rest.
    pub encryption_type: Option<String>,
    pub partition_key: Option<String>,
    /// Monotonically increasing within the record's shard.
    pub sequence_number: Option<String>,
}

/// The result of one fetch: the records in shard order, and the token to
/// fetch with next.  No next token means the shard is closed: a terminal
/// condition for its poller, not an error.
#[derive(Debug)]
pub struct RecordBatch {
    pub records: Vec<Record>,
    pub next_token: Option<String>,
}

impl RecordBatch {
    /// Whether this batch says its shard has no successor token.
    pub fn is_terminal(&self) -> (r: bool)
        ensures
            r == (self.next_token is None),
    {
        self.next_token.is_none()
    }
}

/// The identifiers of the shards that report one, in enumeration order.
pub open spec fn spec_shard_ids(shards: Seq<Shard>) -> Seq<String>
    decreases shards.len(),
{
    if shards.len() == 0 {
        Seq::empty()
    } else {
        let rest = spec_shard_ids(shards.drop_first());
        match shards[0].shard_id {
            Some(id) => seq![id] + rest,
            None => rest,
        }
    }
}

/// One more shard appends its identifier, if it has one.
pub proof fn lemma_spec_shard_ids_snoc(shards: Seq<Shard>, s: Shard)
    ensures
        spec_shard_ids(shards.push(s)) == match s.shard_id {
            Some(id) => spec_shard_ids(shards).push(id),
            None => spec_shard_ids(shards),
        },
    decreases shards.len(),
{
    let whole = shards.push(s);
    if shards.len() == 0 {
        assert(whole.drop_first() =~= Seq::<Shard>::empty());
        assert(whole[0] == s);
        assert(spec_shard_ids(whole.drop_first()) == Seq::<String>::empty());
        match s.shard_id {
            Some(id) => {
                assert(spec_shard_ids(whole) =~= spec_shard_ids(shards).push(id));
            },
            None => {
                assert(spec_shard_ids(whole) =~= spec_shard_ids(shards));
            },
        }
    } else {
        assert(whole.drop_first() =~= shards.drop_first().push(s));
        lemma_spec_shard_ids_snoc(shards.drop_first(), s);
        assert(whole[0] == shards[0]);
        match s.shard_id {
            Some(id) => {
                assert(spec_shard_ids(whole) =~= spec_shard_ids(shards).push(id));
            },
            None => {
                assert(spec_shard_ids(whole) =~= spec_shard_ids(shards));
            },
        }
    }
}

/// Collects the identifiers of the given shards, keeping enumeration order
/// and skipping shards that report none.
pub fn shard_ids(shards: &Vec<Shard>) -> (r: Vec<String>)
    ensures
        r@ == spec_shard_ids(shards@),
{
    let mut out: Vec<String> = Vec::new();
    let n = shards.len();
    let mut i: usize = 0;
    while i < n
        invariant
            i <= n,
            n == shards@.len(),
            out@ == spec_shard_ids(shards@.take(i as int)),
        decreases n - i,
    {
        let ghost done = shards@.take(i as int);
        match &shards[i].shard_id {
            Some(id) => {
                out.push(id.clone());
            },
            None => {},
        }
        proof {
            assert(shards@.take(i + 1) =~= done.push(shards@[i as int]));
            lemma_spec_shard_ids_snoc(done, shards@[i as int]);
        }
        i = i + 1;
    }
    proof {
        assert(shards@.take(n as int) =~= shards@);
    }
    out
}

} // verus!
