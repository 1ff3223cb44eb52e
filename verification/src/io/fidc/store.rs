//! The cache store: the table from content digest to file reference id.
//!
//! The store is the table as one invocation of the client holds it. Its
//! backing table has to be set up, by [`CacheStore::initialize`], before an
//! entry can be written; until then every lookup misses.

use crate::io::fidc::digest::ContentDigest;
use crate::operations::{ErrorKind, OperationError};
use vstd::prelude::*;

verus! {

/// The message of the error that a write to a store without a table gives.
pub const NOT_INITIALIZED: &'static str = "The file id cache has not been initialized.";

/// The token by which the messaging API knows a file that was uploaded.
#[derive(Debug)]
pub struct FileReferenceId {
    token: String,
}

impl View for FileReferenceId {
    type V = Seq<char>;

    closed spec fn view(&self) -> Seq<char> {
        self.token@
    }
}

impl Clone for FileReferenceId {
    fn clone(&self) -> (copy: Self)
        ensures
            copy@ == self@,
    {
        FileReferenceId { token: self.token.clone() }
    }
}

impl FileReferenceId {
    /// The reference id with the given token.
    pub fn new(token: &str) -> (id: Self)
        ensures
            id@ == token@,
    {
        FileReferenceId { token: token.to_owned() }
    }

    /// The token.
    pub fn as_str(&self) -> (token: &str)
        ensures
            token@ == self@,
    {
        self.token.as_str()
    }
}

/// What the table holds for one digest.
pub struct Stored {
    /// The token of the file reference id.
    pub reference_id: Seq<char>,
    /// When the entry was written.
    pub stamp: u64,
}

/// One row of the table.
#[derive(Debug)]
pub struct CacheEntry {
    digest: ContentDigest,
    reference_id: FileReferenceId,
    stamp: u64,
}

impl CacheEntry {
    /// The digest that the entry is for.
    pub closed spec fn key(&self) -> ContentDigest {
        self.digest
    }

    /// What the entry holds for its digest.
    pub closed spec fn stored(&self) -> Stored {
        Stored { reference_id: self.reference_id@, stamp: self.stamp }
    }

    /// The digest that the entry is for.
    pub fn digest(&self) -> (digest: ContentDigest)
        ensures
            digest == self.key(),
    {
        self.digest
    }

    /// The file reference id.
    pub fn reference_id(&self) -> (id: &FileReferenceId)
        ensures
            id@ == self.stored().reference_id,
    {
        &self.reference_id
    }

    /// When the entry was written.
    pub fn stamp(&self) -> (stamp: u64)
        ensures
            stamp == self.stored().stamp,
    {
        self.stamp
    }
}

/// The mathematical value of a [`CacheStore`].
pub struct StoreModel {
    /// Whether the backing table has been set up.
    pub ready: bool,
    /// The entries, by digest.
    pub table: Map<ContentDigest, Stored>,
}

impl StoreModel {
    /// The store before its table is set up.
    pub open spec fn closed() -> StoreModel {
        StoreModel { ready: false, table: Map::empty() }
    }

    /// The store after its table is set up: what it held, it holds.
    pub open spec fn initialize(self) -> StoreModel {
        StoreModel { ready: true, table: self.table }
    }

    /// The store after the entry for `digest` is written. Without a table
    /// nothing is written.
    pub open spec fn upsert(self, digest: ContentDigest, reference_id: Seq<char>, stamp: u64) -> StoreModel {
        if self.ready {
            StoreModel { ready: true, table: self.table.insert(digest, Stored { reference_id, stamp }) }
        } else {
            self
        }
    }

    /// The entry for `digest`, where the store has a table and the table
    /// has one.
    pub open spec fn entry(self, digest: ContentDigest) -> Option<Stored> {
        if self.ready && self.table.contains_key(digest) {
            Some(self.table[digest])
        } else {
            None
        }
    }

    /// The file reference id that is stored for `digest`.
    pub open spec fn lookup(self, digest: ContentDigest) -> Option<Seq<char>> {
        match self.entry(digest) {
            Some(stored) => Some(stored.reference_id),
            None => None,
        }
    }
}

/// Whether `entries` has a row for `digest`.
spec fn has_row(entries: Seq<CacheEntry>, digest: ContentDigest) -> bool {
    exists|i: int| 0 <= i < entries.len() && #[trigger] entries[i].key() == digest
}

/// The index of a row for `digest`.
spec fn row_of(entries: Seq<CacheEntry>, digest: ContentDigest) -> int {
    choose|i: int| 0 <= i < entries.len() && #[trigger] entries[i].key() == digest
}

/// No digest has two rows.
spec fn distinct_keys(entries: Seq<CacheEntry>) -> bool {
    forall|i: int, j: int|
        0 <= i < j < entries.len() ==> #[trigger] entries[i].key() != #[trigger] entries[j].key()
}

/// The table that the rows make up.
spec fn table_of(entries: Seq<CacheEntry>) -> Map<ContentDigest, Stored> {
    Map::new(
        |digest: ContentDigest| has_row(entries, digest),
        |digest: ContentDigest| entries[row_of(entries, digest)].stored(),
    )
}

/// The table from content digest to file reference id.
#[derive(Debug)]
pub struct CacheStore {
    ready: bool,
    entries: Vec<CacheEntry>,
}

impl View for CacheStore {
    type V = StoreModel;

    closed spec fn view(&self) -> StoreModel {
        StoreModel { ready: self.ready, table: table_of(self.entries@) }
    }
}

impl CacheStore {
    #[verifier::type_invariant]
    spec fn well_formed(self) -> bool {
        distinct_keys(self.entries@)
    }

    /// A store without a table.
    pub fn new() -> (store: CacheStore)
        ensures
            store@ == StoreModel::closed(),
    {
        let store = CacheStore { ready: false, entries: Vec::new() };
        assert(store@.table =~= Map::empty());
        store
    }

    /// Sets up the backing table unless it is there. What the store holds
    /// stays as it is.
    pub fn initialize(&mut self) -> (outcome: Result<(), OperationError>)
        ensures
            outcome is Ok,
            final(self)@ == old(self)@.initialize(),
    {
        proof {
            use_type_invariant(&*self);
        }
        self.ready = true;
        Ok(())
    }

    /// The index of the row for `digest`, or the number of rows where there
    /// is none.
    fn find(&self, digest: ContentDigest) -> (at: usize)
        ensures
            at <= self.entries@.len(),
            at < self.entries@.len() ==> self.entries@[at as int].key() == digest,
            at == self.entries@.len() ==> !has_row(self.entries@, digest),
    {
        let mut i: usize = 0;
        while i < self.entries.len()
            invariant
                i <= self.entries@.len(),
                forall|j: int| 0 <= j < i ==> #[trigger] self.entries@[j].key() != digest,
            decreases self.entries.len() - i,
        {
            if self.entries[i].digest == digest {
                return i;
            }
            i += 1;
        }
        i
    }

    /// The entry for `digest`, where the store has a table and the table
    /// has one.
    pub fn entry(&self, digest: ContentDigest) -> (found: Option<&CacheEntry>)
        ensures
            match found {
                Some(entry) => self@.entry(digest) == Some(entry.stored()) && entry.key() == digest,
                None => self@.entry(digest) is None,
            },
    {
        proof {
            use_type_invariant(self);
        }
        if !self.ready {
            return None;
        }
        let at = self.find(digest);
        if at < self.entries.len() {
            Some(&self.entries[at])
        } else {
            None
        }
    }

    /// The file reference id that is stored for `digest`. A digest that was
    /// never written, and any digest while the store has no table, gives
    /// `None`.
    pub fn lookup(&self, digest: ContentDigest) -> (found: Option<FileReferenceId>)
        ensures
            match found {
                Some(id) => self@.lookup(digest) == Some(id@),
                None => self@.lookup(digest) is None,
            },
    {
        match self.entry(digest) {
            Some(entry) => Some(entry.reference_id.clone()),
            None => None,
        }
    }

    /// Writes the entry for `digest`, in place of the one that was there if
    /// there was one. Without a table nothing is written, and the error
    /// says so.
    pub fn upsert(&mut self, digest: ContentDigest, reference_id: FileReferenceId, stamp: u64) -> (outcome:
        Result<(), OperationError>)
        ensures
            outcome is Ok <==> old(self)@.ready,
            final(self)@ == old(self)@.upsert(digest, reference_id@, stamp),
            outcome matches Err(error) ==> error@.kind == ErrorKind::StoreWrite && error@.message
                == NOT_INITIALIZED@,
    {
        proof {
            use_type_invariant(&*self);
        }
        if !self.ready {
            return Err(OperationError::new(ErrorKind::StoreWrite, NOT_INITIALIZED));
        }
        let at = self.find(digest);
        let entry = CacheEntry { digest, reference_id, stamp };
        let mut entries = Vec::new();
        std::mem::swap(&mut entries, &mut self.entries);
        let ghost before = entries@;
        if at < entries.len() {
            entries.set(at, entry);
        } else {
            entries.push(entry);
        }
        proof {
            let after = entries@;
            assert(distinct_keys(after));
            assert forall|d: ContentDigest| has_row(after, d) <==> (d == digest || has_row(before, d)) by {
                if has_row(after, d) {
                    let i = row_of(after, d);
                    if i != at {
                        assert(before[i].key() == d);
                    }
                }
                if d == digest {
                    assert(after[at as int].key() == d);
                }
                if has_row(before, d) {
                    let i = row_of(before, d);
                    assert(after[i].key() == d);
                }
            }
            assert(table_of(after) =~= table_of(before).insert(digest, entry.stored())) by {
                assert forall|d: ContentDigest| has_row(after, d) implies #[trigger] table_of(after)[d]
                    == table_of(before).insert(digest, entry.stored())[d] by {
                    let i = row_of(after, d);
                    if d == digest {
                        assert(after[at as int].key() == d);
                    } else {
                        let j = row_of(before, d);
                        assert(before[i].key() == d);
                    }
                }
            }
        }
        self.entries = entries;
        Ok(())
    }
}

/// A step in the life of a store.
pub enum StoreOp {
    /// The backing table is set up.
    Initialize,
    /// An entry is written.
    Upsert { digest: ContentDigest, reference_id: Seq<char>, stamp: u64 },
}

impl StoreModel {
    /// The store after one step.
    pub open spec fn apply(self, op: StoreOp) -> StoreModel {
        match op {
            StoreOp::Initialize => self.initialize(),
            StoreOp::Upsert { digest, reference_id, stamp } => self.upsert(digest, reference_id, stamp),
        }
    }

    /// The store after the steps `ops`, first to last.
    pub open spec fn replay(self, ops: Seq<StoreOp>) -> StoreModel
        decreases ops.len(),
    {
        if ops.len() == 0 {
            self
        } else {
            self.replay(ops.drop_last()).apply(ops.last())
        }
    }
}

/// An upsert into a store that has its table, followed by a lookup of the
/// same digest, gives the reference id that was just written. A store that
/// has just been initialized is such a store; into one without a table
/// nothing goes, and the lookup misses.
pub proof fn lemma_lookup_after_upsert(
    store: StoreModel,
    digest: ContentDigest,
    reference_id: Seq<char>,
    stamp: u64,
)
    ensures
        store.ready ==> store.upsert(digest, reference_id, stamp).lookup(digest) == Some(reference_id),
        store.initialize().upsert(digest, reference_id, stamp).lookup(digest) == Some(reference_id),
        !store.ready ==> store.upsert(digest, reference_id, stamp).lookup(digest) is None,
{
}

/// An upsert leaves the entries of all other digests as they were.
pub proof fn lemma_upsert_keeps_others(
    store: StoreModel,
    digest: ContentDigest,
    reference_id: Seq<char>,
    stamp: u64,
    other: ContentDigest,
)
    requires
        other != digest,
    ensures
        store.upsert(digest, reference_id, stamp).entry(other) == store.entry(other),
{
}

/// A digest that no step has written is not found, whatever the steps
/// were since the store was made.
pub proof fn lemma_lookup_never_written(ops: Seq<StoreOp>, digest: ContentDigest)
    requires
        forall|i: int| 0 <= i < ops.len() ==> !(#[trigger] ops[i] matches StoreOp::Upsert { digest: d, .. } && d == digest),
    ensures
        StoreModel::closed().replay(ops).lookup(digest) is None,
        !StoreModel::closed().replay(ops).table.contains_key(digest),
    decreases ops.len(),
{
    if ops.len() > 0 {
        let earlier = ops.drop_last();
        assert forall|i: int| 0 <= i < earlier.len() implies !(#[trigger] earlier[i] matches StoreOp::Upsert {
            digest: d,
            ..
        } && d == digest) by {
            assert(earlier[i] == ops[i]);
        }
        lemma_lookup_never_written(earlier, digest);
        assert(ops.last() == ops[ops.len() - 1]);
    }
}

/// Setting up the table twice is setting it up once, and what the store
/// held before it holds after.
pub proof fn lemma_initialize_idempotent(store: StoreModel)
    ensures
        store.initialize().initialize() == store.initialize(),
        store.initialize().table == store.table,
        store.ready ==> store.initialize() == store,
{
}

} // verus!
