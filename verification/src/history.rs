//! The bounded translation history.
//!
//! The history is one JSON document per directory; this module holds its
//! full in-memory model — a [`HistoryStore`] is the content of that
//! directory, `None` standing for "no document file yet" — and the verified
//! operations on it: append with first-in-first-out eviction beyond the
//! capacity, newest-first loading, clearing and statistics. Reading and
//! writing the actual file, and the JSON encoding, happen outside the
//! library; the single-writer discipline (one lock around every operation)
//! is the caller's duty as well.
//!
//! Record ids must not collide even within one second, so an id is the
//! decimal timestamp joined to a random suffix drawn from a freshly
//! generated UUID.

use vstd::prelude::*;
use vstd::seq_lib::group_to_multiset_ensures;
use crate::text::{spec_decimal, u64_to_decimal};

verus! {

/// The largest number of records a history document may hold; an append
/// beyond it evicts the oldest-inserted record.
pub const HISTORY_CAPACITY: usize = 1000;

/// One completed translation, immutable once created.
pub struct TranslationHistory {
    pub id: String,
    pub timestamp: u64,
    pub source_text: String,
    pub translated_text: String,
    pub from_language: String,
    pub to_language: String,
    pub engine: String,
    pub latency_ms: Option<u32>,
}

impl TranslationHistory {
    /// A field-for-field copy.
    pub fn duplicate(&self) -> (r: Self)
        ensures
            r == *self,
    {
        TranslationHistory {
            id: self.id.clone(),
            timestamp: self.timestamp,
            source_text: self.source_text.clone(),
            translated_text: self.translated_text.clone(),
            from_language: self.from_language.clone(),
            to_language: self.to_language.clone(),
            engine: self.engine.clone(),
            latency_ms: self.latency_ms,
        }
    }
}

/// The persisted document: a version tag, the time of the first-ever write,
/// the time of the latest write, and the records in insertion order.
pub struct HistoryFile {
    pub version: String,
    pub created_at: u64,
    pub updated_at: u64,
    pub translations: Vec<TranslationHistory>,
}

impl HistoryFile {
    pub open spec fn wf(self) -> bool {
        self.translations@.len() <= HISTORY_CAPACITY
    }
}

/// The in-memory model of one history directory: `None` while no document
/// file exists.
pub struct HistoryStore {
    pub document: Option<HistoryFile>,
}

/// The records of `pre`'s document, or the empty sequence while none exists.
pub open spec fn spec_stored_records(pre: HistoryStore) -> Seq<TranslationHistory> {
    match pre.document {
        Some(d) => d.translations@,
        None => Seq::empty(),
    }
}

/// Appending to a full document evicts the oldest-inserted record; the new
/// record always goes to the end.
pub open spec fn spec_appended(
    records: Seq<TranslationHistory>,
    rec: TranslationHistory,
) -> Seq<TranslationHistory> {
    if records.len() < HISTORY_CAPACITY {
        records.push(rec)
    } else {
        records.skip(1).push(rec)
    }
}

/// How one append changes the store: the record lands at the end (evicting
/// the oldest-inserted record if the document was full), the update time is
/// refreshed, and the creation time and version are set once, at the
/// first-ever write, and preserved afterwards.
pub open spec fn spec_append_transition(
    pre: HistoryStore,
    post: HistoryStore,
    rec: TranslationHistory,
    timestamp: u64,
) -> bool {
    &&& post.document matches Some(d) && {
        &&& d.translations@ == spec_appended(spec_stored_records(pre), rec)
        &&& d.updated_at == timestamp
        &&& match pre.document {
            Some(old_doc) => d.created_at == old_doc.created_at && d.version@ == old_doc.version@,
            None => d.created_at == timestamp && d.version@ == "1.0"@,
        }
    }
}

/// The id of a record appended at `timestamp` with the given random
/// suffix source: the decimal timestamp, an underscore, and the suffix's
/// first eight characters.
pub open spec fn spec_history_id(timestamp: u64, suffix: Seq<char>) -> Seq<char> {
    spec_decimal(timestamp as int) + "_"@ + suffix.take(8)
}

/// Build a record id from a timestamp and a random suffix source.
pub fn make_history_id(timestamp: u64, suffix: &str) -> (id: String)
    requires
        suffix@.len() >= 8,
    ensures
        id@ == spec_history_id(timestamp, suffix@),
{
    let mut id = u64_to_decimal(timestamp);
    id.append("_");
    id.append(suffix.substring_char(0, 8));
    id
}

/// Relies on `uuid::Uuid::new_v4` and the `Display` rendering of `Uuid`:
/// a fresh random (version 4) UUID rendered in its hyphenated form, which
/// is exactly 36 ASCII characters. Nothing else can be promised of a random
/// value.
#[verifier::external_body]
fn fresh_uuid_string() -> (r: String)
    ensures
        r@.len() == 36,
{
    uuid::Uuid::new_v4().to_string()
}

/// Relies on `std::time::SystemTime::now` and
/// `duration_since(UNIX_EPOCH)`: the current wall-clock time in whole
/// seconds since the Unix epoch, or zero if the clock reads before the
/// epoch. No more can be promised of a clock reading.
#[verifier::external_body]
fn unix_time_seconds() -> (r: u64)
    ensures
        r >= 0,
{
    match std::time::SystemTime::now().duration_since(std::time::UNIX_EPOCH) {
        Ok(d) => d.as_secs(),
        Err(_) => 0,
    }
}

impl HistoryStore {
    pub open spec fn wf(self) -> bool {
        self.document matches Some(d) ==> d.wf()
    }

    /// A store whose directory holds no document yet.
    pub fn new() -> (s: Self)
        ensures
            s.document is None,
            s.wf(),
    {
        HistoryStore { document: None }
    }

    /// Append a record created from the given fields at the given time,
    /// drawing the id's random suffix from `suffix`. Returns the new id.
    pub fn append_at(
        &mut self,
        source_text: String,
        translated_text: String,
        from_language: String,
        to_language: String,
        engine: String,
        latency_ms: Option<u32>,
        timestamp: u64,
        suffix: &str,
    ) -> (id: String)
        requires
            old(self).wf(),
            suffix@.len() >= 8,
        ensures
            final(self).wf(),
            id@ == spec_history_id(timestamp, suffix@),
            spec_append_transition(
                *old(self),
                *final(self),
                (TranslationHistory {
                    id: id,
                    timestamp: timestamp,
                    source_text: source_text,
                    translated_text: translated_text,
                    from_language: from_language,
                    to_language: to_language,
                    engine: engine,
                    latency_ms: latency_ms,
                }),
                timestamp,
            ),
    {
        let id = make_history_id(timestamp, suffix);
        let rec = TranslationHistory {
            id: id.clone(),
            timestamp,
            source_text,
            translated_text,
            from_language,
            to_language,
            engine,
            latency_ms,
        };
        let mut doc = match self.document.take() {
            Some(d) => d,
            None => HistoryFile {
                version: "1.0".to_owned(),
                created_at: timestamp,
                updated_at: timestamp,
                translations: Vec::new(),
            },
        };
        let ghost old_records = doc.translations@;
        if doc.translations.len() >= HISTORY_CAPACITY {
            doc.translations.remove(0);
            proof {
                assert(old_records.remove(0) =~= old_records.skip(1));
            }
        }
        doc.translations.push(rec);
        doc.updated_at = timestamp;
        self.document = Some(doc);
        id
    }

    /// Append a record created from the given fields now: the timestamp is
    /// the current wall-clock second and the id's suffix comes from a fresh
    /// random UUID, so some such timestamp and suffix exist for the result.
    pub fn append(
        &mut self,
        source_text: String,
        translated_text: String,
        from_language: String,
        to_language: String,
        engine: String,
        latency_ms: Option<u32>,
    ) -> (id: String)
        requires
            old(self).wf(),
        ensures
            final(self).wf(),
            exists|timestamp: u64, suffix: Seq<char>|
                {
                    &&& #[trigger] spec_history_id(timestamp, suffix) == id@
                    &&& suffix.len() >= 8
                    &&& spec_append_transition(
                        *old(self),
                        *final(self),
                        (TranslationHistory {
                            id: id,
                            timestamp: timestamp,
                            source_text: source_text,
                            translated_text: translated_text,
                            from_language: from_language,
                            to_language: to_language,
                            engine: engine,
                            latency_ms: latency_ms,
                        }),
                        timestamp,
                    )
                },
    {
        let timestamp = unix_time_seconds();
        let suffix = fresh_uuid_string();
        let id = self.append_at(
            source_text,
            translated_text,
            from_language,
            to_language,
            engine,
            latency_ms,
            timestamp,
            suffix.as_str(),
        );
        proof {
            assert(spec_history_id(timestamp, suffix@) == id@);
        }
        id
    }

    /// Forget the document, as deleting its file does. Deleting when no
    /// document exists is equally fine: the operation is total and cannot
    /// fail.
    pub fn clear(&mut self)
        ensures
            final(self).document is None,
            final(self).wf(),
    {
        self.document = None;
    }

    /// The document's statistics: zeroed/absent fields while no document
    /// exists.
    pub fn stats(&self) -> (s: HistoryStats)
        ensures
            self.document is None ==> {
                &&& s.total_translations == 0
                &&& s.created_at is None
                &&& s.updated_at is None
                &&& s.version is None
            },
            self.document matches Some(d) ==> {
                &&& s.total_translations == d.translations@.len()
                &&& s.created_at == Some(d.created_at)
                &&& s.updated_at == Some(d.updated_at)
                &&& s.version matches Some(v) && v@ == d.version@
            },
    {
        match &self.document {
            Some(d) => HistoryStats {
                total_translations: d.translations.len(),
                created_at: Some(d.created_at),
                updated_at: Some(d.updated_at),
                version: Some(d.version.clone()),
            },
            None => HistoryStats {
                total_translations: 0,
                created_at: None,
                updated_at: None,
                version: None,
            },
        }
    }

    /// The records for presentation: sorted newest-timestamp-first (a
    /// transform distinct from the stored insertion order), truncated to
    /// `limit` when one is given. No document means no records, not an
    /// error.
    pub fn load(&self, limit: Option<usize>) -> (records: Vec<TranslationHistory>)
        ensures
            self.document is None ==> records@ == Seq::<TranslationHistory>::empty(),
            self.document matches Some(d) ==> {
                let wanted = match limit {
                    Some(l) => if l < d.translations@.len() {
                        l as int
                    } else {
                        d.translations@.len() as int
                    },
                    None => d.translations@.len() as int,
                };
                exists|full: Seq<TranslationHistory>|
                    {
                        &&& #[trigger] full.to_multiset() == d.translations@.to_multiset()
                        &&& sorted_newest_first(full)
                        &&& records@ == full.take(wanted)
                    }
            },
    {
        match &self.document {
            Some(d) => {
                let mut sorted = sort_by_timestamp_desc(&d.translations);
                let ghost full = sorted@;
                if let Some(l) = limit {
                    sorted.truncate(l);
                    proof {
                        if l >= full.len() {
                            assert(full.take(full.len() as int) =~= full);
                        }
                    }
                } else {
                    proof {
                        assert(full.take(full.len() as int) =~= full);
                    }
                }
                sorted
            },
            None => Vec::new(),
        }
    }
}

/// Law: appending to a full document keeps exactly the capacity and evicts
/// the record that was inserted first — position, not timestamp, decides —
/// while the others keep their order and the new record lands at the end.
pub proof fn lemma_full_append_evicts_first_inserted(
    records: Seq<TranslationHistory>,
    rec: TranslationHistory,
)
    requires
        records.len() == HISTORY_CAPACITY,
    ensures
        spec_appended(records, rec).len() == HISTORY_CAPACITY,
        spec_appended(records, rec).last() == rec,
        forall|i: int| 1 <= i < records.len() ==> spec_appended(records, rec)[i - 1]
            == #[trigger] records[i],
{
}

/// Law: below the capacity nothing is evicted: the append only adds the new
/// record at the end.
pub proof fn lemma_append_below_capacity_keeps_all(
    records: Seq<TranslationHistory>,
    rec: TranslationHistory,
)
    requires
        records.len() < HISTORY_CAPACITY,
    ensures
        spec_appended(records, rec).len() == records.len() + 1,
        spec_appended(records, rec).last() == rec,
        forall|i: int| 0 <= i < records.len() ==> spec_appended(records, rec)[i]
            == #[trigger] records[i],
{
}

/// The statistics reported for a history directory.
pub struct HistoryStats {
    pub total_translations: usize,
    pub created_at: Option<u64>,
    pub updated_at: Option<u64>,
    pub version: Option<String>,
}

/// Newest first: timestamps never increase along the sequence.
pub open spec fn sorted_newest_first(s: Seq<TranslationHistory>) -> bool {
    forall|a: int, b: int|
        0 <= a < b < s.len() ==> #[trigger] s[a].timestamp >= #[trigger] s[b].timestamp
}

/// Insert a record into a newest-first sequence, keeping it newest-first.
fn sorted_insert(out: &mut Vec<TranslationHistory>, rec: TranslationHistory)
    requires
        sorted_newest_first(old(out)@),
    ensures
        sorted_newest_first(final(out)@),
        final(out)@.to_multiset() == old(out)@.to_multiset().insert(rec),
        final(out)@.len() == old(out)@.len() + 1,
{
    broadcast use group_to_multiset_ensures;
    broadcast use vstd::seq_lib::to_multiset_insert;

    let mut k: usize = 0;
    while k < out.len() && out[k].timestamp >= rec.timestamp
        invariant
            0 <= k <= out@.len(),
            forall|j: int| 0 <= j < k ==> #[trigger] out@[j].timestamp >= rec.timestamp,
        decreases out@.len() - k,
    {
        k += 1;
    }
    let ghost pre = out@;
    out.insert(k, rec);
    proof {
        assert(sorted_newest_first(out@)) by {
            assert forall|a: int, b: int|
                0 <= a < b < out@.len() implies #[trigger] out@[a].timestamp
                >= #[trigger] out@[b].timestamp by {
                if a < k && b == k {
                    assert(out@[a] == pre[a]);
                } else if a == k && b > k {
                    assert(out@[b] == pre[b - 1]);
                    if k < pre.len() {
                        assert(pre[k as int].timestamp < rec.timestamp);
                        assert(pre[b - 1].timestamp <= pre[k as int].timestamp);
                    }
                } else if a < k && b > k {
                    assert(out@[a] == pre[a] && out@[b] == pre[b - 1]);
                } else if b < k {
                    assert(out@[a] == pre[a] && out@[b] == pre[b]);
                } else if a > k {
                    assert(out@[a] == pre[a - 1] && out@[b] == pre[b - 1]);
                }
            }
        }
    }
}

/// A newest-first copy of the records.
pub fn sort_by_timestamp_desc(records: &Vec<TranslationHistory>) -> (sorted: Vec<
    TranslationHistory,
>)
    ensures
        sorted_newest_first(sorted@),
        sorted@.to_multiset() == records@.to_multiset(),
        sorted@.len() == records@.len(),
{
    broadcast use group_to_multiset_ensures;

    let mut sorted: Vec<TranslationHistory> = Vec::new();
    let mut i: usize = 0;
    while i < records.len()
        invariant
            0 <= i <= records@.len(),
            sorted_newest_first(sorted@),
            sorted@.to_multiset() == records@.take(i as int).to_multiset(),
            sorted@.len() == i,
        decreases records@.len() - i,
    {
        sorted_insert(&mut sorted, records[i].duplicate());
        proof {
            vstd::seq_lib::to_multiset_build(records@.take(i as int), records@[i as int]);
            assert(records@.take(i as int).push(records@[i as int]) =~= records@.take(i + 1));
        }
        i += 1;
    }
    proof {
        assert(records@.take(records@.len() as int) =~= records@);
    }
    sorted
}

} // verus!
