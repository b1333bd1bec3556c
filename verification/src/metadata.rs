//! Transaction metadata: small string-to-string documents stored by
//! transaction id, validated for size (as JSON) and for well-formed keys
//! and values.

use vstd::prelude::*;

verus! {

/// Most bytes a metadata document may occupy in its JSON form.
pub const MAX_METADATA_SIZE: usize = 1024;

/// Why a metadata call was rejected.
#[derive(Clone, Copy, PartialEq, Eq, Structural, Debug)]
pub enum MetadataError {
    /// The metadata's JSON form exceeds `MAX_METADATA_SIZE` bytes.
    MetadataTooLarge,
    /// A metadata key or value is empty.
    EmptyKeyOrValue,
}

/// A metadata document: key/value pairs of strings.  Of two pairs with one
/// key the later wins, as in the JSON form.
#[derive(PartialEq, Debug)]
pub struct Metadata {
    pub data: Vec<(String, String)>,
}

/// The mathematical contents of a pair list: a map from key text to value
/// text, later pairs shadowing earlier ones.
pub open spec fn pairs_map(s: Seq<(String, String)>) -> Map<Seq<char>, Seq<char>>
    decreases s.len(),
{
    if s.len() == 0 {
        Map::empty()
    } else {
        pairs_map(s.drop_last()).insert(s.last().0@, s.last().1@)
    }
}

/// Whether two documents carry the same pairs, compared by text.
pub open spec fn metadata_like(a: Metadata, b: Metadata) -> bool {
    &&& b.data@.len() == a.data@.len()
    &&& forall|i: int|
        0 <= i < a.data@.len() ==> (#[trigger] b.data@[i]).0@ == a.data@[i].0@ && b.data@[i].1@
            == a.data@[i].1@
}

impl Clone for Metadata {
    fn clone(&self) -> (r: Self)
        ensures
            metadata_like(*self, r),
    {
        let n = self.data.len();
        let mut data: Vec<(String, String)> = Vec::new();
        let mut i: usize = 0;
        while i < n
            invariant
                0 <= i <= n,
                n == self.data@.len(),
                data@.len() == i,
                forall|j: int|
                    0 <= j < i ==> (#[trigger] data@[j]).0@ == self.data@[j].0@ && data@[j].1@
                        == self.data@[j].1@,
            decreases n - i,
        {
            let pair = (self.data[i].0.clone(), self.data[i].1.clone());
            data.push(pair);
            i = i + 1;
        }
        Metadata { data }
    }
}

/// The message asking the contract to store one document.
#[derive(Debug)]
pub struct StoreMetadataMsg {
    pub tx_id: String,
    pub metadata: Metadata,
}

impl Clone for StoreMetadataMsg {
    fn clone(&self) -> (r: Self)
        ensures
            r.tx_id == self.tx_id,
            metadata_like(self.metadata, r.metadata),
    {
        StoreMetadataMsg { tx_id: self.tx_id.clone(), metadata: self.metadata.clone() }
    }
}

/// The JSON document encoding a string-to-string map, as `serde_json`
/// writes it: an object with the keys in sorted order.  Its exact text
/// would take pages to state (escaping, ordering), and it depends on the
/// map alone, so it is named rather than spelled out.
pub uninterp spec fn json_object_bytes(entries: Map<Seq<char>, Seq<char>>) -> Seq<u8>;

/// Relies on `serde_json::to_vec` over a `serde_json::Map` (a `BTreeMap`
/// underneath, so the document depends only on which key maps to which
/// value), with `serde_json::Map::insert` resolving duplicate keys in favor
/// of the later pair, and `serde_json::Value::String` wrapping each value.
/// Serializing string-keyed string values cannot fail, per the
/// documentation of `serde_json::to_vec`.
#[verifier::external_body]
fn metadata_json_bytes(pairs: &Vec<(String, String)>) -> (r: Vec<u8>)
    ensures
        r@ == json_object_bytes(pairs_map(pairs@)),
{
    let mut map = serde_json::Map::new();
    for (k, v) in pairs.iter() {
        map.insert(k.clone(), serde_json::Value::String(v.clone()));
    }
    serde_json::to_vec(&map).expect("serializing a string map cannot fail")
}

/// The notification one stored document leaves: the transaction id and the
/// document's size in JSON bytes.
pub struct MetadataEvent {
    pub tx_id: String,
    pub size: usize,
}

/// Whether an event records storing the given transaction's document with
/// the given size.
pub open spec fn is_metadata_stored_event(e: MetadataEvent, tx_id: Seq<char>, size: int) -> bool {
    e.tx_id@ == tx_id && e.size == size
}

spec fn entries_map(s: Seq<(String, Metadata)>) -> Map<Seq<char>, Metadata>
    decreases s.len(),
{
    if s.len() == 0 {
        Map::empty()
    } else {
        entries_map(s.drop_last()).insert(s.last().0@, s.last().1)
    }
}

spec fn distinct_key_texts(s: Seq<(String, Metadata)>) -> bool {
    forall|i: int, j: int| 0 <= i < j < s.len() ==> s[i].0@ != s[j].0@
}

proof fn lemma_entries_contains(s: Seq<(String, Metadata)>, k: Seq<char>)
    ensures
        entries_map(s).contains_key(k) <==> exists|i: int| 0 <= i < s.len() && s[i].0@ == k,
    decreases s.len(),
{
    if s.len() > 0 {
        lemma_entries_contains(s.drop_last(), k);
        if s.last().0@ == k {
            assert(s[s.len() - 1].0@ == k);
        } else if entries_map(s).contains_key(k) {
            let i = choose|i: int| 0 <= i < s.drop_last().len() && s.drop_last()[i].0@ == k;
            assert(s[i].0@ == k);
        } else if exists|i: int| 0 <= i < s.len() && s[i].0@ == k {
            let i = choose|i: int| 0 <= i < s.len() && s[i].0@ == k;
            assert(s.drop_last()[i].0@ == k);
        }
    }
}

proof fn lemma_entries_index(s: Seq<(String, Metadata)>, i: int)
    requires
        distinct_key_texts(s),
        0 <= i < s.len(),
    ensures
        entries_map(s).contains_key(s[i].0@),
        entries_map(s)[s[i].0@] == s[i].1,
    decreases s.len(),
{
    if i < s.len() - 1 {
        lemma_entries_index(s.drop_last(), i);
        assert(s.drop_last()[i] == s[i]);
    }
}

proof fn lemma_entries_update(s: Seq<(String, Metadata)>, i: int, k: String, v: Metadata)
    requires
        distinct_key_texts(s),
        0 <= i < s.len(),
        k@ == s[i].0@,
    ensures
        entries_map(s.update(i, (k, v))) =~= entries_map(s).insert(s[i].0@, v),
        distinct_key_texts(s.update(i, (k, v))),
    decreases s.len(),
{
    let t = s.update(i, (k, v));
    assert forall|p: int, q: int| 0 <= p < q < t.len() implies t[p].0@ != t[q].0@ by {
        assert(s[p].0@ != s[q].0@);
    }
    if i == s.len() - 1 {
        assert(t.drop_last() =~= s.drop_last());
    } else {
        lemma_entries_update(s.drop_last(), i, k, v);
        assert(t.drop_last() =~= s.drop_last().update(i, (k, v)));
        assert(s.drop_last()[i] == s[i]);
        assert(s.last().0@ != s[i].0@);
    }
}

proof fn lemma_entries_push(s: Seq<(String, Metadata)>, k: String, v: Metadata)
    requires
        distinct_key_texts(s),
        forall|i: int| 0 <= i < s.len() ==> s[i].0@ != k@,
    ensures
        entries_map(s.push((k, v))) =~= entries_map(s).insert(k@, v),
        distinct_key_texts(s.push((k, v))),
{
    assert(s.push((k, v)).drop_last() =~= s);
}

/// The metadata contract's state: documents by transaction id, plus the
/// emitted notifications.
pub struct MetadataContract {
    metadata_storage: Vec<(String, Metadata)>,
    events: Vec<MetadataEvent>,
}

impl Default for MetadataContract {
    /// A contract holding no documents and no events.
    fn default() -> (r: Self)
        ensures
            r.wf(),
            r.storage() == Map::<Seq<char>, Metadata>::empty(),
            r.event_log_len() == 0,
    {
        MetadataContract { metadata_storage: Vec::new(), events: Vec::new() }
    }
}

impl MetadataContract {
    /// The stored documents, by transaction id text.
    pub closed spec fn storage(&self) -> Map<Seq<char>, Metadata> {
        entries_map(self.metadata_storage@)
    }

    /// The notifications emitted so far, oldest first.
    pub closed spec fn event_log(&self) -> Seq<MetadataEvent> {
        self.events@
    }

    /// How many notifications have been emitted.
    pub open spec fn event_log_len(&self) -> int {
        self.event_log().len() as int
    }

    /// Validity of the state: one stored document per transaction id.
    pub closed spec fn wf(&self) -> bool {
        distinct_key_texts(self.metadata_storage@)
    }

    /// Validates and stores one document.  The document's JSON form must fit
    /// `MAX_METADATA_SIZE` bytes and every key and value must be non-empty;
    /// a rejected message changes nothing.  Storing replaces any document
    /// under the same transaction id and notifies the event log with the
    /// document's JSON size.
    pub fn store_metadata(&mut self, msg: StoreMetadataMsg) -> (r: Result<(), MetadataError>)
        requires
            old(self).wf(),
        ensures
            final(self).wf(),
            ({
                let doc = json_object_bytes(pairs_map(msg.metadata.data@));
                let too_large = doc.len() > MAX_METADATA_SIZE;
                let bad_pair = exists|i: int|
                    0 <= i < msg.metadata.data@.len() && ((#[trigger] msg.metadata.data@[i]).0@.len()
                        == 0 || msg.metadata.data@[i].1@.len() == 0);
                &&& (r == Err::<(), MetadataError>(MetadataError::MetadataTooLarge) <==> too_large)
                &&& (r == Err::<(), MetadataError>(MetadataError::EmptyKeyOrValue) <==> !too_large
                    && bad_pair)
                &&& r is Err ==> *final(self) == *old(self)
                &&& r is Ok ==> {
                    &&& final(self).storage() == old(self).storage().insert(
                        msg.tx_id@,
                        msg.metadata,
                    )
                    &&& final(self).event_log().len() == old(self).event_log().len() + 1
                    &&& final(self).event_log().drop_last() == old(self).event_log()
                    &&& is_metadata_stored_event(
                        final(self).event_log().last(),
                        msg.tx_id@,
                        doc.len() as int,
                    )
                }
            }),
    {
        let serialized = metadata_json_bytes(&msg.metadata.data);
        if serialized.len() > MAX_METADATA_SIZE {
            return Err(MetadataError::MetadataTooLarge);
        }

        let pair_count = msg.metadata.data.len();
        let mut i: usize = 0;
        while i < pair_count
            invariant
                0 <= i <= pair_count,
                pair_count == msg.metadata.data@.len(),
                *self == *old(self),
                old(self).wf(),
                serialized@ == json_object_bytes(pairs_map(msg.metadata.data@)),
                serialized@.len() <= MAX_METADATA_SIZE,
                forall|j: int|
                    0 <= j < i ==> (#[trigger] msg.metadata.data@[j]).0@.len() > 0
                        && msg.metadata.data@[j].1@.len() > 0,
            decreases pair_count - i,
        {
            let pair = &msg.metadata.data[i];
            if pair.0.as_str().is_empty() || pair.1.as_str().is_empty() {
                return Err(MetadataError::EmptyKeyOrValue);
            }
            i = i + 1;
        }

        let size = serialized.len();
        let StoreMetadataMsg { tx_id, metadata } = msg;
        let event_tx = tx_id.clone();
        self.storage_set(tx_id, metadata);
        self.events.push(MetadataEvent { tx_id: event_tx, size });
        proof {
            assert(self.events@.drop_last() =~= old(self).events@);
        }
        Ok(())
    }


    /// Stores the document under the transaction id, replacing any previous
    /// one.
    fn storage_set(&mut self, tx_id: String, metadata: Metadata)
        requires
            old(self).wf(),
        ensures
            final(self).wf(),
            final(self).storage() == old(self).storage().insert(tx_id@, metadata),
            final(self).event_log() == old(self).event_log(),
    {
        let n = self.metadata_storage.len();
        let mut k: usize = 0;
        while k < n
            invariant
                0 <= k <= n,
                n == self.metadata_storage@.len(),
                distinct_key_texts(self.metadata_storage@),
                *self == *old(self),
                forall|j: int| 0 <= j < k ==> self.metadata_storage@[j].0@ != tx_id@,
            decreases n - k,
        {
            if self.metadata_storage[k].0 == tx_id {
                proof {
                    lemma_entries_update(self.metadata_storage@, k as int, tx_id, metadata);
                }
                self.metadata_storage.set(k, (tx_id, metadata));
                return ;
            }
            k = k + 1;
        }
        proof {
            lemma_entries_push(self.metadata_storage@, tx_id, metadata);
        }
        self.metadata_storage.push((tx_id, metadata));
    }

    /// The document stored under the transaction id, if any; the returned
    /// document carries the stored pairs.
    pub fn get_metadata(&self, tx_id: String) -> (r: Option<Metadata>)
        requires
            self.wf(),
        ensures
            r is Some <==> self.storage().contains_key(tx_id@),
            r is Some ==> metadata_like(self.storage()[tx_id@], r->0),
    {
        let n = self.metadata_storage.len();
        let mut i: usize = 0;
        while i < n
            invariant
                0 <= i <= n,
                n == self.metadata_storage@.len(),
                distinct_key_texts(self.metadata_storage@),
                self.storage() == entries_map(self.metadata_storage@),
                forall|j: int| 0 <= j < i ==> self.metadata_storage@[j].0@ != tx_id@,
            decreases n - i,
        {
            if self.metadata_storage[i].0 == tx_id {
                proof {
                    lemma_entries_index(self.metadata_storage@, i as int);
                }
                return Some(self.metadata_storage[i].1.clone());
            }
            i = i + 1;
        }
        proof {
            lemma_entries_contains(self.metadata_storage@, tx_id@);
        }
        None
    }
}

} // verus!
