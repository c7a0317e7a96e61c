//! The records that the store keeps, and the pool's bookkeeping record.

use vstd::prelude::*;
use serde_json::Value;
use std::collections::HashMap;
use vstd::utf8::encode_utf8;
use crate::ids::{fresh_id_text, is_hyphenated};
use crate::text::count_lines;
use crate::text::line_count;
use crate::time::{utc_now, Timestamp};

verus! {

/// `serde_json::Value`: any JSON value. Nothing is known of a value of this
/// type; it is stored, copied and handed out.
#[verifier::external_type_specification]
#[verifier::external_body]
pub struct ExValue(serde_json::Value);

/// A copy of a JSON value by `serde_json::Value::clone`, which copies the
/// whole tree: the copy is the same value.
#[verifier::external_body]
pub(crate) fn clone_json(value: &Value) -> (copy: Value)
    ensures
        copy == *value,
{
    value.clone()
}

/// The JSON number `n`, by `serde_json::Value::from`. Nothing is claimed of
/// the value.
#[verifier::external_body]
pub(crate) fn json_number(n: u64) -> Value {
    Value::from(n)
}

/// The JSON string that holds `text`, by `serde_json::Value::from`. Nothing
/// is claimed of the value.
#[verifier::external_body]
pub(crate) fn json_string(text: &str) -> Value {
    Value::from(text)
}

/// The map that a list of metadata entries stands for: each key goes to the
/// value of its last entry.
pub open spec fn entries_map(entries: Seq<(String, Value)>) -> Map<Seq<char>, Value>
    decreases entries.len(),
{
    if entries.len() == 0 {
        Map::empty()
    } else {
        entries_map(entries.drop_last()).insert(entries.last().0@, entries.last().1)
    }
}

/// A key that no entry carries is not in the map.
pub proof fn lemma_absent_key(entries: Seq<(String, Value)>, key: Seq<char>)
    requires
        forall|i: int| 0 <= i < entries.len() ==> entries[i].0@ != key,
    ensures
        !entries_map(entries).contains_key(key),
    decreases entries.len(),
{
    if entries.len() > 0 {
        lemma_absent_key(entries.drop_last(), key);
    }
}

/// The map sends a key to the value of the last entry that carries it.
pub proof fn lemma_last_entry_wins(entries: Seq<(String, Value)>, at: int)
    requires
        0 <= at < entries.len(),
        forall|i: int| at < i < entries.len() ==> entries[i].0@ != entries[at].0@,
    ensures
        entries_map(entries).contains_key(entries[at].0@),
        entries_map(entries)[entries[at].0@] == entries[at].1,
    decreases entries.len(),
{
    if at < entries.len() - 1 {
        lemma_last_entry_wins(entries.drop_last(), at);
    }
}

/// Putting a new value in the place of a key's last entry changes the map as
/// an insertion under that key does.
pub proof fn lemma_replace_last_entry(entries: Seq<(String, Value)>, at: int, entry: (String, Value))
    requires
        0 <= at < entries.len(),
        entries[at].0@ == entry.0@,
        forall|i: int| at < i < entries.len() ==> entries[i].0@ != entry.0@,
    ensures
        entries_map(entries.update(at, entry)) == entries_map(entries).insert(entry.0@, entry.1),
    decreases entries.len(),
{
    let changed = entries.update(at, entry);
    if at == entries.len() - 1 {
        assert(changed.drop_last() =~= entries.drop_last());
        assert(entries_map(changed) =~= entries_map(entries).insert(entry.0@, entry.1));
    } else {
        lemma_replace_last_entry(entries.drop_last(), at, entry);
        assert(changed.drop_last() =~= entries.drop_last().update(at, entry));
        assert(changed.last() == entries.last());
        assert(entries_map(changed) =~= entries_map(entries).insert(entry.0@, entry.1));
    }
}

/// The position of the last entry under `key`, if any entry carries it.
fn last_position(entries: &Vec<(String, Value)>, key: &String) -> (found: Option<usize>)
    ensures
        match found {
            Some(at) => {
                &&& at < entries.len()
                &&& entries[at as int].0@ == key@
                &&& forall|i: int| at < i < entries.len() ==> entries[i].0@ != key@
            },
            None => forall|i: int| 0 <= i < entries.len() ==> entries[i].0@ != key@,
        },
{
    let mut at: usize = entries.len();
    while at > 0
        invariant
            at <= entries.len(),
            forall|i: int| at <= i < entries.len() ==> entries[i].0@ != key@,
        decreases at,
    {
        at = at - 1;
        if entries[at].0 == *key {
            return Some(at);
        }
    }
    None
}

/// A record of source code as the store keeps it.
#[derive(Debug)]
pub struct CodeRecord {
    /// The record's identifier.
    pub id: String,
    /// The code itself.
    pub content: String,
    /// The programming language of the code.
    pub language: String,
    /// When the record was made.
    pub created_at: Timestamp,
    /// When the record was last changed.
    pub updated_at: Timestamp,
    /// Further facts about the record, by key; a key's last entry counts.
    metadata: Vec<(String, Value)>,
}

/// What a [`CodeRecord`] holds.
pub struct CodeRecordView {
    pub id: Seq<char>,
    pub content: Seq<char>,
    pub language: Seq<char>,
    pub created_at: Timestamp,
    pub updated_at: Timestamp,
    pub metadata: Map<Seq<char>, Value>,
}

impl View for CodeRecord {
    type V = CodeRecordView;

    closed spec fn view(&self) -> CodeRecordView {
        CodeRecordView {
            id: self.id@,
            content: self.content@,
            language: self.language@,
            created_at: self.created_at,
            updated_at: self.updated_at,
            metadata: entries_map(self.metadata@),
        }
    }
}

impl Clone for CodeRecord {
    /// A copy that holds the same texts, times and metadata.
    fn clone(&self) -> (copy: CodeRecord)
        ensures
            copy@ == self@,
    {
        let metadata = self.metadata_entries();
        CodeRecord {
            id: self.id.clone(),
            content: self.content.clone(),
            language: self.language.clone(),
            created_at: self.created_at,
            updated_at: self.updated_at,
            metadata,
        }
    }
}

impl CodeRecord {
    /// A record made at `now`, without metadata.
    pub fn new_at(id: &str, content: &str, language: &str, now: Timestamp) -> (record: CodeRecord)
        ensures
            record@ == (CodeRecordView {
                id: id@,
                content: content@,
                language: language@,
                created_at: now,
                updated_at: now,
                metadata: Map::empty(),
            }),
    {
        CodeRecord {
            id: id.to_owned(),
            content: content.to_owned(),
            language: language.to_owned(),
            created_at: now,
            updated_at: now,
            metadata: Vec::new(),
        }
    }

    /// A record made now, without metadata. Both times are one reading of the
    /// clock.
    pub fn new(id: &str, content: &str, language: &str) -> (record: CodeRecord)
        ensures
            record@.id == id@,
            record@.content == content@,
            record@.language == language@,
            record@.updated_at == record@.created_at,
            record@.metadata == Map::<Seq<char>, Value>::empty(),
    {
        CodeRecord::new_at(id, content, language, utc_now())
    }

    /// A record made at `now` that carries `metadata`; where a key occurs
    /// more than once, its last entry counts.
    pub fn new_with_metadata_at(
        id: &str,
        content: &str,
        language: &str,
        metadata: Vec<(String, Value)>,
        now: Timestamp,
    ) -> (record: CodeRecord)
        ensures
            record@ == (CodeRecordView {
                id: id@,
                content: content@,
                language: language@,
                created_at: now,
                updated_at: now,
                metadata: entries_map(metadata@),
            }),
    {
        CodeRecord {
            id: id.to_owned(),
            content: content.to_owned(),
            language: language.to_owned(),
            created_at: now,
            updated_at: now,
            metadata,
        }
    }

    /// A record made now that carries `metadata`; where a key occurs more
    /// than once, its last entry counts.
    pub fn new_with_metadata(
        id: &str,
        content: &str,
        language: &str,
        metadata: Vec<(String, Value)>,
    ) -> (record: CodeRecord)
        ensures
            record@.id == id@,
            record@.content == content@,
            record@.language == language@,
            record@.updated_at == record@.created_at,
            record@.metadata == entries_map(metadata@),
    {
        CodeRecord::new_with_metadata_at(id, content, language, metadata, utc_now())
    }

    /// Replaces the content and notes `now` as the time of the change.
    pub fn update_content_at(&mut self, new_content: &str, now: Timestamp)
        ensures
            final(self)@ == (CodeRecordView {
                content: new_content@,
                updated_at: now,
                ..old(self)@
            }),
    {
        self.content = new_content.to_owned();
        self.updated_at = now;
    }

    /// Replaces the content and notes the current time as the time of the
    /// change; everything else stays.
    pub fn update_content(&mut self, new_content: &str)
        ensures
            final(self)@ == (CodeRecordView {
                content: new_content@,
                updated_at: final(self)@.updated_at,
                ..old(self)@
            }),
    {
        self.update_content_at(new_content, utc_now());
    }

    /// Puts `value` under `key`, in place of what was there, and notes `now`
    /// as the time of the change.
    pub fn update_metadata_at(&mut self, key: &str, value: Value, now: Timestamp)
        ensures
            final(self)@ == (CodeRecordView {
                metadata: old(self)@.metadata.insert(key@, value),
                updated_at: now,
                ..old(self)@
            }),
    {
        let entry = (key.to_owned(), value);
        match last_position(&self.metadata, &entry.0) {
            Some(at) => {
                proof {
                    lemma_replace_last_entry(self.metadata@, at as int, entry);
                }
                self.metadata[at] = entry;
            },
            None => {
                proof {
                    assert(self.metadata@.push(entry).drop_last() =~= self.metadata@);
                }
                self.metadata.push(entry);
            },
        }
        self.updated_at = now;
    }

    /// Puts `value` under `key`, in place of what was there, and notes the
    /// current time as the time of the change; everything else stays.
    pub fn update_metadata(&mut self, key: &str, value: Value)
        ensures
            final(self)@ == (CodeRecordView {
                metadata: old(self)@.metadata.insert(key@, value),
                updated_at: final(self)@.updated_at,
                ..old(self)@
            }),
    {
        self.update_metadata_at(key, value, utc_now());
    }

    /// The value under `key`, if there is one.
    pub fn get_metadata(&self, key: &str) -> (found: Option<&Value>)
        ensures
            match found {
                Some(value) => self@.metadata.contains_key(key@) && *value == self@.metadata[key@],
                None => !self@.metadata.contains_key(key@),
            },
    {
        let wanted = key.to_owned();
        match last_position(&self.metadata, &wanted) {
            Some(at) => {
                proof {
                    lemma_last_entry_wins(self.metadata@, at as int);
                }
                Some(&self.metadata[at].1)
            },
            None => {
                proof {
                    lemma_absent_key(self.metadata@, key@);
                }
                None
            },
        }
    }

    /// The record's identifier.
    pub fn id(&self) -> (id: &String)
        ensures
            id@ == self@.id,
    {
        &self.id
    }

    /// The code itself.
    pub fn content(&self) -> (content: &String)
        ensures
            content@ == self@.content,
    {
        &self.content
    }

    /// The programming language of the code.
    pub fn language(&self) -> (language: &String)
        ensures
            language@ == self@.language,
    {
        &self.language
    }

    /// When the record was made.
    pub fn created_at(&self) -> (time: Timestamp)
        ensures
            time == self@.created_at,
    {
        self.created_at
    }

    /// When the record was last changed.
    pub fn updated_at(&self) -> (time: Timestamp)
        ensures
            time == self@.updated_at,
    {
        self.updated_at
    }

    /// The metadata as a list of entries that stands for the same map.
    pub fn metadata_entries(&self) -> (entries: Vec<(String, Value)>)
        ensures
            entries_map(entries@) == self@.metadata,
    {
        let mut entries: Vec<(String, Value)> = Vec::new();
        let mut i: usize = 0;
        while i < self.metadata.len()
            invariant
                i <= self.metadata.len(),
                entries@ =~= self.metadata@.subrange(0, i as int),
            decreases self.metadata.len() - i,
        {
            let key = self.metadata[i].0.clone();
            let value = clone_json(&self.metadata[i].1);
            entries.push((key, value));
            i = i + 1;
        }
        assert(entries@ =~= self.metadata@);
        entries
    }

    /// Whether the record was made no more than `seconds` whole seconds
    /// before `now`.
    pub fn is_recent_at(&self, seconds: i64, now: Timestamp) -> (recent: bool)
        ensures
            recent == (now.whole_seconds_since(self@.created_at) <= seconds),
    {
        let age: i128 = now.seconds_since(&self.created_at);
        let bound: i128 = seconds as i128;
        age <= bound
    }

    /// Whether the record was made within the last `seconds` whole seconds:
    /// what [`CodeRecord::is_recent_at`] says of the time that the clock
    /// shows.
    pub fn is_recent(&self, seconds: i64) -> (recent: bool)
        ensures
            exists|now: Timestamp|
                recent == (#[trigger] now.whole_seconds_since(self@.created_at) <= seconds),
    {
        let now = utc_now();
        let recent = self.is_recent_at(seconds, now);
        assert(recent == (now.whole_seconds_since(self@.created_at) <= seconds));
        recent
    }

    /// The number of lines of the content: of its line feeds, and one more
    /// for what follows the last of them, if anything does.
    pub fn content_lines(&self) -> (lines: usize)
        ensures
            lines == line_count(encode_utf8(self@.content)),
    {
        count_lines(self.content.as_str())
    }

    /// The length of the content in bytes, as UTF-8 encodes it.
    pub fn content_length(&self) -> (len: usize)
        ensures
            len == encode_utf8(self@.content).len() as usize,
    {
        self.content.as_str().len()
    }
}

/// A fraction, as its two whole numbers.
#[derive(Clone, Copy, Debug, PartialEq, Eq, Structural)]
pub struct Ratio {
    pub numerator: usize,
    pub denominator: usize,
}

/// The pool's bookkeeping: its size and its counters.
#[derive(Debug)]
pub struct PoolInfo {
    /// The pool's random identifier.
    pub pool_id: String,
    /// The greatest number of connections the pool may own.
    pub pool_size: usize,
    /// Connections out on loan.
    pub active_connections: usize,
    /// Connections owned and not on loan.
    pub idle_connections: usize,
    /// Loans made since the pool was created.
    pub total_acquired: u64,
    /// Connections taken back since the pool was created.
    pub total_released: u64,
    /// When the pool was created.
    pub created_at: Timestamp,
}

impl Clone for PoolInfo {
    /// A copy with the same identifier, numbers and time.
    fn clone(&self) -> (copy: PoolInfo)
        ensures
            copy == *self,
    {
        PoolInfo {
            pool_id: self.pool_id.clone(),
            pool_size: self.pool_size,
            active_connections: self.active_connections,
            idle_connections: self.idle_connections,
            total_acquired: self.total_acquired,
            total_released: self.total_released,
            created_at: self.created_at,
        }
    }
}

impl PoolInfo {
    /// The bookkeeping of a new pool of `pool_size` connections, all idle. Its
    /// identifier is random and its time of creation is the current time.
    pub fn new(pool_size: usize) -> (info: PoolInfo)
        ensures
            is_hyphenated(info.pool_id@),
            info.pool_size == pool_size,
            info.active_connections == 0,
            info.idle_connections == pool_size,
            info.total_acquired == 0,
            info.total_released == 0,
    {
        PoolInfo {
            pool_id: fresh_id_text(),
            pool_size,
            active_connections: 0,
            idle_connections: pool_size,
            total_acquired: 0,
            total_released: 0,
            created_at: utc_now(),
        }
    }

    /// The share of the pool that is on loan: active connections over pool
    /// size, and zero over one for a pool of size zero.
    pub fn utilization_rate(&self) -> (rate: Ratio)
        ensures
            self.pool_size == 0 ==> rate == (Ratio { numerator: 0, denominator: 1 }),
            self.pool_size != 0 ==> rate == (Ratio {
                numerator: self.active_connections,
                denominator: self.pool_size,
            }),
    {
        if self.pool_size == 0 {
            Ratio { numerator: 0, denominator: 1 }
        } else {
            Ratio { numerator: self.active_connections, denominator: self.pool_size }
        }
    }
}

/// Figures about a database, for monitoring.
#[derive(Debug)]
pub struct DatabaseStats {
    pub total_records: usize,
    pub total_size_bytes: usize,
    pub languages_count: HashMap<String, usize>,
    pub last_updated: Timestamp,
    pub connection_pool_size: usize,
    pub active_connections: usize,
}

impl Default for DatabaseStats {
    /// Figures of an empty database, taken now.
    fn default() -> (stats: DatabaseStats)
        ensures
            stats.total_records == 0,
            stats.total_size_bytes == 0,
            stats.languages_count@ == Map::<String, usize>::empty(),
            stats.connection_pool_size == 0,
            stats.active_connections == 0,
    {
        DatabaseStats {
            total_records: 0,
            total_size_bytes: 0,
            languages_count: HashMap::new(),
            last_updated: utc_now(),
            connection_pool_size: 0,
            active_connections: 0,
        }
    }
}

} // verus!
