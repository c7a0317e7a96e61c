//! The cursor over the records that a query returned.

use vstd::prelude::*;
use tokio::time::Instant;
use crate::cozodb::error::{CozoError, CozoErrorView};
use crate::cozodb::record::{
    entries_map, json_number, json_string, CodeRecord, CodeRecordView,
};
use crate::text::{decimal, decimal_digits, join, joined, replace_char, replaced, texts};
use crate::time::{clock_elapsed, clock_now, utc_now, Duration, Timestamp};
use serde_json::Value;

verus! {

/// The comparisons that a filter can make.
#[derive(Clone, Copy, Debug, PartialEq, Eq, Structural)]
pub enum FilterOperator {
    Equals,
    NotEquals,
    GreaterThan,
    GreaterThanOrEqual,
    LessThan,
    LessThanOrEqual,
    Contains,
    StartsWith,
    EndsWith,
    In,
}

/// The identifier of the `index`-th made-up record.
pub open spec fn mock_record_id(index: nat) -> Seq<char> {
    "mock-record-"@ + decimal_digits(index)
}

/// The content of the `index`-th made-up record: a comment and an empty
/// function, both numbered.
pub open spec fn mock_record_content(index: nat) -> Seq<char> {
    "// Mock record number "@ + decimal_digits(index) + "\nfn function_"@ + decimal_digits(index)
        + "() {\n    // Implementation here\n}"@
}

/// Whether `record` is the `index`-th made-up record: numbered texts, the
/// language `rust`, one time for both dates, and metadata under the keys
/// `test_index` and `batch_id` and no others.
pub open spec fn is_mock_record(record: CodeRecordView, index: nat) -> bool {
    &&& record.id == mock_record_id(index)
    &&& record.content == mock_record_content(index)
    &&& record.language == "rust"@
    &&& record.updated_at == record.created_at
    &&& record.metadata.dom() =~= set!["test_index"@, "batch_id"@]
}

/// The `index`-th made-up record, dated `now`.
fn mock_record(index: usize, now: Timestamp) -> (record: CodeRecord)
    ensures
        is_mock_record(record@, index as nat),
        record@.created_at == now,
{
    let number = decimal(index as u128);
    let mut id = String::from_str("mock-record-");
    id.append(number.as_str());
    let mut content = String::from_str("// Mock record number ");
    content.append(number.as_str());
    content.append("\nfn function_");
    content.append(number.as_str());
    content.append("() {\n    // Implementation here\n}");
    let mut metadata: Vec<(String, Value)> = Vec::new();
    metadata.push(("test_index".to_owned(), json_number(index as u64)));
    metadata.push(("batch_id".to_owned(), json_string("test-batch")));
    proof {
        let entries = metadata@;
        let first = entries.drop_last();
        assert(first.len() == 1 && first.last().0@ == "test_index"@);
        assert(entries.last().0@ == "batch_id"@);
        assert(entries_map(first.drop_last()) =~= Map::empty());
        assert(entries_map(first).dom() =~= set!["test_index"@]);
        assert(entries_map(entries).dom() =~= set!["test_index"@, "batch_id"@]);
    }
    CodeRecord::new_with_metadata_at(id.as_str(), content.as_str(), "rust", metadata, now)
}

/// A value that a filter compares with.
#[derive(Debug)]
pub enum FilterValue {
    String(String),
    /// A number, held as the text that it is written as.
    Number(String),
    Boolean(bool),
    List(Vec<FilterValue>),
}

impl FilterValue {
    /// The value as it stands in a query: a string in single quotes, with
    /// each quote in it doubled; a number as it is written; a boolean in
    /// capitals; and `NULL` for a list, which a query spells out itself.
    pub open spec fn sql_value(self) -> Seq<char> {
        match self {
            FilterValue::String(text) => "'"@ + replaced(text@, '\'', "''"@) + "'"@,
            FilterValue::Number(text) => text@,
            FilterValue::Boolean(flag) => if flag {
                "TRUE"@
            } else {
                "FALSE"@
            },
            FilterValue::List(_) => "NULL"@,
        }
    }

    /// The plain texts of the first `upto` of `values`.
    pub open spec fn displays(values: Seq<FilterValue>, upto: nat) -> Seq<Seq<char>>
        decreases values, upto,
    {
        if upto == 0 || upto > values.len() {
            Seq::empty()
        } else {
            Self::displays(values, (upto - 1) as nat).push(values[upto - 1].display())
        }
    }

    /// The value as plain text: a string and a number as they are, a boolean
    /// in small letters, and a list in square brackets with `, ` between its
    /// members.
    pub open spec fn display(self) -> Seq<char>
        decreases self,
    {
        match self {
            FilterValue::String(text) => text@,
            FilterValue::Number(text) => text@,
            FilterValue::Boolean(flag) => if flag {
                "true"@
            } else {
                "false"@
            },
            FilterValue::List(values) => "["@ + joined(
                Self::displays(values@, values@.len()),
                ", "@,
            ) + "]"@,
        }
    }

    /// The value as it stands in a query.
    pub fn to_sql_value(&self) -> (text: String)
        ensures
            text@ == self.sql_value(),
    {
        match self {
            FilterValue::String(inner) => {
                let escaped = replace_char(inner.as_str(), '\'', "''");
                let mut text = String::from_str("'");
                text.append(escaped.as_str());
                text.append("'");
                text
            },
            FilterValue::Number(inner) => inner.clone(),
            FilterValue::Boolean(flag) => {
                if *flag {
                    "TRUE".to_owned()
                } else {
                    "FALSE".to_owned()
                }
            },
            FilterValue::List(_) => "NULL".to_owned(),
        }
    }

    /// The value as plain text.
    #[verifier::loop_isolation(false)]
    pub fn to_string(&self) -> (text: String)
        ensures
            text@ == self.display(),
        decreases self,
    {
        match self {
            FilterValue::String(inner) => inner.clone(),
            FilterValue::Number(inner) => inner.clone(),
            FilterValue::Boolean(flag) => {
                if *flag {
                    "true".to_owned()
                } else {
                    "false".to_owned()
                }
            },
            FilterValue::List(values) => {
                let mut parts: Vec<String> = Vec::new();
                let mut i: usize = 0;
                while i < values.len()
                    invariant
                        i <= values.len(),
                        *self == FilterValue::List(*values),
                        texts(parts@) =~= Self::displays(values@, i as nat),
                    decreases values.len() - i,
                {
                    proof {
                        vstd::std_specs::vec::axiom_vec_index_decreases(*values, i as int);
                    }
                    let ghost before = texts(parts@);
                    let part = values[i].to_string();
                    parts.push(part);
                    proof {
                        assert(texts(parts@) =~= before.push(part@));
                    }
                    i = i + 1;
                }
                let inner = join(&parts, ", ");
                let mut text = String::from_str("[");
                text.append(inner.as_str());
                text.append("]");
                text
            },
        }
    }
}

/// One condition on one field.
#[derive(Debug)]
pub struct FilterCondition {
    pub field: String,
    pub operator: FilterOperator,
    pub value: FilterValue,
}

/// The texts of the members of `values` as they stand in a query.
pub open spec fn sql_values(values: Seq<FilterValue>) -> Seq<Seq<char>> {
    Seq::new(values.len(), |i: int| values[i].sql_value())
}

impl FilterCondition {
    /// The condition as it stands in a query: the field, the sign of the
    /// comparison and the value; a pattern after `LIKE` for the three
    /// comparisons of texts; and the members of a list in round brackets
    /// after `IN`.
    pub open spec fn sql_clause(self) -> Seq<char> {
        let field = self.field@;
        let value = self.value.sql_value();
        let plain = self.value.display();
        match self.operator {
            FilterOperator::Equals => field + " = "@ + value,
            FilterOperator::NotEquals => field + " != "@ + value,
            FilterOperator::GreaterThan => field + " > "@ + value,
            FilterOperator::GreaterThanOrEqual => field + " >= "@ + value,
            FilterOperator::LessThan => field + " < "@ + value,
            FilterOperator::LessThanOrEqual => field + " <= "@ + value,
            FilterOperator::Contains => field + " LIKE '%"@ + plain + "%'"@,
            FilterOperator::StartsWith => field + " LIKE '"@ + plain + "%'"@,
            FilterOperator::EndsWith => field + " LIKE '%"@ + plain + "'"@,
            FilterOperator::In => match self.value {
                FilterValue::List(values) => field + " IN ("@ + joined(
                    sql_values(values@),
                    ", "@,
                ) + ")"@,
                _ => field + " IN ("@ + value + ")"@,
            },
        }
    }

    /// The field, `middle`, `value` and `end`, one after the other.
    fn spell(&self, middle: &str, value: &str, end: &str) -> (text: String)
        ensures
            text@ == self.field@ + middle@ + value@ + end@,
    {
        let mut text = self.field.clone();
        text.append(middle);
        text.append(value);
        text.append(end);
        text
    }

    /// The condition as it stands in a query.
    pub fn to_sql_clause(&self) -> (text: String)
        ensures
            text@ == self.sql_clause(),
    {
        let text = match self.operator {
            FilterOperator::Equals => self.spell(" = ", self.value.to_sql_value().as_str(), ""),
            FilterOperator::NotEquals => self.spell(
                " != ",
                self.value.to_sql_value().as_str(),
                "",
            ),
            FilterOperator::GreaterThan => self.spell(
                " > ",
                self.value.to_sql_value().as_str(),
                "",
            ),
            FilterOperator::GreaterThanOrEqual => self.spell(
                " >= ",
                self.value.to_sql_value().as_str(),
                "",
            ),
            FilterOperator::LessThan => self.spell(" < ", self.value.to_sql_value().as_str(), ""),
            FilterOperator::LessThanOrEqual => self.spell(
                " <= ",
                self.value.to_sql_value().as_str(),
                "",
            ),
            FilterOperator::Contains => self.spell(
                " LIKE '%",
                self.value.to_string().as_str(),
                "%'",
            ),
            FilterOperator::StartsWith => self.spell(
                " LIKE '",
                self.value.to_string().as_str(),
                "%'",
            ),
            FilterOperator::EndsWith => self.spell(
                " LIKE '%",
                self.value.to_string().as_str(),
                "'",
            ),
            FilterOperator::In => match &self.value {
                FilterValue::List(values) => {
                    let mut parts: Vec<String> = Vec::new();
                    let mut i: usize = 0;
                    while i < values.len()
                        invariant
                            i <= values.len(),
                            texts(parts@) =~= sql_values(values@).subrange(0, i as int),
                        decreases values.len() - i,
                    {
                        let ghost before = texts(parts@);
                        let part = values[i].to_sql_value();
                        parts.push(part);
                        proof {
                            assert(texts(parts@) =~= before.push(part@));
                            assert(sql_values(values@).subrange(0, i + 1) =~= sql_values(
                                values@,
                            ).subrange(0, i as int).push(values@[i as int].sql_value()));
                        }
                        i = i + 1;
                    }
                    proof {
                        assert(sql_values(values@).subrange(0, values@.len() as int)
                            =~= sql_values(values@));
                    }
                    self.spell(" IN (", join(&parts, ", ").as_str(), ")")
                },
                _ => self.spell(" IN (", self.value.to_sql_value().as_str(), ")"),
            },
        };
        proof {
            reveal_strlit("");
            assert(text@ =~= self.sql_clause());
        }
        text
    }
}

/// What a query asks for besides its table.
#[derive(Debug)]
pub struct QueryParams {
    /// The greatest number of records to return.
    pub limit: Option<usize>,
    /// How many records to pass over first.
    pub offset: Option<usize>,
    /// What to order the records by.
    pub order_by: Option<String>,
    /// The conditions, all of which a record must meet.
    pub filters: Vec<FilterCondition>,
    /// How long the query may take.
    pub timeout: Option<Duration>,
}

/// The texts of the conditions as they stand in a query.
pub open spec fn sql_clauses(filters: Seq<FilterCondition>) -> Seq<Seq<char>> {
    Seq::new(filters.len(), |i: int| filters[i].sql_clause())
}

impl Default for QueryParams {
    /// No limit, offset, order or condition, and thirty seconds of time.
    fn default() -> (params: QueryParams)
        ensures
            params.limit is None,
            params.offset is None,
            params.order_by is None,
            params.filters@.len() == 0,
            params.timeout == Some(Duration { nanos: 30_000_000_000 }),
    {
        QueryParams {
            limit: None,
            offset: None,
            order_by: None,
            filters: Vec::new(),
            timeout: Some(Duration::from_secs(30)),
        }
    }
}

impl QueryParams {
    /// The conditions as they stand in a query, joined by `AND` after
    /// `WHERE`; nothing where there are none.
    pub open spec fn where_text(self) -> Seq<char> {
        if self.filters@.len() > 0 {
            " WHERE "@ + joined(sql_clauses(self.filters@), " AND "@)
        } else {
            Seq::empty()
        }
    }

    /// The order, the limit and the offset as they stand in a query, each
    /// only where the parameters hold it.
    pub open spec fn tail_text(self) -> Seq<char> {
        (match self.order_by {
            Some(order) => " ORDER BY "@ + order@,
            None => Seq::empty(),
        }) + (match self.limit {
            Some(limit) => " LIMIT "@ + decimal_digits(limit as nat),
            None => Seq::empty(),
        }) + (match self.offset {
            Some(offset) => " OFFSET "@ + decimal_digits(offset as nat),
            None => Seq::empty(),
        })
    }

    /// The query on `table` that the parameters stand for: everything from
    /// the table, then the conditions, the order, the limit and the offset.
    pub open spec fn query_text(self, table: Seq<char>) -> Seq<char> {
        "SELECT * FROM "@ + table + self.where_text() + self.tail_text()
    }

    /// The parameters of [`QueryParams::default`].
    pub fn new() -> (params: QueryParams)
        ensures
            params.limit is None,
            params.offset is None,
            params.order_by is None,
            params.filters@.len() == 0,
            params.timeout == Some(Duration { nanos: 30_000_000_000 }),
    {
        QueryParams::default()
    }

    /// The same parameters with the limit `limit`.
    pub fn with_limit(self, limit: usize) -> (params: QueryParams)
        ensures
            params == (QueryParams { limit: Some(limit), ..self }),
    {
        let mut params = self;
        params.limit = Some(limit);
        params
    }

    /// The same parameters with the offset `offset`.
    pub fn with_offset(self, offset: usize) -> (params: QueryParams)
        ensures
            params == (QueryParams { offset: Some(offset), ..self }),
    {
        let mut params = self;
        params.offset = Some(offset);
        params
    }

    /// The same parameters with the order `order_by`.
    pub fn with_order_by(self, order_by: &str) -> (params: QueryParams)
        ensures
            params.order_by matches Some(order) && order@ == order_by@,
            params.limit == self.limit,
            params.offset == self.offset,
            params.filters == self.filters,
            params.timeout == self.timeout,
    {
        let mut params = self;
        params.order_by = Some(order_by.to_owned());
        params
    }

    /// The same parameters with one more condition, after the others.
    pub fn with_filter(self, filter: FilterCondition) -> (params: QueryParams)
        ensures
            params.filters@ == self.filters@.push(filter),
            params.limit == self.limit,
            params.offset == self.offset,
            params.order_by == self.order_by,
            params.timeout == self.timeout,
    {
        let mut params = self;
        params.filters.push(filter);
        params
    }

    /// The same parameters with `timeout` as the time that the query may
    /// take.
    pub fn with_timeout(self, timeout: Duration) -> (params: QueryParams)
        ensures
            params == (QueryParams { timeout: Some(timeout), ..self }),
    {
        let mut params = self;
        params.timeout = Some(timeout);
        params
    }

    /// The conditions as they stand in a query.
    fn where_clause(&self) -> (text: String)
        ensures
            text@ == self.where_text(),
    {
        if self.filters.len() == 0 {
            return String::new();
        }
        let mut clauses: Vec<String> = Vec::new();
        let mut i: usize = 0;
        while i < self.filters.len()
            invariant
                i <= self.filters.len(),
                texts(clauses@) =~= sql_clauses(self.filters@).subrange(0, i as int),
            decreases self.filters.len() - i,
        {
            let ghost before = texts(clauses@);
            let clause = self.filters[i].to_sql_clause();
            clauses.push(clause);
            proof {
                assert(texts(clauses@) =~= before.push(clause@));
                assert(sql_clauses(self.filters@).subrange(0, i + 1) =~= sql_clauses(
                    self.filters@,
                ).subrange(0, i as int).push(self.filters@[i as int].sql_clause()));
            }
            i = i + 1;
        }
        proof {
            assert(sql_clauses(self.filters@).subrange(0, self.filters@.len() as int)
                =~= sql_clauses(self.filters@));
        }
        let mut text = String::from_str(" WHERE ");
        text.append(join(&clauses, " AND ").as_str());
        text
    }

    /// The order, the limit and the offset as they stand in a query.
    fn tail(&self) -> (text: String)
        ensures
            text@ == self.tail_text(),
    {
        let mut text = String::new();
        match &self.order_by {
            Some(order) => {
                text.append(" ORDER BY ");
                text.append(order.as_str());
            },
            None => {},
        }
        let ghost ordered = text@;
        match self.limit {
            Some(limit) => {
                text.append(" LIMIT ");
                text.append(decimal(limit as u128).as_str());
            },
            None => {},
        }
        let ghost limited = text@;
        match self.offset {
            Some(offset) => {
                text.append(" OFFSET ");
                text.append(decimal(offset as u128).as_str());
            },
            None => {},
        }
        proof {
            assert(ordered =~= match self.order_by {
                Some(order) => " ORDER BY "@ + order@,
                None => Seq::empty(),
            });
            assert(limited =~= ordered + match self.limit {
                Some(limit) => " LIMIT "@ + decimal_digits(limit as nat),
                None => Seq::empty(),
            });
            assert(text@ =~= self.tail_text());
        }
        text
    }

    /// The query on `table` that the parameters stand for.
    pub fn build_query(&self, table: &str) -> (query: String)
        ensures
            query@ == self.query_text(table@),
    {
        let mut query = String::from_str("SELECT * FROM ");
        query.append(table);
        query.append(self.where_clause().as_str());
        query.append(self.tail().as_str());
        query
    }
}

/// What one step of a cursor gives: a record, the one error that ends a
/// cursor whose time is up, or nothing more.
pub type StreamItem = Option<Result<CodeRecord, CozoError>>;

/// A single pass over the records of one query, open for a limited time.
pub struct QueryStream {
    /// The records of the result, in order.
    records: Vec<CodeRecord>,
    /// How many records were handed out.
    position: usize,
    /// When the cursor was opened.
    created_at: Instant,
    /// How long the cursor stays open.
    timeout: Duration,
    /// Whether the cursor has reported that its time is up.
    expired: bool,
}

/// What a [`QueryStream`] holds, but for the reading of the clock at which it
/// was opened.
pub struct QueryStreamView {
    pub records: Seq<CodeRecordView>,
    pub position: nat,
    pub timeout: Duration,
    pub expired: bool,
}

impl QueryStreamView {
    /// Whether a cursor that has been open for `elapsed` is past its time.
    pub open spec fn out_of_time(self, elapsed: Duration) -> bool {
        elapsed.nanos > self.timeout.nanos
    }

    /// The records not handed out yet.
    pub open spec fn remaining(self) -> nat {
        if self.position <= self.records.len() {
            (self.records.len() - self.position) as nat
        } else {
            0
        }
    }
}

/// What one step of a cursor gives, with the record or the error by its
/// view.
pub open spec fn item_view(item: StreamItem) -> Option<Result<CodeRecordView, CozoErrorView>> {
    match item {
        Some(Ok(record)) => Some(Ok(record@)),
        Some(Err(e)) => Some(Err(e@)),
        None => None,
    }
}

/// The error that ends a cursor whose time is up.
pub open spec fn stream_timeout_error() -> CozoErrorView {
    CozoErrorView::QueryFailed { message: "Stream timeout"@, query: "QueryStream timeout"@ }
}

impl QueryStreamView {
    /// What a step gives of a cursor that has been open for `elapsed`:
    /// nothing, once the cursor has expired; the error that ends it, when it
    /// is past its time; else its next record, and nothing when there is
    /// none left.
    pub open spec fn step_item(self, elapsed: Duration) -> Option<
        Result<CodeRecordView, CozoErrorView>,
    > {
        if self.expired {
            None
        } else if self.out_of_time(elapsed) {
            Some(Err(stream_timeout_error()))
        } else if self.remaining() > 0 {
            Some(Ok(self.records[self.position as int]))
        } else {
            None
        }
    }

    /// The cursor after a step that found it open for `elapsed`: expired,
    /// when it was past its time; else one record further, if it had one
    /// left; and as it was, once it has expired or come to its end.
    pub open spec fn after_step(self, elapsed: Duration) -> QueryStreamView {
        if self.expired {
            self
        } else if self.out_of_time(elapsed) {
            QueryStreamView { expired: true, ..self }
        } else if self.remaining() > 0 {
            QueryStreamView { position: self.position + 1, ..self }
        } else {
            self
        }
    }
}

impl View for QueryStream {
    type V = QueryStreamView;

    closed spec fn view(&self) -> QueryStreamView {
        QueryStreamView {
            records: Seq::new(self.records@.len(), |i: int| self.records@[i]@),
            position: self.position as nat,
            timeout: self.timeout,
            expired: self.expired,
        }
    }
}

impl QueryStream {
    /// A cursor over `records`, opened now, that stays open for `timeout`.
    pub fn new(records: Vec<CodeRecord>, timeout: Duration) -> (stream: QueryStream)
        ensures
            stream@.records == Seq::new(records@.len(), |i: int| records@[i]@),
            stream@.position == 0,
            stream@.timeout == timeout,
            !stream@.expired,
    {
        QueryStream { records, position: 0, created_at: clock_now(), timeout, expired: false }
    }

    /// A cursor over `count` made-up records, opened now, that stays open for
    /// thirty seconds. It never fails.
    pub fn new_mock(count: usize) -> (made: Result<QueryStream, CozoError>)
        ensures
            made matches Ok(stream) && {
                &&& stream@.records.len() == count
                &&& forall|i: int|
                    0 <= i < count ==> is_mock_record(#[trigger] stream@.records[i], i as nat)
                &&& stream@.position == 0
                &&& stream@.timeout.nanos == 30_000_000_000u128
                &&& !stream@.expired
            },
    {
        let mut records: Vec<CodeRecord> = Vec::new();
        let mut i: usize = 0;
        while i < count
            invariant
                i <= count,
                records@.len() == i,
                forall|j: int| 0 <= j < i ==> is_mock_record((#[trigger] records@[j])@, j as nat),
            decreases count - i,
        {
            let record = mock_record(i, utc_now());
            records.push(record);
            i = i + 1;
        }
        Ok(QueryStream::new(records, Duration::from_secs(30)))
    }

    /// Whether a cursor that has been open for `elapsed` is still within its
    /// time.
    pub fn is_valid_after(&self, elapsed: Duration) -> (valid: bool)
        ensures
            valid == !self@.out_of_time(elapsed),
    {
        !elapsed.exceeds(&self.timeout)
    }

    /// Whether the cursor is still within its time: what
    /// [`QueryStream::is_valid_after`] says of the time that the clock shows
    /// to have passed since the cursor was opened. So a cursor whose time no
    /// span can exceed is always valid.
    pub fn is_valid(&self) -> (valid: bool)
        ensures
            exists|elapsed: Duration| valid == !(#[trigger] self@.out_of_time(elapsed)),
    {
        let elapsed = clock_elapsed(&self.created_at);
        let valid = self.is_valid_after(elapsed);
        assert(valid == !self@.out_of_time(elapsed));
        valid
    }

    /// How many records have not been handed out.
    pub fn remaining(&self) -> (count: usize)
        ensures
            count == self@.remaining(),
    {
        if self.position <= self.records.len() {
            self.records.len() - self.position
        } else {
            0
        }
    }

    /// One step of a cursor that has been open for `elapsed`.
    ///
    /// A cursor that is past its time says so once, with an error, and gives
    /// nothing after that, whatever it still holds. Otherwise it gives its
    /// records in order, one for each step, and then nothing.
    pub fn next_after(&mut self, elapsed: Duration) -> (item: StreamItem)
        ensures
            item_view(item) == old(self)@.step_item(elapsed),
            final(self)@ == old(self)@.after_step(elapsed),
    {
        if self.expired {
            return None;
        }
        if elapsed.exceeds(&self.timeout) {
            self.expired = true;
            return Some(Err(CozoError::query_failed("Stream timeout", "QueryStream timeout")));
        }
        if self.position < self.records.len() {
            let record = self.records[self.position].clone();
            self.position = self.position + 1;
            Some(Ok(record))
        } else {
            None
        }
    }

    /// One step of the cursor: what [`QueryStream::next_after`] gives for the
    /// time that the clock shows to have passed since the cursor was opened.
    /// Whatever that time is, a cursor that has expired gives nothing, and
    /// one that has not and has a record left gives that record or the error
    /// that ends it.
    pub fn next(&mut self) -> (item: StreamItem)
        ensures
            exists|elapsed: Duration|
                item_view(item) == #[trigger] old(self)@.step_item(elapsed) && final(self)@
                    == old(self)@.after_step(elapsed),
    {
        let elapsed = clock_elapsed(&self.created_at);
        let item = self.next_after(elapsed);
        assert(item_view(item) == old(self)@.step_item(elapsed));
        item
    }
}

} // verus!
