//! Per-identity slash history: an append-only list of slash records with
//! O(1) count and bounded, offset-based pagination.
use vstd::prelude::*;
use crate::accounts::AccountId;

verus! {

/// Largest page any paginated read returns.
pub const MAX_QUERY_LIMIT: u32 = 200;

/// One slashing event against an identity.
#[derive(Debug, PartialEq, Eq)]
pub struct SlashRecord {
    pub identity: AccountId,
    pub slash_amount: i128,
    /// The reason symbol, by its text.
    pub reason: String,
    pub timestamp: u64,
    pub total_slashed_after: i128,
}

/// Mathematical content of a slash record.
pub struct SlashRecordView {
    pub identity: Seq<char>,
    pub slash_amount: i128,
    pub reason: Seq<char>,
    pub timestamp: u64,
    pub total_slashed_after: i128,
}

impl View for SlashRecord {
    type V = SlashRecordView;

    open spec fn view(&self) -> SlashRecordView {
        SlashRecordView {
            identity: self.identity@,
            slash_amount: self.slash_amount,
            reason: self.reason@,
            timestamp: self.timestamp,
            total_slashed_after: self.total_slashed_after,
        }
    }
}

impl SlashRecord {
    /// A second copy of the record.
    pub fn duplicate(&self) -> (copy: SlashRecord)
        ensures
            copy@ == self@,
    {
        SlashRecord {
            identity: self.identity.duplicate(),
            slash_amount: self.slash_amount,
            reason: self.reason.clone(),
            timestamp: self.timestamp,
            total_slashed_after: self.total_slashed_after,
        }
    }
}

/// The mathematical content of a sequence of slash records.
pub open spec fn slash_views(records: Seq<SlashRecord>) -> Seq<SlashRecordView> {
    records.map_values(|r: SlashRecord| r@)
}

/// Page size actually used for a requested `limit`: 0 means the cap, and
/// anything above the cap is clamped to it.
pub open spec fn effective_limit(limit: u32) -> int {
    if limit == 0 {
        MAX_QUERY_LIMIT as int
    } else if limit < MAX_QUERY_LIMIT {
        limit as int
    } else {
        MAX_QUERY_LIMIT as int
    }
}

/// The smaller of two integers.
pub open spec fn min_int(a: int, b: int) -> int {
    if a <= b {
        a
    } else {
        b
    }
}

/// The page of `records` that starts at `offset` for a requested `limit`:
/// empty when `offset` is past the end, otherwise the records from `offset`
/// up to the effective limit or the end, whichever comes first.
pub open spec fn page_of<T>(records: Seq<T>, offset: u32, limit: u32) -> Seq<T> {
    if offset >= records.len() {
        Seq::empty()
    } else {
        records.subrange(
            offset as int,
            min_int(offset + effective_limit(limit), records.len() as int),
        )
    }
}

/// Whether reading the page at `offset` stays within `u32` arithmetic.
pub open spec fn page_in_range(len: nat, offset: u32, limit: u32) -> bool {
    offset < len ==> offset + effective_limit(limit) <= u32::MAX
}

/// Whether the page at `offset` of a history of `count` records can be read
/// within `u32` arithmetic.
pub fn page_fits(count: u32, offset: u32, limit: u32) -> (fits: bool)
    ensures
        fits == page_in_range(count as nat, offset, limit),
{
    if offset >= count {
        return true;
    }
    let effective_limit = if limit == 0 || limit >= MAX_QUERY_LIMIT {
        MAX_QUERY_LIMIT
    } else {
        limit
    };
    offset <= u32::MAX - effective_limit
}

/// Mathematical state of one identity's slash history.
pub struct SlashHistoryView {
    pub identity: Seq<char>,
    pub records: Seq<SlashRecordView>,
}

/// The slash history of a single identity.
pub struct SlashHistory {
    identity: AccountId,
    records: Vec<SlashRecord>,
}

impl View for SlashHistory {
    type V = SlashHistoryView;

    closed spec fn view(&self) -> SlashHistoryView {
        SlashHistoryView { identity: self.identity@, records: slash_views(self.records@) }
    }
}

/// Sum of the slash amounts of the first `n` records.
pub open spec fn slashed_prefix_sum(records: Seq<SlashRecordView>, n: int) -> int
    decreases n,
{
    if n <= 0 {
        0
    } else {
        slashed_prefix_sum(records, n - 1) + records[n - 1].slash_amount
    }
}

impl SlashHistory {
    /// Every record belongs to the history's identity, and the count fits
    /// in a `u32`.
    pub open spec fn wf(&self) -> bool {
        &&& self@.records.len() <= u32::MAX
        &&& forall|i: int|
            0 <= i < self@.records.len() ==> (#[trigger] self@.records[i]).identity
                == self@.identity
    }

    /// An empty history for `identity`.
    pub fn new(identity: AccountId) -> (h: SlashHistory)
        ensures
            h.wf(),
            h@.identity == identity@,
            h@.records.len() == 0,
    {
        let h = SlashHistory { identity, records: Vec::new() };
        assert(h@.records =~= Seq::<SlashRecordView>::empty());
        h
    }

    /// Rebuilds a history from stored records; `None` when a record belongs
    /// to another identity or there are more than `u32::MAX` records.
    pub fn restore(identity: AccountId, records: Vec<SlashRecord>) -> (h: Option<SlashHistory>)
        ensures
            h is Some <==> (records@.len() <= u32::MAX && forall|i: int|
                0 <= i < records@.len() ==> (#[trigger] records@[i])@.identity == identity@),
            h matches Some(h) ==> h.wf() && h@.identity == identity@ && h@.records == slash_views(
                records@,
            ),
    {
        let n = records.len();
        if n as u64 > u32::MAX as u64 {
            return None;
        }
        let mut i: usize = 0;
        while i < n
            invariant
                n == records.len(),
                i <= n,
                forall|j: int| 0 <= j < i ==> (#[trigger] records@[j])@.identity == identity@,
            decreases n - i,
        {
            if !records[i].identity.same_as(&identity) {
                return None;
            }
            i = i + 1;
        }
        let h = SlashHistory { identity, records };
        assert forall|j: int| 0 <= j < h@.records.len() implies (#[trigger] h@.records[j]).identity
            == h@.identity by {
            assert(h@.records[j] == h.records@[j]@);
        }
        Some(h)
    }

    /// Appends a slash record for this identity.
    pub fn append_slash_history(
        &mut self,
        slash_amount: i128,
        reason: String,
        timestamp: u64,
        total_slashed_after: i128,
    )
        requires
            old(self).wf(),
            old(self)@.records.len() < u32::MAX,
        ensures
            final(self).wf(),
            final(self)@.identity == old(self)@.identity,
            final(self)@.records == old(self)@.records.push(
                SlashRecordView {
                    identity: old(self)@.identity,
                    slash_amount,
                    reason: reason@,
                    timestamp,
                    total_slashed_after,
                },
            ),
    {
        let record = SlashRecord {
            identity: self.identity.duplicate(),
            slash_amount,
            reason,
            timestamp,
            total_slashed_after,
        };
        let ghost before = self@;
        self.records.push(record);
        proof {
            assert(self@.records =~= before.records.push(record@));
        }
    }

    /// Number of slash records stored for this identity.
    pub fn get_slash_count(&self) -> (count: u32)
        requires
            self.wf(),
        ensures
            count == self@.records.len(),
    {
        self.records.len() as u32
    }

    /// A bounded page of slash records starting at `offset`; `limit` 0 means
    /// [`MAX_QUERY_LIMIT`], and larger limits are clamped to it.
    pub fn get_slash_history_page(&self, offset: u32, limit: u32) -> (page: Vec<SlashRecord>)
        requires
            self.wf(),
            page_in_range(self@.records.len(), offset, limit),
        ensures
            slash_views(page@) == page_of(self@.records, offset, limit),
    {
        let count = self.get_slash_count();
        let mut page: Vec<SlashRecord> = Vec::new();
        if offset >= count {
            assert(slash_views(page@) =~= Seq::<SlashRecordView>::empty());
            return page;
        }
        let effective_limit = if limit == 0 {
            MAX_QUERY_LIMIT
        } else if limit < MAX_QUERY_LIMIT {
            limit
        } else {
            MAX_QUERY_LIMIT
        };
        let end = if offset + effective_limit < count {
            offset + effective_limit
        } else {
            count
        };
        let ghost all = self@.records;
        let mut i = offset;
        while i < end
            invariant
                self.wf(),
                all == self@.records,
                count == all.len(),
                offset <= i <= end,
                end <= count,
                slash_views(page@) == all.subrange(offset as int, i as int),
            decreases end - i,
        {
            assert(all[i as int] == self.records@[i as int]@);
            let record = self.records[i as usize].duplicate();
            let ghost before = page@;
            page.push(record);
            proof {
                assert(slash_views(page@) =~= slash_views(before).push(record@));
                assert(all.subrange(offset as int, i + 1) =~= all.subrange(
                    offset as int,
                    i as int,
                ).push(all[i as int]));
            }
            i = i + 1;
        }
        page
    }

    /// The slash record at position `index`.
    pub fn get_slash_record(&self, index: u32) -> (record: SlashRecord)
        requires
            self.wf(),
            index < self@.records.len(),
        ensures
            record@ == self@.records[index as int],
    {
        let len: usize = self.records.len();
        assert(index < len);
        assert(self@.records[index as int] == self.records@[index as int]@);
        self.records[index as usize].duplicate()
    }

    /// The complete slash history, in order.
    pub fn get_slash_history(&self) -> (history: Vec<SlashRecord>)
        requires
            self.wf(),
        ensures
            slash_views(history@) == self@.records,
    {
        let n = self.records.len();
        let mut history: Vec<SlashRecord> = Vec::new();
        let mut i: usize = 0;
        while i < n
            invariant
                n == self.records@.len(),
                i <= n,
                slash_views(history@) == self@.records.subrange(0, i as int),
            decreases n - i,
        {
            assert(self@.records[i as int] == self.records@[i as int]@);
            let record = self.records[i].duplicate();
            let ghost before = history@;
            history.push(record);
            proof {
                assert(slash_views(history@) =~= slash_views(before).push(record@));
                assert(self@.records.subrange(0, i + 1) =~= self@.records.subrange(
                    0,
                    i as int,
                ).push(self@.records[i as int]));
            }
            i = i + 1;
        }
        assert(self@.records.subrange(0, n as int) =~= self@.records);
        history
    }

    /// Sum of all slash amounts in the history.
    pub fn get_total_slashed_from_history(&self) -> (total: i128)
        requires
            self.wf(),
            forall|k: int|
                0 <= k <= self@.records.len() ==> i128::MIN <= #[trigger] slashed_prefix_sum(
                    self@.records,
                    k,
                ) <= i128::MAX,
        ensures
            total == slashed_prefix_sum(self@.records, self@.records.len() as int),
    {
        let n = self.records.len();
        let mut total: i128 = 0;
        let mut i: usize = 0;
        while i < n
            invariant
                n == self.records@.len(),
                n == self@.records.len(),
                i <= n,
                total == slashed_prefix_sum(self@.records, i as int),
                forall|k: int|
                    0 <= k <= self@.records.len() ==> i128::MIN <= #[trigger] slashed_prefix_sum(
                        self@.records,
                        k,
                    ) <= i128::MAX,
            decreases n - i,
        {
            assert(self@.records[i as int] == self.records@[i as int]@);
            assert(slashed_prefix_sum(self@.records, i + 1) == slashed_prefix_sum(
                self@.records,
                i as int,
            ) + self@.records[i as int].slash_amount);
            total = total + self.records[i].slash_amount;
            i = i + 1;
        }
        total
    }
}

/// Walking the history page by page, starting at `offset` and advancing by
/// the length of each page, until an empty page is returned.
pub open spec fn walk_pages<T>(records: Seq<T>, offset: u32, limit: u32) -> Seq<T>
    decreases records.len() - offset,
{
    if offset >= records.len() || records.len() > u32::MAX {
        Seq::empty()
    } else {
        let page = page_of(records, offset, limit);
        page + walk_pages(records, (offset + page.len()) as u32, limit)
    }
}

/// A page never holds more than [`MAX_QUERY_LIMIT`] records, nor more than the
/// requested limit when that limit is not 0; it is empty exactly when
/// `offset` is at or past the end.
pub proof fn law_page_bounded<T>(records: Seq<T>, offset: u32, limit: u32)
    ensures
        page_of(records, offset, limit).len() <= MAX_QUERY_LIMIT,
        limit != 0 ==> page_of(records, offset, limit).len() <= limit,
        (page_of(records, offset, limit).len() == 0) == (offset >= records.len()),
{
}

/// Consecutive pages fit together: the page at `offset` followed by the page
/// that starts right after it is the contiguous run of records from
/// `offset`, with no gap and no duplicate.
pub proof fn law_pages_concatenate<T>(records: Seq<T>, offset: u32, limit1: u32, limit2: u32)
    requires
        offset < records.len(),
        records.len() <= u32::MAX,
    ensures
        ({
            let p1 = page_of(records, offset, limit1);
            let p2 = page_of(records, (offset + p1.len()) as u32, limit2);
            p1 + p2 == records.subrange(offset as int, offset + p1.len() + p2.len())
        }),
{
    let p1 = page_of(records, offset, limit1);
    let next = (offset + p1.len()) as u32;
    let p2 = page_of(records, next, limit2);
    if next >= records.len() {
        assert(p1 + p2 =~= p1);
    } else {
        assert(p1 + p2 =~= records.subrange(offset as int, offset + p1.len() + p2.len()));
    }
}

/// Paging through the whole history from any `offset`, as the documented
/// loop does, yields every record from `offset` on exactly once and in
/// order; from offset 0 it yields the full history.
pub proof fn law_page_walk_reassembles<T>(records: Seq<T>, offset: u32, limit: u32)
    requires
        records.len() <= u32::MAX,
        offset <= records.len(),
    ensures
        walk_pages(records, offset, limit) == records.subrange(offset as int, records.len() as int),
    decreases records.len() - offset,
{
    if offset >= records.len() {
        assert(records.subrange(offset as int, records.len() as int) =~= Seq::<T>::empty());
    } else {
        let page = page_of(records, offset, limit);
        let next = (offset + page.len()) as u32;
        law_page_walk_reassembles(records, next, limit);
        assert(page + records.subrange(next as int, records.len() as int) =~= records.subrange(
            offset as int,
            records.len() as int,
        ));
    }
}

/// Appending a record adds exactly one entry at the end: the count grows by
/// one, the new record is readable at the old count, and every earlier page
/// reads as before.
pub proof fn law_append_then_read(
    before: Seq<SlashRecordView>,
    record: SlashRecordView,
    offset: u32,
    limit: u32,
)
    requires
        offset < before.len(),
        page_in_range(before.len(), offset, limit),
        offset + effective_limit(limit) <= before.len(),
    ensures
        before.push(record).len() == before.len() + 1,
        before.push(record)[before.len() as int] == record,
        page_of(before.push(record), offset, limit) == page_of(before, offset, limit),
{
    assert(page_of(before.push(record), offset, limit) =~= page_of(before, offset, limit));
}

} // verus!
