//! The page-wise transactional driver that copies legacy session records into
//! the `sessions` table.
//!
//! The driver makes no I/O of its own. It is a state machine: the caller
//! performs each [`Action`] it hands out against the database and reports the
//! result back as an [`Event`]. One run opens one transaction, reads the
//! source in pages ordered by id, inserts each page's valid rows as one batch,
//! and ends with exactly one commit or one roll-back.
use vstd::prelude::*;
use vstd::string::StringExecFns;

use crate::decode::{
    decode_record, json_string_value, lemma_blank_keys_skipped, record_outcome, session_id_of,
    OutcomeModel, RecordOutcome, SkipReason,
};
use crate::meta;
use crate::sessions::{self, rows_view, RowModel};

verus! {

/// Number of source records fetched per page.
pub const PAGE_SIZE: u64 = 100;

/// Why a migration run failed.
#[derive(Clone, Debug, PartialEq, Eq)]
pub enum MigrationError {
    /// The payload of record `record_id` is not a JSON string.
    PayloadDecode { record_id: i64, detail: String },
    /// The database reported a failure (an insert, a fetch, the commit).
    Store(String),
    /// An event came that the current phase does not expect.
    UnexpectedEvent,
}

/// Mathematical form of a [`MigrationError`].
pub enum ErrorModel {
    PayloadDecode { record_id: i64 },
    Store(Seq<char>),
    UnexpectedEvent,
}

impl View for MigrationError {
    type V = ErrorModel;

    open spec fn view(&self) -> ErrorModel {
        match self {
            MigrationError::PayloadDecode { record_id, .. } => ErrorModel::PayloadDecode {
                record_id: *record_id,
            },
            MigrationError::Store(m) => ErrorModel::Store(m@),
            MigrationError::UnexpectedEvent => ErrorModel::UnexpectedEvent,
        }
    }
}

impl MigrationError {
    /// A readable description of the failure.
    pub fn message(&self) -> (r: String)
        ensures
            r@ == match self {
                MigrationError::PayloadDecode { detail, .. } => "Failed to parse session value: "@
                    + detail@,
                MigrationError::Store(m) => m@,
                MigrationError::UnexpectedEvent => "unexpected event for the migration's current phase"@,
            },
    {
        match self {
            MigrationError::PayloadDecode { detail, .. } => {
                let mut m = String::from_str("Failed to parse session value: ");
                m.append(detail.as_str());
                m
            },
            MigrationError::Store(m) => m.clone(),
            MigrationError::UnexpectedEvent => String::from_str(
                "unexpected event for the migration's current phase",
            ),
        }
    }
}

/// Where a run stands.
#[derive(Clone, Copy, Debug, PartialEq, Eq, Structural)]
pub enum Phase {
    /// Waiting for the transaction to open.
    AwaitingBegin,
    /// Waiting for the next page of source records.
    AwaitingPage,
    /// Waiting for a batch insert to finish.
    AwaitingInsert,
    /// Waiting for the commit to finish.
    AwaitingCommit,
    /// The transaction committed: the run is over.
    Committed,
    /// The transaction was rolled back: the run is over.
    RolledBack,
}

/// What the database reported after an [`Action`].
pub enum Event {
    /// The transaction is open.
    Begun,
    /// The next page of source records, ordered by ascending id; empty when
    /// the source is exhausted.
    PageFetched(Vec<meta::Model>),
    /// The last batch was inserted.
    BatchInserted,
    /// The transaction committed.
    Committed,
    /// The last action failed, with the database's message.
    StoreFailed(String),
}

/// Mathematical form of an [`Event`].
pub enum EventModel {
    Begun,
    PageFetched(Seq<meta::Model>),
    BatchInserted,
    Committed,
    StoreFailed(Seq<char>),
}

impl View for Event {
    type V = EventModel;

    open spec fn view(&self) -> EventModel {
        match self {
            Event::Begun => EventModel::Begun,
            Event::PageFetched(p) => EventModel::PageFetched(p@),
            Event::BatchInserted => EventModel::BatchInserted,
            Event::Committed => EventModel::Committed,
            Event::StoreFailed(m) => EventModel::StoreFailed(m@),
        }
    }
}

/// What the caller must do next.
#[derive(Debug)]
pub enum Action {
    /// Open the transaction.
    BeginTransaction,
    /// Fetch up to `limit` records of `category` with an id above `after_id`
    /// (all of them when `None`), ordered by ascending id.
    FetchPage { category: String, after_id: Option<i64>, limit: u64 },
    /// Insert these rows as one batch, inside the transaction.
    InsertBatch(Vec<sessions::Model>),
    /// Commit the transaction.
    Commit,
    /// Roll the transaction back (if it is open) and report the failure.
    RollBack(MigrationError),
    /// Nothing is left to do.
    Finished,
}

/// Mathematical form of an [`Action`].
pub enum ActionModel {
    BeginTransaction,
    FetchPage { category: Seq<char>, after_id: Option<i64>, limit: u64 },
    InsertBatch(Seq<RowModel>),
    Commit,
    RollBack(ErrorModel),
    Finished,
}

impl View for Action {
    type V = ActionModel;

    open spec fn view(&self) -> ActionModel {
        match self {
            Action::BeginTransaction => ActionModel::BeginTransaction,
            Action::FetchPage { category, after_id, limit } => ActionModel::FetchPage {
                category: category@,
                after_id: *after_id,
                limit: *limit,
            },
            Action::InsertBatch(rows) => ActionModel::InsertBatch(rows_view(rows@)),
            Action::Commit => ActionModel::Commit,
            Action::RollBack(e) => ActionModel::RollBack(e@),
            Action::Finished => ActionModel::Finished,
        }
    }
}

/// Mathematical form of a run: its phase, the id of the last source record
/// read, the rows inserted so far inside the transaction, and the rows of the
/// batch being inserted.
pub struct MigrationModel {
    pub phase: Phase,
    pub cursor: Option<i64>,
    pub staged: Seq<RowModel>,
    pub in_flight: Seq<RowModel>,
}

/// The rows that a page yields, all stamped with `now`, or the id of the
/// first record whose payload could not be decoded.
pub open spec fn page_rows(page: Seq<meta::Model>, now: i64) -> Result<Seq<RowModel>, i64>
    decreases page.len(),
{
    if page.len() == 0 {
        Ok(Seq::empty())
    } else {
        match page_rows(page.drop_last(), now) {
            Err(id) => Err(id),
            Ok(rows) => match record_outcome(page.last()) {
                OutcomeModel::Session { session_id, access_token } => Ok(
                    rows.push(
                        RowModel { session_id, access_token, created_at: now, updated_at: now },
                    ),
                ),
                OutcomeModel::Skipped(_) => Ok(rows),
                OutcomeModel::Fatal { record_id } => Err(record_id),
            },
        }
    }
}

/// The run after `m` with a new phase, its rows unchanged.
pub open spec fn with_phase(m: MigrationModel, phase: Phase) -> MigrationModel {
    MigrationModel { phase, ..m }
}

/// The action that asks for the page of session records after `cursor`.
pub open spec fn fetch_after(cursor: Option<i64>) -> ActionModel {
    ActionModel::FetchPage { category: meta::SESSIONS_CATEGORY@, after_id: cursor, limit: PAGE_SIZE }
}

fn fetch_action(cursor: Option<i64>) -> (r: Action)
    ensures
        r@ == fetch_after(cursor),
{
    Action::FetchPage {
        category: String::from_str(meta::SESSIONS_CATEGORY),
        after_id: cursor,
        limit: PAGE_SIZE,
    }
}

/// One step of a run: the next state and the action, given the event and the
/// time at which it is handled.
pub open spec fn step(m: MigrationModel, e: EventModel, now: i64) -> (MigrationModel, ActionModel) {
    match m.phase {
        Phase::Committed | Phase::RolledBack => (m, ActionModel::Finished),
        _ => match e {
            EventModel::StoreFailed(msg) => (
                with_phase(m, Phase::RolledBack),
                ActionModel::RollBack(ErrorModel::Store(msg)),
            ),
            EventModel::Begun if m.phase == Phase::AwaitingBegin => (
                with_phase(m, Phase::AwaitingPage),
                fetch_after(m.cursor),
            ),
            EventModel::PageFetched(page) if m.phase == Phase::AwaitingPage => if page.len() == 0 {
                (with_phase(m, Phase::AwaitingCommit), ActionModel::Commit)
            } else {
                match page_rows(page, now) {
                    Err(id) => (
                        with_phase(m, Phase::RolledBack),
                        ActionModel::RollBack(ErrorModel::PayloadDecode { record_id: id }),
                    ),
                    Ok(rows) => {
                        let cursor = Some(page.last().id);
                        if rows.len() == 0 {
                            (
                                MigrationModel { cursor, ..m },
                                fetch_after(cursor),
                            )
                        } else {
                            (
                                MigrationModel {
                                    phase: Phase::AwaitingInsert,
                                    cursor,
                                    in_flight: rows,
                                    ..m
                                },
                                ActionModel::InsertBatch(rows),
                            )
                        }
                    },
                }
            },
            EventModel::BatchInserted if m.phase == Phase::AwaitingInsert => (
                MigrationModel {
                    phase: Phase::AwaitingPage,
                    staged: m.staged + m.in_flight,
                    in_flight: Seq::empty(),
                    ..m
                },
                fetch_after(m.cursor),
            ),
            EventModel::Committed if m.phase == Phase::AwaitingCommit => (
                with_phase(m, Phase::Committed),
                ActionModel::Finished,
            ),
            _ => (
                with_phase(m, Phase::RolledBack),
                ActionModel::RollBack(ErrorModel::UnexpectedEvent),
            ),
        },
    }
}

/// The rows that a run leaves in the database: those of its transaction once
/// it committed, none otherwise.
pub open spec fn persisted(m: MigrationModel) -> Seq<RowModel> {
    if m.phase == Phase::Committed {
        m.staged
    } else {
        Seq::empty()
    }
}

proof fn lemma_page_rows_error_stays(page: Seq<meta::Model>, i: int, now: i64)
    requires
        0 <= i <= page.len(),
        page_rows(page.take(i), now) is Err,
    ensures
        page_rows(page, now) == page_rows(page.take(i), now),
    decreases page.len() - i,
{
    if i < page.len() {
        assert(page.take(i + 1).drop_last() =~= page.take(i));
        lemma_page_rows_error_stays(page, i + 1, now);
    } else {
        assert(page.take(i) =~= page);
    }
}

/// Decodes one page into the rows to insert, all stamped with `now`; fails on
/// the first record whose payload is not a JSON string.
pub fn page_batch(page: &Vec<meta::Model>, now: i64) -> (r: Result<Vec<sessions::Model>, MigrationError>)
    ensures
        match r {
            Ok(rows) => page_rows(page@, now) == Ok::<Seq<RowModel>, i64>(rows_view(rows@)),
            Err(e) => e is PayloadDecode && page_rows(page@, now) == Err::<Seq<RowModel>, i64>(
                e->PayloadDecode_record_id,
            ),
        },
{
    let mut rows: Vec<sessions::Model> = Vec::new();
    let mut i: usize = 0;
    assert(page@.take(0) =~= Seq::<meta::Model>::empty());
    assert(rows_view(rows@) =~= Seq::<RowModel>::empty());
    while i < page.len()
        invariant
            0 <= i <= page@.len(),
            page_rows(page@.take(i as int), now) == Ok::<Seq<RowModel>, i64>(rows_view(rows@)),
        decreases page@.len() - i,
    {
        let rec = &page[i];
        let outcome = decode_record(rec);
        assert(page@.take(i as int + 1).drop_last() =~= page@.take(i as int));
        match outcome {
            RecordOutcome::Session { session_id, access_token } => {
                let ghost before = rows@;
                rows.push(
                    sessions::Model { session_id, access_token, created_at: now, updated_at: now },
                );
                assert(rows_view(rows@) =~= rows_view(before).push(rows@.last()@));
            },
            RecordOutcome::Skipped(_) => {},
            RecordOutcome::Fatal { record_id, detail } => {
                proof {
                    lemma_page_rows_error_stays(page@, i as int + 1, now);
                }
                return Err(MigrationError::PayloadDecode { record_id, detail });
            },
        }
        i = i + 1;
    }
    assert(page@.take(i as int) =~= page@);
    Ok(rows)
}

/// A migration run of legacy session records into the `sessions` table.
pub struct Migration {
    phase: Phase,
    cursor: Option<i64>,
    staged: Ghost<Seq<RowModel>>,
    in_flight: Ghost<Seq<RowModel>>,
}

impl View for Migration {
    type V = MigrationModel;

    closed spec fn view(&self) -> MigrationModel {
        MigrationModel {
            phase: self.phase,
            cursor: self.cursor,
            staged: self.staged@,
            in_flight: self.in_flight@,
        }
    }
}

impl Migration {
    /// A run that has not started; its first action is [`Action::BeginTransaction`].
    pub fn new() -> (r: Migration)
        ensures
            r@ == (MigrationModel {
                phase: Phase::AwaitingBegin,
                cursor: None,
                staged: Seq::empty(),
                in_flight: Seq::empty(),
            }),
    {
        Migration {
            phase: Phase::AwaitingBegin,
            cursor: None,
            staged: Ghost(Seq::empty()),
            in_flight: Ghost(Seq::empty()),
        }
    }

    /// The first action of a run.
    pub fn start(&self) -> (r: Action)
        ensures
            self@.phase == Phase::AwaitingBegin ==> r@ == ActionModel::BeginTransaction,
            self@.phase != Phase::AwaitingBegin ==> r@ == ActionModel::Finished,
    {
        if self.phase == Phase::AwaitingBegin {
            Action::BeginTransaction
        } else {
            Action::Finished
        }
    }

    /// Where the run stands.
    pub fn phase(&self) -> (r: Phase)
        ensures
            r == self@.phase,
    {
        self.phase
    }

    /// Whether the run is over, committed or rolled back.
    pub fn is_finished(&self) -> (r: bool)
        ensures
            r == (self@.phase == Phase::Committed || self@.phase == Phase::RolledBack),
    {
        self.phase == Phase::Committed || self.phase == Phase::RolledBack
    }

    /// Handles `event`, which came at time `now` (microseconds since the
    /// epoch); `now` stamps the rows of a page.
    pub fn on_event_at(&mut self, event: Event, now: i64) -> (r: Action)
        ensures
            (final(self)@, r@) == step(old(self)@, event@, now),
    {
        if self.phase == Phase::Committed || self.phase == Phase::RolledBack {
            return Action::Finished;
        }
        match event {
            Event::StoreFailed(msg) => {
                self.phase = Phase::RolledBack;
                Action::RollBack(MigrationError::Store(msg))
            },
            Event::Begun if self.phase == Phase::AwaitingBegin => {
                self.phase = Phase::AwaitingPage;
                fetch_action(self.cursor)
            },
            Event::PageFetched(page) if self.phase == Phase::AwaitingPage => {
                if page.len() == 0 {
                    self.phase = Phase::AwaitingCommit;
                    return Action::Commit;
                }
                match page_batch(&page, now) {
                    Err(e) => {
                        self.phase = Phase::RolledBack;
                        Action::RollBack(e)
                    },
                    Ok(rows) => {
                        self.cursor = Some(page[page.len() - 1].id);
                        if rows.len() == 0 {
                            fetch_action(self.cursor)
                        } else {
                            self.phase = Phase::AwaitingInsert;
                            self.in_flight = Ghost(rows_view(rows@));
                            Action::InsertBatch(rows)
                        }
                    },
                }
            },
            Event::BatchInserted if self.phase == Phase::AwaitingInsert => {
                self.phase = Phase::AwaitingPage;
                self.staged = Ghost(self.staged@ + self.in_flight@);
                self.in_flight = Ghost(Seq::empty());
                fetch_action(self.cursor)
            },
            Event::Committed if self.phase == Phase::AwaitingCommit => {
                self.phase = Phase::Committed;
                Action::Finished
            },
            _ => {
                self.phase = Phase::RolledBack;
                Action::RollBack(MigrationError::UnexpectedEvent)
            },
        }
    }

}

/// A record with both key slots empty adds no row to its page and raises no
/// error: the page yields what it yields without it.
pub proof fn lemma_blank_keys_add_nothing(page: Seq<meta::Model>, rec: meta::Model, now: i64)
    requires
        rec.key1@.len() == 0,
        rec.key2@.len() == 0,
    ensures
        page_rows(page.push(rec), now) == page_rows(page, now),
{
    lemma_blank_keys_skipped(rec);
    assert(page.push(rec).drop_last() =~= page);
}

/// Every row that a page yields carries `now` as both its creation and its
/// update time, and a page yields at most one row per record.
pub proof fn lemma_page_rows_stamped(page: Seq<meta::Model>, now: i64)
    requires
        page_rows(page, now) is Ok,
    ensures
        page_rows(page, now)->Ok_0.len() <= page.len(),
        forall|j: int|
            0 <= j < page_rows(page, now)->Ok_0.len() ==> {
                let row = #[trigger] page_rows(page, now)->Ok_0[j];
                row.created_at == now && row.updated_at == now
            },
    decreases page.len(),
{
    if page.len() > 0 {
        lemma_page_rows_stamped(page.drop_last(), now);
    }
}

proof fn lemma_undecodable_record_fails_page(page: Seq<meta::Model>, i: int, now: i64)
    requires
        0 <= i < page.len(),
        page[i].module@ == meta::SESSIONS_CATEGORY@,
        session_id_of(page[i].key1@, page[i].key2@).len() > 0,
        json_string_value(page[i].value@) is None,
    ensures
        page_rows(page, now) is Err,
{
    let pre = page.take(i + 1);
    assert(pre.drop_last() =~= page.take(i));
    assert(pre.last() == page[i]);
    lemma_page_rows_error_stays(page, i + 1, now);
}

/// A page holding a record with an identifier and a payload that is not a
/// JSON string ends the run: the transaction is rolled back, rows inserted
/// from earlier pages included, and nothing persists.
pub proof fn lemma_undecodable_payload_rolls_back(
    m: MigrationModel,
    page: Seq<meta::Model>,
    i: int,
    now: i64,
)
    requires
        m.phase == Phase::AwaitingPage,
        0 <= i < page.len(),
        page[i].module@ == meta::SESSIONS_CATEGORY@,
        session_id_of(page[i].key1@, page[i].key2@).len() > 0,
        json_string_value(page[i].value@) is None,
    ensures
        step(m, EventModel::PageFetched(page), now).0.phase == Phase::RolledBack,
        step(m, EventModel::PageFetched(page), now).1 matches ActionModel::RollBack(
            ErrorModel::PayloadDecode { .. },
        ),
        persisted(step(m, EventModel::PageFetched(page), now).0) == Seq::<RowModel>::empty(),
{
    lemma_undecodable_record_fails_page(page, i, now);
}

/// A finished run, committed or rolled back, ignores every later event: it
/// neither commits again nor changes what persists.
pub proof fn lemma_finished_run_is_final(m: MigrationModel, e: EventModel, now: i64)
    requires
        m.phase == Phase::Committed || m.phase == Phase::RolledBack,
    ensures
        step(m, e, now) == (m, ActionModel::Finished),
        persisted(step(m, e, now).0) == persisted(m),
{
}

/// A failure that the database reports while the transaction is open (such
/// as a duplicate `session_id` rejected by the unique index on a rerun) rolls
/// the whole run back: nothing of it persists.
pub proof fn lemma_store_failure_rolls_back(m: MigrationModel, msg: Seq<char>, now: i64)
    requires
        m.phase != Phase::Committed,
        m.phase != Phase::RolledBack,
    ensures
        step(m, EventModel::StoreFailed(msg), now) == (
            with_phase(m, Phase::RolledBack),
            ActionModel::RollBack(ErrorModel::Store(msg)),
        ),
        persisted(step(m, EventModel::StoreFailed(msg), now).0) == Seq::<RowModel>::empty(),
{
}

/// A run moves to [`Phase::AwaitingCommit`] only when the source is
/// exhausted: a page came back empty.
pub proof fn lemma_commit_follows_exhausted_source(m: MigrationModel, e: EventModel, now: i64)
    requires
        m.phase != Phase::AwaitingCommit,
        step(m, e, now).0.phase == Phase::AwaitingCommit,
    ensures
        m.phase == Phase::AwaitingPage,
        e matches EventModel::PageFetched(page) && page.len() == 0,
{
}

/// A run commits only from [`Phase::AwaitingCommit`], on the database's
/// confirmation, and what then persists is every batch it inserted.
pub proof fn lemma_commit_persists_staged(m: MigrationModel, e: EventModel, now: i64)
    requires
        m.phase != Phase::Committed,
        step(m, e, now).0.phase == Phase::Committed,
    ensures
        m.phase == Phase::AwaitingCommit,
        e == EventModel::Committed,
        persisted(step(m, e, now).0) == m.staged,
{
}

/// The state after handling `events` in order, each with the time at which
/// it came.
pub open spec fn run(m: MigrationModel, events: Seq<(EventModel, i64)>) -> MigrationModel
    decreases events.len(),
{
    if events.len() == 0 {
        m
    } else {
        run(step(m, events[0].0, events[0].1).0, events.drop_first())
    }
}

proof fn lemma_run_split(m: MigrationModel, events: Seq<(EventModel, i64)>, k: int)
    requires
        0 <= k <= events.len(),
    ensures
        run(m, events) == run(run(m, events.take(k)), events.skip(k)),
    decreases k,
{
    if k > 0 {
        let m1 = step(m, events[0].0, events[0].1).0;
        lemma_run_split(m1, events.drop_first(), k - 1);
        assert(events.take(k).drop_first() =~= events.drop_first().take(k - 1));
        assert(events.skip(k) =~= events.drop_first().skip(k - 1));
        assert(events.take(k)[0] == events[0]);
    } else {
        assert(events.skip(0) =~= events);
        assert(events.take(0) =~= Seq::<(EventModel, i64)>::empty());
    }
}

proof fn lemma_run_through(m: MigrationModel, events: Seq<(EventModel, i64)>, k: int)
    requires
        0 <= k < events.len(),
    ensures
        run(m, events) == run(
            step(run(m, events.take(k)), events[k].0, events[k].1).0,
            events.skip(k + 1),
        ),
{
    lemma_run_split(m, events, k);
    let rest = events.skip(k);
    assert(rest[0] == events[k]);
    assert(rest.drop_first() =~= events.skip(k + 1));
}

proof fn lemma_run_finished(m: MigrationModel, events: Seq<(EventModel, i64)>)
    requires
        m.phase == Phase::Committed || m.phase == Phase::RolledBack,
    ensures
        run(m, events) == m,
    decreases events.len(),
{
    if events.len() > 0 {
        lemma_run_finished(m, events.drop_first());
    }
}

/// Once any step of a run rolls it back, the run ends rolled back whatever
/// events follow, and none of its rows persist, those of earlier batches
/// included.
pub proof fn lemma_rolled_back_run_persists_nothing(
    m: MigrationModel,
    events: Seq<(EventModel, i64)>,
    k: int,
)
    requires
        0 <= k < events.len(),
        step(run(m, events.take(k)), events[k].0, events[k].1).0.phase == Phase::RolledBack,
    ensures
        run(m, events).phase == Phase::RolledBack,
        persisted(run(m, events)) == Seq::<RowModel>::empty(),
{
    lemma_run_through(m, events, k);
    lemma_run_finished(
        step(run(m, events.take(k)), events[k].0, events[k].1).0,
        events.skip(k + 1),
    );
}

/// A run in which some page holds a session record with an identifier and a
/// payload that is not a JSON string ends rolled back, and nothing of it
/// persists, whatever earlier pages inserted and whatever events follow.
pub proof fn lemma_run_with_undecodable_payload_persists_nothing(
    m: MigrationModel,
    events: Seq<(EventModel, i64)>,
    k: int,
    page: Seq<meta::Model>,
    i: int,
)
    requires
        0 <= k < events.len(),
        run(m, events.take(k)).phase == Phase::AwaitingPage,
        events[k].0 == EventModel::PageFetched(page),
        0 <= i < page.len(),
        page[i].module@ == meta::SESSIONS_CATEGORY@,
        session_id_of(page[i].key1@, page[i].key2@).len() > 0,
        json_string_value(page[i].value@) is None,
    ensures
        run(m, events).phase == Phase::RolledBack,
        persisted(run(m, events)) == Seq::<RowModel>::empty(),
{
    lemma_undecodable_payload_rolls_back(run(m, events.take(k)), page, i, events[k].1);
    lemma_rolled_back_run_persists_nothing(m, events, k);
}

/// A run in which the database reports a failure while the transaction is
/// open (such as the unique index rejecting a `session_id` that an earlier
/// run already copied) ends rolled back, and nothing of it persists: rows are
/// never duplicated.
pub proof fn lemma_run_with_store_failure_persists_nothing(
    m: MigrationModel,
    events: Seq<(EventModel, i64)>,
    k: int,
    msg: Seq<char>,
)
    requires
        0 <= k < events.len(),
        run(m, events.take(k)).phase != Phase::Committed,
        run(m, events.take(k)).phase != Phase::RolledBack,
        events[k].0 == EventModel::StoreFailed(msg),
    ensures
        run(m, events).phase == Phase::RolledBack,
        persisted(run(m, events)) == Seq::<RowModel>::empty(),
{
    lemma_rolled_back_run_persists_nothing(m, events, k);
}

/// Two states of a run that differ at most in their cursor.
pub open spec fn same_progress(a: MigrationModel, b: MigrationModel) -> bool {
    a.phase == b.phase && a.staged == b.staged && a.in_flight == b.in_flight
}

proof fn lemma_step_same_progress(a: MigrationModel, b: MigrationModel, e: EventModel, now: i64)
    requires
        same_progress(a, b),
    ensures
        same_progress(step(a, e, now).0, step(b, e, now).0),
{
}

proof fn lemma_run_same_progress(
    a: MigrationModel,
    b: MigrationModel,
    events: Seq<(EventModel, i64)>,
)
    requires
        same_progress(a, b),
    ensures
        same_progress(run(a, events), run(b, events)),
    decreases events.len(),
{
    if events.len() > 0 {
        lemma_step_same_progress(a, b, events[0].0, events[0].1);
        lemma_run_same_progress(
            step(a, events[0].0, events[0].1).0,
            step(b, events[0].0, events[0].1).0,
            events.drop_first(),
        );
    }
}

proof fn lemma_page_rows_without_blank(page: Seq<meta::Model>, j: int, now: i64)
    requires
        0 <= j < page.len(),
        page[j].key1@.len() == 0,
        page[j].key2@.len() == 0,
    ensures
        page_rows(page, now) == page_rows(page.remove(j), now),
    decreases page.len(),
{
    lemma_blank_keys_skipped(page[j]);
    if j == page.len() - 1 {
        assert(page.remove(j) =~= page.drop_last());
    } else {
        lemma_page_rows_without_blank(page.drop_last(), j, now);
        assert(page.remove(j).drop_last() =~= page.drop_last().remove(j));
        assert(page.remove(j).last() == page.last());
    }
}

/// A record with both key slots empty, added anywhere in a non-empty page of
/// a run, changes neither how the run ends nor the rows that persist: it
/// creates no row and raises no error.
pub proof fn lemma_run_ignores_blank_record(
    m: MigrationModel,
    events: Seq<(EventModel, i64)>,
    k: int,
    page: Seq<meta::Model>,
    j: int,
    rec: meta::Model,
)
    requires
        0 <= k < events.len(),
        events[k].0 == EventModel::PageFetched(page),
        page.len() > 0,
        0 <= j <= page.len(),
        rec.key1@.len() == 0,
        rec.key2@.len() == 0,
    ensures
        ({
            let with_rec = events.update(k, (EventModel::PageFetched(page.insert(j, rec)), events[k].1));
            &&& run(m, with_rec).phase == run(m, events).phase
            &&& persisted(run(m, with_rec)) == persisted(run(m, events))
        }),
{
    let now = events[k].1;
    let page2 = page.insert(j, rec);
    let with_rec = events.update(k, (EventModel::PageFetched(page2), now));
    assert(page2[j] == rec);
    assert(page2.remove(j) =~= page);
    lemma_page_rows_without_blank(page2, j, now);
    lemma_run_through(m, events, k);
    lemma_run_through(m, with_rec, k);
    assert(with_rec.take(k) =~= events.take(k));
    assert(with_rec.skip(k + 1) =~= events.skip(k + 1));
    let x = run(m, events.take(k));
    assert(same_progress(
        step(x, EventModel::PageFetched(page), now).0,
        step(x, EventModel::PageFetched(page2), now).0,
    ));
    lemma_run_same_progress(
        step(x, EventModel::PageFetched(page), now).0,
        step(x, EventModel::PageFetched(page2), now).0,
        events.skip(k + 1),
    );
}

/// The records of a page that the decoder drops, with the reason, in order.
pub open spec fn page_skips(page: Seq<meta::Model>) -> Seq<(i64, SkipReason)>
    decreases page.len(),
{
    if page.len() == 0 {
        Seq::empty()
    } else {
        match record_outcome(page.last()) {
            OutcomeModel::Skipped(reason) => page_skips(page.drop_last()).push(
                (page.last().id, reason),
            ),
            _ => page_skips(page.drop_last()),
        }
    }
}

/// Lists the records of a page that the decoder drops, with the reason, so
/// that they can be reported as warnings.
pub fn skipped_records(page: &Vec<meta::Model>) -> (r: Vec<(i64, SkipReason)>)
    ensures
        r@ == page_skips(page@),
{
    let mut r: Vec<(i64, SkipReason)> = Vec::new();
    let mut i: usize = 0;
    assert(page@.take(0) =~= Seq::<meta::Model>::empty());
    while i < page.len()
        invariant
            0 <= i <= page@.len(),
            r@ == page_skips(page@.take(i as int)),
        decreases page@.len() - i,
    {
        let rec = &page[i];
        let outcome = decode_record(rec);
        assert(page@.take(i as int + 1).drop_last() =~= page@.take(i as int));
        if let RecordOutcome::Skipped(reason) = outcome {
            r.push((rec.id, reason));
        }
        i = i + 1;
    }
    assert(page@.take(i as int) =~= page@);
    r
}

} // verus!
