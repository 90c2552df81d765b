//! The scheduler: the session that polls the registered schedules, the
//! handle that replaces one session by the next, and the synchroniser that
//! files finished backups under their item.

use vstd::prelude::*;
use crate::backup::backup_file;
use crate::backup::backup_folder_of;
use crate::backup::folder_pattern;
use crate::backup::is_uuid_text;
use crate::backup::plan_backup;
use crate::backup::Backup;
use crate::backup::BackupPlan;
use crate::backup::BackupView;
use crate::backup::ToastLevel;
use crate::data::item_ids;
use crate::data::AutoStatus;
use crate::data::Data;
use crate::data::SharedView;
use crate::data::SaveItem;
use crate::data::SaveItemView;
use crate::data::Status;
use crate::schedule::check_expression;
use crate::schedule::cron_accepts;
use crate::schedule::formatted_time;
use crate::schedule::invalid_text;
use crate::schedule::next_after;
use crate::schedule::occurrence_after;
use crate::schedule::InvalidExpression;
use crate::schedule::LocalInstant;
use crate::text::chain;
use crate::text::first_place;
use crate::text::opt_view;
use crate::text::lemma_filter_map_around;
use crate::text::lemma_first_place;
use crate::text::views;

verus! {

/// One backup that a session runs when its schedule falls due: the item as
/// it was when the session was set up.
#[derive(Debug, PartialEq, Eq)]
pub struct BackupJob {
    save_item: SaveItem,
}

impl View for BackupJob {
    type V = SaveItemView;

    closed spec fn view(&self) -> SaveItemView {
        self.save_item@
    }
}

impl Clone for BackupJob {
    fn clone(&self) -> (r: Self)
        ensures
            r@ == self@,
    {
        BackupJob { save_item: self.save_item.clone() }
    }
}

/// The remark that a scheduled backup is filed with.
pub open spec fn auto_remark() -> Seq<char> {
    "Auto Backup"@
}

impl BackupJob {
    /// The job that backs `save_item` up.
    pub fn new(save_item: SaveItem) -> (r: Self)
        ensures
            r@ == save_item@,
    {
        BackupJob { save_item }
    }

    /// The item that this job backs up.
    pub fn save_item(&self) -> (r: &SaveItem)
        ensures
            r@ == self@,
    {
        &self.save_item
    }

    /// Where the run that starts at the instant `at` will write: the plan of
    /// [`plan_backup`] for this job's item.
    pub fn plan(&self, root: &str, at: &LocalInstant) -> (r: Option<BackupPlan>)
        ensures
            match formatted_time(folder_pattern(), at.secs as int, at.offset as int) {
                Some(stamp) => r matches Some(p) && p@.covers(
                    backup_folder_of(root@, self@.id, stamp),
                    self@.monitors,
                ),
                None => r is None,
            },
    {
        plan_backup(root, self.save_item.id.as_str(), at, &self.save_item.monitors)
    }

    /// Closes the run: the record of the plan, filed for this job's item
    /// under the remark of scheduled backups.
    pub fn run(&self, plan: BackupPlan, copied: &Vec<bool>) -> (r: DataSignal)
        ensures
            r@ matches DataSignalView::Sync(id, backup) && {
                &&& id == self@.id
                &&& backup.datas == plan@.datas
                &&& backup.backup_folder == plan@.backup_folder
                &&& backup.remark == auto_remark()
                &&& !backup.protect
                &&& is_uuid_text(backup.id)
            },
    {
        let id = self.save_item.id.clone();
        let mut notices: Vec<(ToastLevel, String)> = Vec::new();
        let backup = backup_file("Auto Backup".to_owned(), plan, copied, &mut notices);
        DataSignal::Sync(id, backup)
    }
}

/// What a finished job, or a restart, tells the synchroniser.
#[derive(Debug, PartialEq, Eq)]
pub enum DataSignal {
    /// The session that fed this channel was replaced: stop listening.
    Terminated,
    /// A backup of the item with the given identifier has finished.
    Sync(String, Backup),
}

/// Mathematical model of a [`DataSignal`].
#[verifier::ext_equal]
pub enum DataSignalView {
    Terminated,
    Sync(Seq<char>, BackupView),
}

impl View for DataSignal {
    type V = DataSignalView;

    open spec fn view(&self) -> DataSignalView {
        match *self {
            DataSignal::Terminated => DataSignalView::Terminated,
            DataSignal::Sync(id, backup) => DataSignalView::Sync(id@, backup@),
        }
    }
}

/// Where a session stands in its life.
#[derive(Debug, PartialEq, Eq, Structural, Clone, Copy)]
pub enum SessionState {
    /// Set up, not yet polling.
    Idle,
    /// Polling its schedules.
    Running,
    /// Told to stop; it never fires again.
    Stopped,
}

/// One schedule of a session: a cron expression and the job it fires.
#[derive(Debug, PartialEq, Eq)]
struct Registration {
    expression: String,
    job: BackupJob,
}

/// Mathematical model of one schedule of a session.
#[verifier::ext_equal]
pub struct RegistrationView {
    pub expression: Seq<char>,
    pub item: SaveItemView,
}

impl View for Registration {
    type V = RegistrationView;

    closed spec fn view(&self) -> RegistrationView {
        RegistrationView { expression: self.expression@, item: self.job@ }
    }
}

/// One generation of the polling scheduler.
#[derive(Debug, PartialEq, Eq)]
pub struct CronJob {
    entries: Vec<Registration>,
    offset: Option<i32>,
    interval: u64,
    state: SessionState,
}

/// Mathematical model of a [`CronJob`].
#[verifier::ext_equal]
pub struct CronJobView {
    /// The registered schedules, in the order in which they were added.
    pub jobs: Seq<RegistrationView>,
    /// Seconds that the session's clock is ahead of UTC, where one was set.
    pub offset: Option<i32>,
    /// Milliseconds between two polls.
    pub interval: u64,
    pub state: SessionState,
}

/// Whether a schedule whose next occurrence is `next` has fallen due by the
/// instant `now`: there is an occurrence, and it is not later than `now`.
pub open spec fn reached(next: Option<int>, now: int) -> bool {
    match next {
        Some(t) => t <= now,
        None => false,
    }
}

/// Whether a schedule whose next occurrence is `next` has fallen due by the
/// instant `now`.
pub fn is_due(next: Option<i64>, now: i64) -> (r: bool)
    ensures
        r == reached(
            match next {
                Some(t) => Some(t as int),
                None => None,
            },
            now as int,
        ),
{
    match next {
        Some(t) => t <= now,
        None => false,
    }
}

/// Whether a schedule falls due in a poll: its first occurrence after
/// `before`, the instant at which the poll looked ahead, is not later than
/// `now`, the instant at which the poll woke.
pub open spec fn due_at(expression: Seq<char>, before: int, now: int, offset: int) -> bool {
    reached(occurrence_after(expression, before, offset), now)
}

/// The items of the schedules that fall due in a poll, in the order of
/// registration.
pub open spec fn due_items(jobs: Seq<RegistrationView>, before: int, now: int, offset: int) -> Seq<
    SaveItemView,
> {
    jobs.filter_map(
        |r: RegistrationView|
            if due_at(r.expression, before, now, offset) {
                Some(r.item)
            } else {
                None
            },
    )
}

impl CronJobView {
    /// The offset that the session evaluates its schedules at: UTC where
    /// none was set.
    pub open spec fn zone(self) -> int {
        match self.offset {
            Some(o) => o as int,
            None => 0,
        }
    }

    /// The session after a poll: stopped and emptied if it was running and
    /// a stop signal was waiting, else as it was.
    pub open spec fn after_tick(self, stop: bool) -> CronJobView {
        if self.state == SessionState::Running && stop {
            CronJobView { jobs: Seq::empty(), state: SessionState::Stopped, ..self }
        } else {
            self
        }
    }

    /// What a poll fires: the due items of a running session that was not
    /// told to stop, and nothing otherwise.
    pub open spec fn fired(self, stop: bool, before: int, now: int) -> Seq<SaveItemView> {
        if self.state == SessionState::Running && !stop {
            due_items(self.jobs, before, now, self.zone())
        } else {
            Seq::empty()
        }
    }
}

impl View for CronJob {
    type V = CronJobView;

    closed spec fn view(&self) -> CronJobView {
        CronJobView {
            jobs: views(self.entries@),
            offset: self.offset,
            interval: self.interval,
            state: self.state,
        }
    }
}

impl Default for CronJob {
    /// An idle session without schedules, on UTC, polling every 500 ms.
    fn default() -> (r: Self)
        ensures
            r@ == (CronJobView {
                jobs: Seq::empty(),
                offset: None,
                interval: 500,
                state: SessionState::Idle,
            }),
    {
        CronJob::new(None, 500)
    }
}

impl CronJob {
    /// An idle session without schedules.
    pub fn new(offset: Option<i32>, interval: u64) -> (r: Self)
        ensures
            r@ == (CronJobView { jobs: Seq::empty(), offset, interval, state: SessionState::Idle }),
    {
        let r = CronJob { entries: Vec::new(), offset, interval, state: SessionState::Idle };
        assert(r@.jobs =~= Seq::empty());
        r
    }

    /// Sets the time between two polls, in milliseconds.
    pub fn set_interval(&mut self, interval: u64)
        ensures
            final(self)@ == (CronJobView { interval, ..old(self)@ }),
    {
        self.interval = interval;
    }

    /// Sets the offset of the session's clock, in seconds east of UTC.
    pub fn set_offset(&mut self, offset: i32)
        ensures
            final(self)@ == (CronJobView { offset: Some(offset), ..old(self)@ }),
    {
        self.offset = Some(offset);
    }

    /// The time between two polls, in milliseconds.
    pub fn interval(&self) -> (r: u64)
        ensures
            r == self@.interval,
    {
        self.interval
    }

    /// The offset of the session's clock, where one was set.
    pub fn offset(&self) -> (r: Option<i32>)
        ensures
            r == self@.offset,
    {
        self.offset
    }

    /// Where the session stands.
    pub fn state(&self) -> (r: SessionState)
        ensures
            r == self@.state,
    {
        self.state
    }

    /// The number of registered schedules.
    pub fn len(&self) -> (r: usize)
        ensures
            r == self@.jobs.len(),
    {
        self.entries.len()
    }

    /// The registered cron expressions, in order.
    pub fn expressions(&self) -> (r: Vec<String>)
        ensures
            views(r@) == self@.jobs.map_values(|j: RegistrationView| j.expression),
    {
        let mut out: Vec<String> = Vec::new();
        let mut i: usize = 0;
        while i < self.entries.len()
            invariant
                i <= self.entries.len(),
                views(out@) =~= views(self.entries@).take(i as int).map_values(
                    |j: RegistrationView| j.expression,
                ),
            decreases self.entries.len() - i,
        {
            let ghost before = out@;
            let ghost seen = views(self.entries@).take(i as int + 1);
            assert(seen.drop_last() =~= views(self.entries@).take(i as int));
            out.push(self.entries[i].expression.clone());
            assert(views(out@) =~= views(before).push(seen.last().expression));
            i += 1;
        }
        assert(views(self.entries@).take(self.entries.len() as int) =~= views(self.entries@));
        out
    }

    /// Registers a schedule after those already there.
    pub fn new_job(&mut self, expression: &str, job: BackupJob)
        ensures
            final(self)@ == (CronJobView {
                jobs: old(self)@.jobs.push(RegistrationView { expression: expression@, item: job@ }),
                ..old(self)@
            }),
    {
        let ghost before = self.entries@;
        self.entries.push(Registration { expression: expression.to_owned(), job });
        assert(views(self.entries@) =~= views(before).push(
            RegistrationView { expression: expression@, item: job@ },
        ));
    }

    /// Stops the session for good and drops its schedules.
    pub fn stop(&mut self)
        ensures
            final(self)@ == (CronJobView {
                jobs: Seq::empty(),
                state: SessionState::Stopped,
                ..old(self)@
            }),
    {
        self.entries = Vec::new();
        self.state = SessionState::Stopped;
        assert(views(self.entries@) =~= Seq::empty());
    }

    /// Starts an idle session polling. A session that is running stays so,
    /// and one that was stopped stays stopped.
    pub fn start(&mut self)
        ensures
            final(self)@ == (CronJobView {
                state: if old(self)@.state == SessionState::Idle {
                    SessionState::Running
                } else {
                    old(self)@.state
                },
                ..old(self)@
            }),
    {
        if self.state == SessionState::Idle {
            self.state = SessionState::Running;
        }
    }

    /// One poll of the session.
    ///
    /// `stop` says whether a stop signal was waiting when the poll began,
    /// `before` is the instant at which the poll looked ahead, and `now` the
    /// instant at which it woke. A running session that was told to stop is
    /// stopped and fires nothing; otherwise a running session hands back a
    /// job for each schedule that fell due, in the order of registration. A
    /// session that is not running is left as it is and fires nothing. A
    /// poll that spans no time fires nothing either, since every occurrence
    /// looked ahead to lies after `before`.
    pub fn tick(&mut self, stop: bool, before: i64, now: i64) -> (due: Vec<BackupJob>)
        ensures
            final(self)@ == old(self)@.after_tick(stop),
            views(due@) == old(self)@.fired(stop, before as int, now as int),
            now <= before ==> due@.len() == 0,
    {
        let mut due: Vec<BackupJob> = Vec::new();
        assert(views(due@) =~= Seq::<SaveItemView>::empty());
        if self.state != SessionState::Running {
            return due;
        }
        if stop {
            self.stop();
            return due;
        }
        let offset: i32 = match self.offset {
            Some(o) => o,
            None => 0,
        };
        let ghost jobs = views(self.entries@);
        let ghost pick = |r: RegistrationView|
            if due_at(r.expression, before as int, now as int, offset as int) {
                Some(r.item)
            } else {
                None
            };
        let mut i: usize = 0;
        assert(jobs.take(0).filter_map(pick) =~= Seq::<SaveItemView>::empty());
        while i < self.entries.len()
            invariant
                i <= self.entries.len(),
                jobs == views(self.entries@),
                pick == |r: RegistrationView|
                    if due_at(r.expression, before as int, now as int, offset as int) {
                        Some(r.item)
                    } else {
                        None
                    },
                views(due@) == jobs.take(i as int).filter_map(pick),
                now <= before ==> due@.len() == 0,
            decreases self.entries.len() - i,
        {
            proof {
                jobs.lemma_filter_map_take_succ(pick, i as int);
            }
            let ghost fired = due@;
            let entry = &self.entries[i];
            let next = next_after(entry.expression.as_str(), before, offset);
            let fires = is_due(next, now);
            assert(fires == due_at(jobs[i as int].expression, before as int, now as int, offset as int));
            if fires {
                due.push(entry.job.clone());
                assert(views(due@) =~= views(fired) + seq![jobs[i as int].item]);
            } else {
                assert(views(due@) =~= views(fired) + Seq::<SaveItemView>::empty());
            }
            i += 1;
        }
        assert(jobs.take(self.entries.len() as int) =~= jobs);
        due
    }
}

/// How one item fared when a session was set up.
#[derive(Debug, PartialEq, Eq)]
pub struct StartInfo {
    /// Whether the item's schedule was accepted and registered.
    pub success: bool,
    pub save_item: SaveItem,
    /// Why the schedule was rejected.
    pub error: Option<String>,
}

/// Mathematical model of a [`StartInfo`].
#[verifier::ext_equal]
pub struct StartInfoView {
    pub success: bool,
    pub save_item: SaveItemView,
    pub error: Option<Seq<char>>,
}

impl View for StartInfo {
    type V = StartInfoView;

    open spec fn view(&self) -> StartInfoView {
        StartInfoView {
            success: self.success,
            save_item: self.save_item@,
            error: opt_view(self.error),
        }
    }
}

impl Clone for StartInfo {
    fn clone(&self) -> (r: Self)
        ensures
            r@ == self@,
    {
        StartInfo {
            success: self.success,
            save_item: self.save_item.clone(),
            error: match &self.error {
                Some(e) => Some(e.clone()),
                None => None,
            },
        }
    }
}

impl Default for StartInfo {
    fn default() -> (r: Self)
        ensures
            r@ == (StartInfoView {
                success: false,
                save_item: crate::data::blank_item(),
                error: None,
            }),
    {
        StartInfo { success: false, save_item: SaveItem::default(), error: None }
    }
}

/// Whether an item takes part in scheduling at all: it is not archived,
/// automatic backup is enabled for it, and its schedule is switched on.
pub open spec fn schedulable(item: SaveItemView) -> bool {
    &&& item.status != Status::Archive
    &&& item.auto.open
    &&& item.auto.status == AutoStatus::Running
}

/// What is reported of an item whose expression was checked: accepted
/// where the check found no fault, rejected with the fault where it found
/// one.
pub open spec fn start_info_for(item: SaveItemView, fault: Option<Seq<char>>) -> StartInfoView {
    match fault {
        None => StartInfoView { success: true, save_item: item, error: None },
        Some(text) => StartInfoView {
            success: false,
            save_item: item,
            error: Some("has err = "@ + text),
        },
    }
}

/// The fault that the parser finds in an expression, if it finds one.
pub open spec fn fault_of(expression: Seq<char>) -> Option<Seq<char>> {
    if cron_accepts(expression) {
        None
    } else {
        Some(invalid_text())
    }
}

/// The reason that a rejected schedule is reported with.
pub open spec fn rejection_text() -> Seq<char> {
    "has err = "@ + invalid_text()
}

/// How an item fares when a session is set up: nothing is reported of an
/// item that takes no part in scheduling; one whose expression parses is
/// accepted; any other is rejected with the parser's error.
pub open spec fn start_info_of(item: SaveItemView) -> Option<StartInfoView> {
    if schedulable(item) {
        Some(start_info_for(item, fault_of(item.auto.cron)))
    } else {
        None
    }
}

/// The view of the outcome of a check.
pub open spec fn fault_view(checked: Result<(), InvalidExpression>) -> Option<Seq<char>> {
    match checked {
        Ok(_) => None,
        Err(e) => Some(e.message@),
    }
}

/// What is reported of an item whose expression was checked with the
/// outcome `checked`.
pub fn start_info(item: &SaveItem, checked: &Result<(), InvalidExpression>) -> (r: StartInfo)
    ensures
        r@ == start_info_for(item@, fault_view(*checked)),
{
    match checked {
        Ok(_) => StartInfo { success: true, save_item: item.clone(), error: None },
        Err(e) => StartInfo {
            success: false,
            save_item: item.clone(),
            error: Some(chain("has err = ", e.message.as_str())),
        },
    }
}

/// The schedule that an item is registered with, if it is registered: its
/// expression, where the item takes part in scheduling and the expression
/// parses.
pub open spec fn registration_of(item: SaveItemView) -> Option<RegistrationView> {
    if schedulable(item) && cron_accepts(item.auto.cron) {
        Some(RegistrationView { expression: item.auto.cron, item })
    } else {
        None
    }
}

/// What a restart reports of a list of items, in the order of the items.
pub open spec fn start_infos_of(items: Seq<SaveItemView>) -> Seq<StartInfoView> {
    items.filter_map(|i: SaveItemView| start_info_of(i))
}

/// The schedules that a restart registers for a list of items, in the order
/// of the items.
pub open spec fn registrations_of(items: Seq<SaveItemView>) -> Seq<RegistrationView> {
    items.filter_map(|i: SaveItemView| registration_of(i))
}

/// Whether an item takes part in scheduling.
pub fn is_schedulable(item: &SaveItem) -> (r: bool)
    ensures
        r == schedulable(item@),
{
    item.status != Status::Archive && item.auto.open && item.auto.status == AutoStatus::Running
}

/// The lifecycle manager of scheduler sessions.
#[derive(Debug, PartialEq, Eq)]
pub struct JobHandle {
    live: bool,
    pub start_infos: Vec<StartInfo>,
}

/// Mathematical model of a [`JobHandle`].
#[verifier::ext_equal]
pub struct JobHandleView {
    /// Whether a session has been started and not yet told to stop.
    pub live: bool,
    /// What the last restart reported.
    pub start_infos: Seq<StartInfoView>,
}

impl View for JobHandle {
    type V = JobHandleView;

    closed spec fn view(&self) -> JobHandleView {
        JobHandleView { live: self.live, start_infos: views(self.start_infos@) }
    }
}

impl Default for JobHandle {
    fn default() -> (r: Self)
        ensures
            r@ == (JobHandleView { live: false, start_infos: Seq::empty() }),
    {
        let r = JobHandle { live: false, start_infos: Vec::new() };
        assert(r@.start_infos =~= Seq::empty());
        r
    }
}

/// What a restart hands to the threads around the scheduler.
#[derive(Debug, PartialEq, Eq)]
pub struct Restart {
    /// Whether a previous session is to be told to stop, and its
    /// synchroniser to stop listening.
    pub stop_previous: bool,
    /// The new session, running.
    pub session: CronJob,
}

impl JobHandleView {
    /// Whether `after` and `session` are what a restart with `items` makes
    /// of this handle.
    pub open spec fn restarts_to(
        self,
        items: Seq<SaveItemView>,
        after: JobHandleView,
        session: CronJobView,
    ) -> bool {
        &&& after.live
        &&& after.start_infos == start_infos_of(items)
        &&& session == (CronJobView {
            jobs: registrations_of(items),
            offset: None,
            interval: 500,
            state: SessionState::Running,
        })
    }
}

impl JobHandle {
    /// Whether a session has been started and not yet told to stop.
    pub fn is_live(&self) -> (r: bool)
        ensures
            r == self@.live,
    {
        self.live
    }

    /// Ends the live session, if there is one. Says whether there was: then
    /// the session is to be told to stop, and its synchroniser to stop
    /// listening.
    pub fn stop_job(&mut self) -> (signalled: bool)
        ensures
            signalled == old(self)@.live,
            final(self)@ == (JobHandleView { live: false, ..old(self)@ }),
    {
        let signalled = self.live;
        self.live = false;
        signalled
    }

    /// Replaces the live session by a new one for `jobs`.
    ///
    /// The previous session, if any, is ended. Each item that takes part in
    /// scheduling is reported, in order: accepted and registered with the new
    /// session where its expression parses, rejected with the parser's error
    /// where it does not. The new session is handed back running.
    pub fn start_job(&mut self, jobs: Vec<SaveItem>) -> (r: Restart)
        ensures
            r.stop_previous == old(self)@.live,
            old(self)@.restarts_to(views(jobs@), final(self)@, r.session@),
    {
        let stop_previous = self.stop_job();
        let mut session = CronJob::default();
        let mut infos: Vec<StartInfo> = Vec::new();
        let ghost items = views(jobs@);
        let ghost report = |i: SaveItemView| start_info_of(i);
        let ghost enrol = |i: SaveItemView| registration_of(i);
        assert(views(infos@) =~= items.take(0).filter_map(report));
        assert(session@.jobs =~= items.take(0).filter_map(enrol));
        let mut i: usize = 0;
        while i < jobs.len()
            invariant
                i <= jobs.len(),
                items == views(jobs@),
                report == |i: SaveItemView| start_info_of(i),
                enrol == |i: SaveItemView| registration_of(i),
                views(infos@) == items.take(i as int).filter_map(report),
                session@ == (CronJobView {
                    jobs: items.take(i as int).filter_map(enrol),
                    offset: None,
                    interval: 500,
                    state: SessionState::Idle,
                }),
            decreases jobs.len() - i,
        {
            proof {
                items.lemma_filter_map_take_succ(report, i as int);
                items.lemma_filter_map_take_succ(enrol, i as int);
            }
            let ghost told = infos@;
            let ghost enrolled = session@.jobs;
            let job = &jobs[i];
            if is_schedulable(job) {
                let checked = check_expression(job.auto.cron.as_str());
                infos.push(start_info(job, &checked));
                assert(views(infos@) =~= views(told) + seq![start_info_of(job@).unwrap()]);
                if checked.is_ok() {
                    session.new_job(job.auto.cron.as_str(), BackupJob::new(job.clone()));
                    assert(session@.jobs =~= enrolled + seq![registration_of(job@).unwrap()]);
                } else {
                    assert(session@.jobs =~= enrolled + Seq::<RegistrationView>::empty());
                }
            } else {
                assert(views(infos@) =~= views(told) + Seq::<StartInfoView>::empty());
                assert(session@.jobs =~= enrolled + Seq::<RegistrationView>::empty());
            }
            i += 1;
        }
        assert(items.take(jobs.len() as int) =~= items);
        session.start();
        self.start_infos = infos;
        self.live = true;
        Restart { stop_previous, session }
    }
}

/// A rejected schedule is reported and never registered: an item that takes
/// part in scheduling and whose expression does not parse is reported as
/// rejected, with a reason that is not empty, and the new session holds
/// exactly the schedules it would hold without that item.
pub proof fn lemma_rejected_is_reported(items: Seq<SaveItemView>, i: int)
    requires
        0 <= i < items.len(),
        schedulable(items[i]),
        !cron_accepts(items[i].auto.cron),
    ensures
        start_infos_of(items).contains(
            StartInfoView { success: false, save_item: items[i], error: Some(rejection_text()) },
        ),
        rejection_text().len() > 0,
        registrations_of(items) == registrations_of(items.remove(i)),
{
    let report = |i: SaveItemView| start_info_of(i);
    let enrol = |i: SaveItemView| registration_of(i);
    lemma_filter_map_around(items, report, i);
    lemma_filter_map_around(items, enrol, i);
    let info = StartInfoView { success: false, save_item: items[i], error: Some(rejection_text()) };
    let k = items.take(i).filter_map(report).len() as int;
    assert(start_infos_of(items)[k] == info);
    assert(items.take(i).filter_map(enrol) + Seq::<RegistrationView>::empty() =~= items.take(
        i,
    ).filter_map(enrol));
    reveal_strlit("has err = ");
}

/// Every schedule of a new session parses, and belongs to an item that
/// takes part in scheduling; and every report is about such an item.
pub proof fn lemma_only_schedulable_started(items: Seq<SaveItemView>)
    ensures
        forall|k: int|
            0 <= k < registrations_of(items).len() ==> {
                let r = #[trigger] registrations_of(items)[k];
                cron_accepts(r.expression) && schedulable(r.item) && r.expression
                    == r.item.auto.cron
            },
        forall|k: int|
            0 <= k < start_infos_of(items).len() ==> {
                let info = #[trigger] start_infos_of(items)[k];
                schedulable(info.save_item) && info.success == cron_accepts(info.save_item.auto.cron)
            },
    decreases items.len(),
{
    if items.len() > 0 {
        lemma_only_schedulable_started(items.drop_last());
    }
}

/// An item that takes no part in scheduling leaves no trace: for an item
/// that is archived, or has automatic backup disabled, or has its schedule
/// switched off, a restart reports and registers exactly what it would
/// without that item.
pub proof fn lemma_unschedulable_is_skipped(items: Seq<SaveItemView>, i: int)
    requires
        0 <= i < items.len(),
        items[i].status == Status::Archive || !items[i].auto.open || items[i].auto.status
            == AutoStatus::Stop,
    ensures
        start_infos_of(items) == start_infos_of(items.remove(i)),
        registrations_of(items) == registrations_of(items.remove(i)),
{
    let report = |i: SaveItemView| start_info_of(i);
    let enrol = |i: SaveItemView| registration_of(i);
    lemma_filter_map_around(items, report, i);
    lemma_filter_map_around(items, enrol, i);
    assert(items.take(i).filter_map(report) + Seq::<StartInfoView>::empty() =~= items.take(
        i,
    ).filter_map(report));
    assert(items.take(i).filter_map(enrol) + Seq::<RegistrationView>::empty() =~= items.take(
        i,
    ).filter_map(enrol));
}

/// Restarting twice with the same items gives the same outcome: whatever
/// the handle held before either restart, both report the same of every
/// item and set up sessions with the same schedules.
pub proof fn lemma_restart_is_repeatable(
    first: JobHandleView,
    items: Seq<SaveItemView>,
    second: JobHandleView,
    session1: CronJobView,
    third: JobHandleView,
    session2: CronJobView,
)
    requires
        first.restarts_to(items, second, session1),
        second.restarts_to(items, third, session2),
    ensures
        third.start_infos == second.start_infos,
        session2 == session1,
{
}

/// A stopped session stays stopped and never fires: whatever a later poll
/// is told, the session is left as it is and hands back no job.
pub proof fn lemma_stopped_is_terminal(session: CronJobView, stop: bool, before: int, now: int)
    requires
        session.state == SessionState::Stopped,
    ensures
        session.after_tick(stop) == session,
        session.fired(stop, before, now) == Seq::<SaveItemView>::empty(),
{
}

/// A running session that finds a stop signal waiting fires nothing in
/// that poll, and is stopped by it.
pub proof fn lemma_stop_signal_stops(session: CronJobView, before: int, now: int)
    requires
        session.state == SessionState::Running,
    ensures
        session.fired(true, before, now) == Seq::<SaveItemView>::empty(),
        session.after_tick(true).state == SessionState::Stopped,
        session.after_tick(true).jobs == Seq::<RegistrationView>::empty(),
{
}

/// The shared state after one signal. The end of the feed changes nothing.
pub open spec fn received(state: SharedView, signal: DataSignalView) -> SharedView {
    match signal {
        DataSignalView::Terminated => state,
        DataSignalView::Sync(id, backup) => state.filed(id, backup),
    }
}

/// The shared state after a feed of signals, taken in order up to the first
/// that ends the feed.
pub open spec fn received_all(state: SharedView, signals: Seq<DataSignalView>) -> SharedView
    decreases signals.len(),
{
    if signals.len() == 0 {
        state
    } else {
        match signals[0] {
            DataSignalView::Terminated => state,
            DataSignalView::Sync(id, backup) => received_all(
                state.filed(id, backup),
                signals.drop_first(),
            ),
        }
    }
}

/// What the synchroniser does after one signal.
#[derive(Debug, PartialEq, Eq, Clone, Copy)]
pub struct SyncStep {
    /// The feed has ended: stop listening.
    pub done: bool,
    /// The store has changed: persist it.
    pub persist: bool,
}

/// Takes one signal off the result channel.
///
/// A finished backup is filed in the store under its item, newest first,
/// and, where the shown item is that item, in the shown item too. The store
/// is to be persisted exactly when it held the item. The end of the feed
/// changes nothing and ends the listening.
pub fn apply_signal(data: &mut Data, active: &mut SaveItem, signal: DataSignal) -> (step: SyncStep)
    ensures
        (SharedView { store: final(data)@, active: final(active)@ }) == received(
            SharedView { store: old(data)@, active: old(active)@ },
            signal@,
        ),
        step.done == (signal@ is Terminated),
        step.persist == (signal@ matches DataSignalView::Sync(id, _) && first_place(
            item_ids(old(data)@.monitors),
            id,
        ) is Some),
{
    match signal {
        DataSignal::Terminated => SyncStep { done: true, persist: false },
        DataSignal::Sync(id, backup) => {
            let shown = active.id == id;
            let persist = if shown {
                let copy = backup.clone();
                active.prepend_backup(copy);
                data.file_backup(id.as_str(), backup)
            } else {
                data.file_backup(id.as_str(), backup)
            };
            SyncStep { done: false, persist }
        },
    }
}

/// Takes a whole feed of signals, in order, up to the first that ends it.
/// Says whether the feed was ended by a signal.
pub fn receive_data_signal(data: &mut Data, active: &mut SaveItem, signals: Vec<DataSignal>) -> (ended:
    bool)
    ensures
        (SharedView { store: final(data)@, active: final(active)@ }) == received_all(
            SharedView { store: old(data)@, active: old(active)@ },
            views(signals@),
        ),
        ended == exists|i: int| 0 <= i < signals@.len() && (#[trigger] signals@[i]@) is Terminated,
{
    let mut queue = signals;
    let ghost feed = views(queue@);
    let ghost start = SharedView { store: data@, active: active@ };
    let mut taken: usize = 0;
    let total = queue.len();
    while queue.len() > 0
        invariant
            taken + queue@.len() == total,
            total == feed.len(),
            feed == views(signals@),
            start == (SharedView { store: old(data)@, active: old(active)@ }),
            views(queue@) == feed.skip(taken as int),
            received_all(start, feed) == received_all(
                SharedView { store: data@, active: active@ },
                views(queue@),
            ),
            forall|i: int| 0 <= i < taken ==> !((#[trigger] feed[i]) is Terminated),
        decreases queue@.len(),
    {
        let ghost rest = views(queue@);
        let ghost state = SharedView { store: data@, active: active@ };
        let signal = queue.remove(0);
        assert(views(queue@) =~= rest.drop_first());
        assert(rest.drop_first() =~= feed.skip(taken as int + 1));
        assert(rest[0] == signal@ && rest[0] == feed[taken as int]);
        let step = apply_signal(data, active, signal);
        if step.done {
            assert(received_all(state, rest) == state);
            assert(signals@[taken as int]@ is Terminated);
            return true;
        }
        assert(received_all(state, rest) == received_all(received(state, rest[0]), rest.drop_first()));
        taken += 1;
    }
    assert(views(queue@) =~= Seq::<DataSignalView>::empty());
    assert forall|i: int| 0 <= i < signals@.len() implies !((#[trigger] signals@[i]@) is Terminated) by {
        assert(feed[i] == signals@[i]@);
    }
    false
}

/// The two copies stay alike: where the shown item is a copy of the stored
/// item of its identifier, it still is after any signal.
pub proof fn lemma_copies_stay_alike(state: SharedView, signal: DataSignalView, k: int)
    requires
        first_place(item_ids(state.store.monitors), state.active.id) == Some(k),
        0 <= k < state.store.monitors.len(),
        state.store.monitors[k] == state.active,
    ensures
        ({
            let next = received(state, signal);
            &&& first_place(item_ids(next.store.monitors), next.active.id) == Some(k)
            &&& next.store.monitors[k] == next.active
        }),
{
    match signal {
        DataSignalView::Terminated => {},
        DataSignalView::Sync(id, backup) => {
            let next = received(state, signal);
            lemma_first_place(item_ids(state.store.monitors), id);
            lemma_first_place(item_ids(state.store.monitors), state.active.id);
            assert(item_ids(next.store.monitors) =~= item_ids(state.store.monitors));
        },
    }
}

/// The signals of a run of finished backups of one item, in order.
pub open spec fn syncs_of(id: Seq<char>, backups: Seq<BackupView>) -> Seq<DataSignalView> {
    backups.map_values(|b: BackupView| DataSignalView::Sync(id, b))
}

/// No finished backup is lost, and the newest comes first: after a feed of
/// backups of one stored item, that item holds all of them, the last to
/// arrive in front, followed by the backups it held before; every other item
/// is as it was.
pub proof fn lemma_every_backup_lands(state: SharedView, id: Seq<char>, backups: Seq<BackupView>, k: int)
    requires
        first_place(item_ids(state.store.monitors), id) == Some(k),
        0 <= k < state.store.monitors.len(),
    ensures
        ({
            let before = state.store.monitors;
            let after = received_all(state, syncs_of(id, backups)).store.monitors;
            &&& after.len() == before.len()
            &&& after[k].backups == backups.reverse() + before[k].backups
            &&& after[k].backups.len() == before[k].backups.len() + backups.len()
            &&& forall|j: int| 0 <= j < before.len() && j != k ==> after[j] == before[j]
        }),
    decreases backups.len(),
{
    let before = state.store.monitors;
    if backups.len() == 0 {
        assert(backups.reverse() + before[k].backups =~= before[k].backups);
    } else {
        let next = state.filed(id, backups[0]);
        let feed = syncs_of(id, backups);
        assert(feed[0] == DataSignalView::Sync(id, backups[0]));
        assert(feed.drop_first() =~= syncs_of(id, backups.drop_first()));
        assert(item_ids(next.store.monitors) =~= item_ids(before));
        lemma_every_backup_lands(next, id, backups.drop_first(), k);
        let after = received_all(state, feed).store.monitors;
        assert(after[k].backups =~= backups.reverse() + before[k].backups);
    }
}

/// Nothing lands after the feed has ended: whatever follows the signal that
/// ends a feed is never filed.
pub proof fn lemma_nothing_lands_after_the_end(
    state: SharedView,
    earlier: Seq<DataSignalView>,
    later: Seq<DataSignalView>,
)
    ensures
        received_all(state, earlier + seq![DataSignalView::Terminated] + later) == received_all(
            state,
            earlier,
        ),
    decreases earlier.len(),
{
    let feed = earlier + seq![DataSignalView::Terminated] + later;
    if earlier.len() == 0 {
        assert(feed[0] == DataSignalView::Terminated);
    } else {
        assert(feed[0] == earlier[0]);
        match earlier[0] {
            DataSignalView::Terminated => {},
            DataSignalView::Sync(id, backup) => {
                assert(feed.drop_first() =~= earlier.drop_first() + seq![
                    DataSignalView::Terminated,
                ] + later);
                lemma_nothing_lands_after_the_end(
                    state.filed(id, backup),
                    earlier.drop_first(),
                    later,
                );
            },
        }
    }
}

} // verus!
