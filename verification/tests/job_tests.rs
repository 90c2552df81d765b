use auto_backup::backup::Backup;
use auto_backup::backup::BackupData;
use auto_backup::backup::BackupPlan;
use auto_backup::data::Auto;
use auto_backup::data::AutoStatus;
use auto_backup::data::Data;
use auto_backup::data::FileType;
use auto_backup::data::Monitor;
use auto_backup::data::SaveItem;
use auto_backup::data::Status;
use auto_backup::job::apply_signal;
use auto_backup::job::is_due;
use auto_backup::job::is_schedulable;
use auto_backup::job::start_info;
use auto_backup::job::receive_data_signal;
use auto_backup::job::BackupJob;
use auto_backup::job::CronJob;
use auto_backup::job::DataSignal;
use auto_backup::job::JobHandle;
use auto_backup::job::SessionState;
use auto_backup::job::StartInfo;
use auto_backup::job::SyncStep;
use auto_backup::schedule::InvalidExpression;
use auto_backup::schedule::LocalInstant;

// 2024-01-01T00:00:00Z
const NEW_YEAR: i64 = 1_704_067_200;

fn scheduled(id: &str, cron: &str) -> SaveItem {
    let mut it = SaveItem::with_id(id.to_string());
    it.name = format!("item {}", id);
    it.auto = Auto { cron: cron.to_string(), status: AutoStatus::Running, open: true };
    it
}

fn backup(id: &str) -> Backup {
    Backup::with_identity(id.to_string(), 7, vec![], format!("/b/{}", id), "".to_string())
}

fn ids(jobs: &Vec<BackupJob>) -> Vec<String> {
    jobs.iter().map(|j| j.save_item().id.clone()).collect()
}

#[test]
fn a_new_handle_is_not_live() {
    let handle = JobHandle::default();
    assert!(!handle.is_live());
    assert!(handle.start_infos.is_empty());
}

#[test]
fn start_job_accepts_an_expression_that_parses() {
    let mut handle = JobHandle::default();
    let restart = handle.start_job(vec![scheduled("a", "0 30 * * * *")]);
    assert!(!restart.stop_previous);
    assert!(handle.is_live());
    assert_eq!(
        handle.start_infos,
        vec![StartInfo { success: true, save_item: scheduled("a", "0 30 * * * *"), error: None }]
    );
    assert_eq!(restart.session.state(), SessionState::Running);
    assert_eq!(restart.session.len(), 1);
    assert_eq!(restart.session.expressions(), vec!["0 30 * * * *"]);
    assert_eq!(restart.session.interval(), 500);
    assert_eq!(restart.session.offset(), None);
}

#[test]
fn start_job_rejects_an_expression_that_does_not_parse() {
    let mut handle = JobHandle::default();
    let restart = handle.start_job(vec![scheduled("a", "whenever")]);
    assert_eq!(
        handle.start_infos,
        vec![StartInfo {
            success: false,
            save_item: scheduled("a", "whenever"),
            error: Some("has err = Invalid expression: Invalid cron expression.".to_string()),
        }]
    );
    assert_eq!(restart.session.len(), 0);
    assert_eq!(restart.session.state(), SessionState::Running);
}

#[test]
fn start_job_skips_items_that_take_no_part() {
    let mut archived = scheduled("a", "0 30 * * * *");
    archived.status = Status::Archive;
    let mut disabled = scheduled("b", "0 30 * * * *");
    disabled.auto.open = false;
    let mut stopped = scheduled("c", "0 30 * * * *");
    stopped.auto.status = AutoStatus::Stop;
    let mut broken_and_stopped = scheduled("d", "whenever");
    broken_and_stopped.auto.status = AutoStatus::Stop;
    let mut handle = JobHandle::default();
    let restart = handle.start_job(vec![archived, disabled, stopped, broken_and_stopped]);
    assert!(handle.start_infos.is_empty());
    assert_eq!(restart.session.len(), 0);
}

#[test]
fn start_job_schedules_a_deleted_item_that_still_runs() {
    let mut deleted = scheduled("a", "0 30 * * * *");
    deleted.status = Status::Delete;
    assert!(is_schedulable(&deleted));
}

#[test]
fn start_job_keeps_the_order_of_the_items() {
    let mut skipped = scheduled("b", "0 30 * * * *");
    skipped.auto.open = false;
    let items = vec![
        scheduled("a", "0 30 * * * *"),
        skipped,
        scheduled("c", "whenever"),
        scheduled("d", "*/5 * * * * *"),
    ];
    let mut handle = JobHandle::default();
    let restart = handle.start_job(items);
    let seen: Vec<(String, bool)> =
        handle.start_infos.iter().map(|i| (i.save_item.id.clone(), i.success)).collect();
    assert_eq!(
        seen,
        vec![("a".to_string(), true), ("c".to_string(), false), ("d".to_string(), true)]
    );
    assert_eq!(restart.session.expressions(), vec!["0 30 * * * *", "*/5 * * * * *"]);
}

#[test]
fn restarting_twice_gives_the_same_outcome() {
    let items = vec![scheduled("a", "0 30 * * * *"), scheduled("b", "whenever")];
    let mut handle = JobHandle::default();
    let first = handle.start_job(items.clone());
    let first_infos = handle.start_infos.clone();
    let second = handle.start_job(items);
    assert_eq!(handle.start_infos, first_infos);
    assert_eq!(first.session, second.session);
    assert!(!first.stop_previous);
    assert!(second.stop_previous);
}

#[test]
fn stop_job_says_whether_a_session_was_live() {
    let mut handle = JobHandle::default();
    assert!(!handle.stop_job());
    let _ = handle.start_job(vec![]);
    assert!(handle.stop_job());
    assert!(!handle.is_live());
    assert!(!handle.stop_job());
}

#[test]
fn a_new_session_is_idle() {
    let session = CronJob::new(Some(3600), 250);
    assert_eq!(session.state(), SessionState::Idle);
    assert_eq!(session.offset(), Some(3600));
    assert_eq!(session.interval(), 250);
    assert_eq!(session.len(), 0);
    let d = CronJob::default();
    assert_eq!(d.interval(), 500);
    assert_eq!(d.offset(), None);
    assert_eq!(d.state(), SessionState::Idle);
}

#[test]
fn setters_change_one_thing() {
    let mut session = CronJob::default();
    session.set_interval(100);
    session.set_offset(-7200);
    assert_eq!(session.interval(), 100);
    assert_eq!(session.offset(), Some(-7200));
    assert_eq!(session.state(), SessionState::Idle);
}

#[test]
fn an_idle_session_does_not_fire() {
    let mut session = CronJob::default();
    session.new_job("* * * * * *", BackupJob::new(scheduled("a", "* * * * * *")));
    assert!(session.tick(false, NEW_YEAR, NEW_YEAR + 10).is_empty());
    assert_eq!(session.state(), SessionState::Idle);
    assert_eq!(session.len(), 1);
}

#[test]
fn the_half_hour_fires_exactly_once() {
    let item = scheduled("a", "0 30 * * * *");
    let mut data = Data::new();
    data.push_monitor(item.clone());
    let mut active = item.clone();
    let mut handle = JobHandle::default();
    let mut session = handle.start_job(data.list()).session;

    // Polls before minute 30 fire nothing.
    assert!(session.tick(false, NEW_YEAR, NEW_YEAR).is_empty());
    assert!(session.tick(false, NEW_YEAR + 1798, NEW_YEAR + 1799).is_empty());
    // The poll that crosses minute 30 fires the item.
    let due = session.tick(false, NEW_YEAR + 1799, NEW_YEAR + 1800);
    assert_eq!(ids(&due), vec!["a"]);
    // The next poll looks ahead from minute 30 and fires nothing.
    assert!(session.tick(false, NEW_YEAR + 1800, NEW_YEAR + 1801).is_empty());

    // The job runs and its record is filed.
    assert_eq!(data.list()[0].backups.len(), 0);
    let plan = due[0]
        .plan("/app", &LocalInstant { secs: NEW_YEAR + 1800, millis: 0, offset: 0 })
        .unwrap();
    let signal = due[0].run(plan, &vec![]);
    let step = apply_signal(&mut data, &mut active, signal);
    assert_eq!(step, SyncStep { done: false, persist: true });
    assert_eq!(data.list()[0].backups.len(), 1);
    assert_eq!(data.list()[0].backups[0].remark, "Auto Backup");
    assert_eq!(
        data.list()[0].backups[0].backup_folder,
        "/app/data/backup/a/20240101_003000"
    );
    assert_eq!(active.backups.len(), 1);
}

#[test]
fn a_late_poll_still_fires() {
    let mut session = CronJob::default();
    session.new_job("0 30 * * * *", BackupJob::new(scheduled("a", "0 30 * * * *")));
    session.start();
    let due = session.tick(false, NEW_YEAR + 1700, NEW_YEAR + 1900);
    assert_eq!(ids(&due), vec!["a"]);
}

#[test]
fn a_poll_without_time_between_fires_nothing() {
    let mut session = CronJob::default();
    session.new_job("* * * * * *", BackupJob::new(scheduled("a", "* * * * * *")));
    session.start();
    assert!(session.tick(false, NEW_YEAR, NEW_YEAR).is_empty());
    assert!(session.tick(false, NEW_YEAR, NEW_YEAR - 5).is_empty());
}

#[test]
fn due_jobs_come_in_order_of_registration() {
    let mut session = CronJob::default();
    session.new_job("0 30 * * * *", BackupJob::new(scheduled("a", "0 30 * * * *")));
    session.new_job("0 0 12 * * *", BackupJob::new(scheduled("b", "0 0 12 * * *")));
    session.new_job("0 */30 * * * *", BackupJob::new(scheduled("c", "0 */30 * * * *")));
    session.start();
    let due = session.tick(false, NEW_YEAR + 1799, NEW_YEAR + 1800);
    assert_eq!(ids(&due), vec!["a", "c"]);
}

#[test]
fn a_session_follows_its_offset() {
    let mut session = CronJob::new(Some(3600), 500);
    session.new_job("0 0 9 * * *", BackupJob::new(scheduled("a", "0 0 9 * * *")));
    session.start();
    assert!(session.tick(false, NEW_YEAR + 9 * 3600 - 1, NEW_YEAR + 9 * 3600).is_empty());
    let due = session.tick(false, NEW_YEAR + 8 * 3600 - 1, NEW_YEAR + 8 * 3600);
    assert_eq!(ids(&due), vec!["a"]);
}

#[test]
fn an_expression_that_does_not_parse_never_fires() {
    let mut session = CronJob::default();
    session.new_job("whenever", BackupJob::new(scheduled("a", "whenever")));
    session.start();
    assert!(session.tick(false, NEW_YEAR, NEW_YEAR + 100_000).is_empty());
}

#[test]
fn a_stop_signal_ends_the_session_for_good() {
    let mut session = CronJob::default();
    session.new_job("* * * * * *", BackupJob::new(scheduled("a", "* * * * * *")));
    session.start();
    assert_eq!(session.tick(false, NEW_YEAR, NEW_YEAR + 1).len(), 1);
    assert!(session.tick(true, NEW_YEAR + 1, NEW_YEAR + 2).is_empty());
    assert_eq!(session.state(), SessionState::Stopped);
    assert_eq!(session.len(), 0);
    assert!(session.tick(false, NEW_YEAR + 2, NEW_YEAR + 3).is_empty());
    session.start();
    assert_eq!(session.state(), SessionState::Stopped);
    session.new_job("* * * * * *", BackupJob::new(scheduled("a", "* * * * * *")));
    assert!(session.tick(false, NEW_YEAR + 3, NEW_YEAR + 4).is_empty());
}

#[test]
fn stop_empties_the_session() {
    let mut session = CronJob::default();
    session.new_job("* * * * * *", BackupJob::new(scheduled("a", "* * * * * *")));
    session.stop();
    assert_eq!(session.len(), 0);
    assert_eq!(session.state(), SessionState::Stopped);
}

#[test]
fn a_job_plans_for_its_item() {
    let mut item = scheduled("a", "0 30 * * * *");
    item.monitors = vec![Monitor { path: "/srv/www".to_string(), backup_type: FileType::Folder }];
    let job = BackupJob::new(item.clone());
    assert_eq!(job.save_item(), &item);
    assert_eq!(job.clone(), job);
    let plan = job.plan("/app", &LocalInstant { secs: 0, millis: 0, offset: 0 }).unwrap();
    assert_eq!(
        plan,
        BackupPlan {
            backup_folder: "/app/data/backup/a/19700101_000000".to_string(),
            datas: vec![BackupData {
                source: "/srv/www".to_string(),
                target: "/app/data/backup/a/19700101_000000/www".to_string(),
                file_type: FileType::Folder,
            }],
        }
    );
    match job.run(plan, &vec![true]) {
        DataSignal::Sync(id, backup) => {
            assert_eq!(id, "a");
            assert_eq!(backup.remark, "Auto Backup");
            assert_eq!(backup.datas.len(), 1);
            assert!(!backup.protect);
        }
        DataSignal::Terminated => panic!("a finished job reports its backup"),
    }
}

#[test]
fn a_finished_backup_is_filed_in_store_and_shown_item() {
    let mut data = Data::new();
    data.push_monitor(scheduled("a", "0 30 * * * *"));
    data.push_monitor(scheduled("b", "0 30 * * * *"));
    let mut active = scheduled("b", "0 30 * * * *");
    let step = apply_signal(&mut data, &mut active, DataSignal::Sync("b".to_string(), backup("1")));
    assert_eq!(step, SyncStep { done: false, persist: true });
    assert!(data.list()[0].backups.is_empty());
    assert_eq!(data.list()[1].backups, vec![backup("1")]);
    assert_eq!(active.backups, vec![backup("1")]);
}

#[test]
fn a_finished_backup_of_another_item_leaves_the_shown_item_alone() {
    let mut data = Data::new();
    data.push_monitor(scheduled("a", "0 30 * * * *"));
    let mut active = scheduled("b", "0 30 * * * *");
    let step = apply_signal(&mut data, &mut active, DataSignal::Sync("a".to_string(), backup("1")));
    assert_eq!(step, SyncStep { done: false, persist: true });
    assert_eq!(data.list()[0].backups, vec![backup("1")]);
    assert!(active.backups.is_empty());
}

#[test]
fn a_finished_backup_of_an_unknown_item_is_not_persisted() {
    let mut data = Data::new();
    data.push_monitor(scheduled("a", "0 30 * * * *"));
    let mut active = SaveItem::default();
    let step = apply_signal(&mut data, &mut active, DataSignal::Sync("x".to_string(), backup("1")));
    assert_eq!(step, SyncStep { done: false, persist: false });
    assert!(data.list()[0].backups.is_empty());
    assert!(active.backups.is_empty());
}

#[test]
fn the_end_of_the_feed_changes_nothing() {
    let mut data = Data::new();
    data.push_monitor(scheduled("a", "0 30 * * * *"));
    let mut active = scheduled("a", "0 30 * * * *");
    let step = apply_signal(&mut data, &mut active, DataSignal::Terminated);
    assert_eq!(step, SyncStep { done: true, persist: false });
    assert_eq!(data.list(), vec![scheduled("a", "0 30 * * * *")]);
    assert_eq!(active, scheduled("a", "0 30 * * * *"));
}

#[test]
fn every_backup_lands_newest_first() {
    let mut data = Data::new();
    data.push_monitor(scheduled("a", "0 30 * * * *"));
    data.push_monitor(scheduled("b", "0 30 * * * *"));
    let mut active = SaveItem::default();
    let n = 25;
    let feed: Vec<DataSignal> =
        (0..n).map(|i| DataSignal::Sync("b".to_string(), backup(&format!("{}", i)))).collect();
    assert!(!receive_data_signal(&mut data, &mut active, feed));
    let got = data.list();
    assert_eq!(got[1].backups.len(), n);
    assert_eq!(got[1].backups[0], backup("24"));
    assert_eq!(got[1].backups[n - 1], backup("0"));
    assert!(got[0].backups.is_empty());
}

#[test]
fn nothing_lands_after_the_end_of_the_feed() {
    let mut data = Data::new();
    data.push_monitor(scheduled("a", "0 30 * * * *"));
    let mut active = scheduled("a", "0 30 * * * *");
    let feed = vec![
        DataSignal::Sync("a".to_string(), backup("1")),
        DataSignal::Terminated,
        DataSignal::Sync("a".to_string(), backup("2")),
    ];
    assert!(receive_data_signal(&mut data, &mut active, feed));
    assert_eq!(data.list()[0].backups, vec![backup("1")]);
    assert_eq!(active.backups, vec![backup("1")]);
}

#[test]
fn an_empty_feed_changes_nothing() {
    let mut data = Data::new();
    let mut active = SaveItem::default();
    assert!(!receive_data_signal(&mut data, &mut active, vec![]));
    assert!(data.list().is_empty());
}

#[test]
fn start_info_default_is_blank() {
    let info = StartInfo::default();
    assert!(!info.success);
    assert_eq!(info.save_item, SaveItem::default());
    assert_eq!(info.error, None);
    assert_eq!(info.clone(), info);
}

#[test]
fn a_schedule_is_due_once_its_occurrence_is_reached() {
    assert!(is_due(Some(10), 10));
    assert!(is_due(Some(10), 11));
    assert!(!is_due(Some(10), 9));
    assert!(!is_due(None, i64::MAX));
    assert!(is_due(Some(i64::MIN), i64::MIN));
}

#[test]
fn start_info_reports_the_outcome_of_the_check() {
    let item = scheduled("a", "0 30 * * * *");
    assert_eq!(
        start_info(&item, &Ok(())),
        StartInfo { success: true, save_item: item.clone(), error: None }
    );
    let fault = InvalidExpression { message: "no good".to_string() };
    assert_eq!(
        start_info(&item, &Err(fault)),
        StartInfo {
            success: false,
            save_item: item.clone(),
            error: Some("has err = no good".to_string()),
        }
    );
}
