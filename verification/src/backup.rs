//! Backup records, and the planning and closing of one backup run.

use vstd::prelude::*;
use vstd::string::*;
use crate::data::FileType;
use crate::data::Monitor;
use crate::data::MonitorView;
use crate::schedule::format_time;
use crate::schedule::formatted_time;
use crate::schedule::local_now;
use crate::schedule::LocalInstant;
use crate::text::chain;
use crate::text::join;
use crate::text::joined;
use crate::text::opt_view;
use crate::text::views;

verus! {

/// One copied path of a backup: where it came from and where it went.
#[derive(Debug, PartialEq, Eq)]
pub struct BackupData {
    pub source: String,
    pub target: String,
    pub file_type: FileType,
}

/// Mathematical model of a [`BackupData`].
#[verifier::ext_equal]
pub struct BackupDataView {
    pub source: Seq<char>,
    pub target: Seq<char>,
    pub file_type: FileType,
}

impl View for BackupData {
    type V = BackupDataView;

    open spec fn view(&self) -> BackupDataView {
        BackupDataView { source: self.source@, target: self.target@, file_type: self.file_type }
    }
}

impl Clone for BackupData {
    fn clone(&self) -> (r: Self)
        ensures
            r@ == self@,
    {
        BackupData {
            source: self.source.clone(),
            target: self.target.clone(),
            file_type: self.file_type,
        }
    }
}

/// The record of one backup run: what was copied, and where to.
#[derive(Debug, PartialEq, Eq)]
pub struct Backup {
    pub id: String,
    pub datas: Vec<BackupData>,
    pub backup_folder: String,
    pub protect: bool,
    pub remark: String,
    pub time: i64,
}

/// Mathematical model of a [`Backup`].
#[verifier::ext_equal]
pub struct BackupView {
    pub id: Seq<char>,
    pub datas: Seq<BackupDataView>,
    pub backup_folder: Seq<char>,
    pub protect: bool,
    pub remark: Seq<char>,
    pub time: int,
}

impl View for Backup {
    type V = BackupView;

    open spec fn view(&self) -> BackupView {
        BackupView {
            id: self.id@,
            datas: views(self.datas@),
            backup_folder: self.backup_folder@,
            protect: self.protect,
            remark: self.remark@,
            time: self.time as int,
        }
    }
}

impl Clone for Backup {
    fn clone(&self) -> (r: Self)
        ensures
            r@ == self@,
    {
        let datas = self.datas.clone();
        assert(views(datas@) =~= views(self.datas@));
        Backup {
            id: self.id.clone(),
            datas,
            backup_folder: self.backup_folder.clone(),
            protect: self.protect,
            remark: self.remark.clone(),
            time: self.time,
        }
    }
}

/// How loudly a notice is shown.
#[derive(Debug, PartialEq, Eq, Structural, Clone, Copy)]
pub enum ToastLevel {
    Info,
    Warning,
    Error,
    Success,
}

/// The views of a list of notices.
pub open spec fn toast_views(s: Seq<(ToastLevel, String)>) -> Seq<(ToastLevel, Seq<char>)> {
    s.map_values(|t: (ToastLevel, String)| (t.0, t.1@))
}

/// What the copy executor is asked to do: copy the file or directory at
/// `from` onto `to`.
#[derive(Debug, PartialEq, Eq)]
pub struct CopyRequest {
    pub from: String,
    pub to: String,
    pub kind: FileType,
    /// Whether what is already at the target is overwritten: files, and for
    /// a directory its subdirectories too, leaving alone what the source
    /// does not hold.
    pub overwrite: bool,
    /// Whether a target that exists already is left as it is.
    pub skip_existing: bool,
    /// The deepest directory nesting that the copy may descend into.
    pub max_depth: usize,
}

/// Mathematical model of a [`CopyRequest`].
#[verifier::ext_equal]
pub struct CopyRequestView {
    pub from: Seq<char>,
    pub to: Seq<char>,
    pub kind: FileType,
    pub overwrite: bool,
    pub skip_existing: bool,
    pub max_depth: nat,
}

impl View for CopyRequest {
    type V = CopyRequestView;

    open spec fn view(&self) -> CopyRequestView {
        CopyRequestView {
            from: self.from@,
            to: self.to@,
            kind: self.kind,
            overwrite: self.overwrite,
            skip_existing: self.skip_existing,
            max_depth: self.max_depth as nat,
        }
    }
}

/// The deepest directory nesting that a copy may descend into.
pub const MAX_COPY_DEPTH: usize = 1000;

/// The request to copy `from` onto `to`, as every copy of this library is
/// made: overwriting, never skipping, to a depth of at most a thousand.
pub open spec fn forced_copy(from: Seq<char>, to: Seq<char>, kind: FileType) -> CopyRequestView {
    CopyRequestView { from, to, kind, overwrite: true, skip_existing: false, max_depth: 1000 }
}

impl BackupDataView {
    /// The copy that takes the backup: from the live path into the backup
    /// folder.
    pub open spec fn backup_request(self) -> CopyRequestView {
        forced_copy(self.source, self.target, self.file_type)
    }

    /// The copy that restores the backup: from the backup folder onto the
    /// live path.
    pub open spec fn restore_request(self) -> CopyRequestView {
        forced_copy(self.target, self.source, self.file_type)
    }
}

impl BackupData {
    /// The copy that takes this entry's backup.
    pub fn backup_request(&self) -> (r: CopyRequest)
        ensures
            r@ == self@.backup_request(),
    {
        CopyRequest {
            from: self.source.clone(),
            to: self.target.clone(),
            kind: self.file_type,
            overwrite: true,
            skip_existing: false,
            max_depth: MAX_COPY_DEPTH,
        }
    }

    /// The copy that writes this entry's backup back onto the live path.
    pub fn restore_request(&self) -> (r: CopyRequest)
        ensures
            r@ == self@.restore_request(),
    {
        CopyRequest {
            from: self.target.clone(),
            to: self.source.clone(),
            kind: self.file_type,
            overwrite: true,
            skip_existing: false,
            max_depth: MAX_COPY_DEPTH,
        }
    }
}

/// Restoring an entry copies back exactly what taking it copied: it reads
/// where the backup wrote and writes where the backup read, for the same
/// kind of path and under the same rules.
pub proof fn lemma_restore_reverses_backup(entry: BackupDataView)
    ensures
        entry.restore_request() == (CopyRequestView {
            from: entry.backup_request().to,
            to: entry.backup_request().from,
            ..entry.backup_request()
        }),
{
}

/// The copies that take a backup, one for each entry, in order.
pub fn backup_requests(datas: &Vec<BackupData>) -> (r: Vec<CopyRequest>)
    ensures
        views(r@) == views(datas@).map_values(|e: BackupDataView| e.backup_request()),
{
    let mut out: Vec<CopyRequest> = Vec::new();
    let mut i: usize = 0;
    while i < datas.len()
        invariant
            i <= datas.len(),
            views(out@) =~= views(datas@).take(i as int).map_values(
                |e: BackupDataView| e.backup_request(),
            ),
        decreases datas.len() - i,
    {
        let ghost before = out@;
        out.push(datas[i].backup_request());
        assert(views(out@) =~= views(before).push(datas@[i as int]@.backup_request()));
        i += 1;
    }
    assert(views(datas@).take(datas.len() as int) =~= views(datas@));
    out
}

/// The copies that restore a backup, one for each entry, in order.
pub fn restore_requests(datas: &Vec<BackupData>) -> (r: Vec<CopyRequest>)
    ensures
        views(r@) == views(datas@).map_values(|e: BackupDataView| e.restore_request()),
{
    let mut out: Vec<CopyRequest> = Vec::new();
    let mut i: usize = 0;
    while i < datas.len()
        invariant
            i <= datas.len(),
            views(out@) =~= views(datas@).take(i as int).map_values(
                |e: BackupDataView| e.restore_request(),
            ),
        decreases datas.len() - i,
    {
        let ghost before = out@;
        out.push(datas[i].restore_request());
        assert(views(out@) =~= views(before).push(datas@[i as int]@.restore_request()));
        i += 1;
    }
    assert(views(datas@).take(datas.len() as int) =~= views(datas@));
    out
}

/// The pattern that names a backup folder after the instant of the run.
pub open spec fn folder_pattern() -> Seq<char> {
    "%Y%m%d_%H%M%S"@
}

/// The folder that holds every backup of one item.
pub open spec fn item_folder_of(root: Seq<char>, id: Seq<char>) -> Seq<char> {
    root + "/data/backup/"@ + id
}

/// The folder of one backup run, named after its time stamp.
pub open spec fn backup_folder_of(root: Seq<char>, id: Seq<char>, stamp: Seq<char>) -> Seq<char> {
    item_folder_of(root, id) + "/"@ + stamp
}

/// The entry that a monitored path gets in a backup under `folder`, given
/// the last component of its path: none for a path without one.
pub open spec fn entry_for(folder: Seq<char>, monitor: MonitorView, name: Option<Seq<char>>) -> Option<
    BackupDataView,
> {
    match name {
        None => None,
        Some(n) => Some(
            BackupDataView {
                source: monitor.path,
                target: folder + "/"@ + n,
                file_type: monitor.backup_type,
            },
        ),
    }
}

/// The entries of a backup under `folder`: one for each monitored path that
/// has a last component, in the order of the paths.
pub open spec fn entries_for(
    folder: Seq<char>,
    monitors: Seq<MonitorView>,
    names: Seq<Option<Seq<char>>>,
) -> Seq<BackupDataView>
    decreases monitors.len(),
{
    if monitors.len() == 0 || names.len() != monitors.len() {
        Seq::empty()
    } else {
        let rest = entries_for(folder, monitors.drop_last(), names.drop_last());
        match entry_for(folder, monitors.last(), names.last()) {
            Some(e) => rest.push(e),
            None => rest,
        }
    }
}

/// The views of a list of optional names.
pub open spec fn name_views(s: Seq<Option<String>>) -> Seq<Option<Seq<char>>> {
    s.map_values(|n: Option<String>| opt_view(n))
}

/// Calls `std::path::Path::file_name` and hands the name back as a string.
/// What counts as the last component depends on the platform, so nothing is
/// promised of the result.
#[verifier::external_body]
fn file_name(path: &str) -> (r: Option<String>) {
    let name = std::path::Path::new(path).file_name()?;
    Some(name.to_str()?.to_owned())
}

/// The last component of each monitored path, in order, as the platform
/// sees it.
pub fn base_names(monitors: &Vec<Monitor>) -> (r: Vec<Option<String>>)
    ensures
        r@.len() == monitors@.len(),
{
    let mut out: Vec<Option<String>> = Vec::new();
    let mut i: usize = 0;
    while i < monitors.len()
        invariant
            i <= monitors.len(),
            out@.len() == i,
        decreases monitors.len() - i,
    {
        out.push(file_name(monitors[i].path.as_str()));
        i += 1;
    }
    out
}

/// The folder that holds every backup of the item `id` under `root`.
pub fn item_folder(root: &str, id: &str) -> (r: String)
    ensures
        r@ == item_folder_of(root@, id@),
{
    let mut out = chain(root, "/data/backup/");
    out.append(id);
    out
}

/// The folder of the backup of the item `id` that bears the time stamp
/// `stamp`.
pub fn stamped_folder(root: &str, id: &str, stamp: &str) -> (r: String)
    ensures
        r@ == backup_folder_of(root@, id@, stamp@),
{
    let mut out = item_folder(root, id);
    out.append("/");
    out.append(stamp);
    out
}

/// The folder of the backup that the item `id` takes at the instant `secs`
/// on a clock `offset` seconds east of UTC; `None` where that instant cannot
/// be written out.
pub fn backup_folder(root: &str, id: &str, secs: i64, offset: i32) -> (r: Option<String>)
    ensures
        match formatted_time(folder_pattern(), secs as int, offset as int) {
            Some(stamp) => r matches Some(f) && f@ == backup_folder_of(root@, id@, stamp),
            None => r is None,
        },
{
    match format_time("%Y%m%d_%H%M%S", secs, offset) {
        None => None,
        Some(stamp) => Some(stamped_folder(root, id, stamp.as_str())),
    }
}

/// The entries of a backup under `folder` for the monitored paths, given the
/// last component of each path.
pub fn plan_entries(folder: &str, monitors: &Vec<Monitor>, names: &Vec<Option<String>>) -> (r: Vec<
    BackupData,
>)
    ensures
        views(r@) == entries_for(folder@, views(monitors@), name_views(names@)),
{
    let mut out: Vec<BackupData> = Vec::new();
    if names.len() != monitors.len() {
        assert(views(out@) =~= Seq::<BackupDataView>::empty());
        return out;
    }
    let mut i: usize = 0;
    assert(views(out@) =~= Seq::<BackupDataView>::empty());
    while i < monitors.len()
        invariant
            i <= monitors.len(),
            names.len() == monitors.len(),
            views(out@) == entries_for(
                folder@,
                views(monitors@).take(i as int),
                name_views(names@).take(i as int),
            ),
        decreases monitors.len() - i,
    {
        let ghost ms = views(monitors@).take(i as int + 1);
        let ghost ns = name_views(names@).take(i as int + 1);
        assert(ms.drop_last() =~= views(monitors@).take(i as int));
        assert(ns.drop_last() =~= name_views(names@).take(i as int));
        assert(ms.last() == monitors@[i as int]@);
        assert(ns.last() == opt_view(names@[i as int]));
        let ghost before = out@;
        match &names[i] {
            None => {},
            Some(name) => {
                let mut target = chain(folder, "/");
                target.append(name.as_str());
                out.push(
                    BackupData {
                        source: monitors[i].path.clone(),
                        target,
                        file_type: monitors[i].backup_type,
                    },
                );
                assert(views(out@) =~= views(before).push(out@.last()@));
            },
        }
        i += 1;
    }
    assert(views(monitors@).take(monitors.len() as int) =~= views(monitors@));
    assert(name_views(names@).take(monitors.len() as int) =~= name_views(names@));
    out
}

/// Where a backup run will write, settled before anything is copied.
#[derive(Debug, PartialEq, Eq)]
pub struct BackupPlan {
    pub backup_folder: String,
    pub datas: Vec<BackupData>,
}

/// Mathematical model of a [`BackupPlan`].
#[verifier::ext_equal]
pub struct BackupPlanView {
    pub backup_folder: Seq<char>,
    pub datas: Seq<BackupDataView>,
}

impl View for BackupPlan {
    type V = BackupPlanView;

    open spec fn view(&self) -> BackupPlanView {
        BackupPlanView { backup_folder: self.backup_folder@, datas: views(self.datas@) }
    }
}

impl BackupPlanView {
    /// Whether this is a plan for backing the monitored paths up under
    /// `folder`: it writes there, and its entries are those of
    /// [`entries_for`] for some choice of last components, one per path.
    pub open spec fn covers(self, folder: Seq<char>, monitors: Seq<MonitorView>) -> bool {
        &&& self.backup_folder == folder
        &&& exists|names: Seq<Option<Seq<char>>>|
            names.len() == monitors.len() && self.datas == #[trigger] entries_for(
                folder,
                monitors,
                names,
            )
    }
}

/// The plan of the backup that the item `id` takes at the instant `at`:
/// the folder named after the instant, and one entry for each monitored path
/// that has a last component.
///
/// There is a plan exactly when the instant can be written out. Which
/// component counts as the last one of a path is for the platform to say.
pub fn plan_backup(root: &str, id: &str, at: &LocalInstant, monitors: &Vec<Monitor>) -> (r: Option<
    BackupPlan,
>)
    ensures
        match formatted_time(folder_pattern(), at.secs as int, at.offset as int) {
            Some(stamp) => r matches Some(p) && p@.covers(
                backup_folder_of(root@, id@, stamp),
                views(monitors@),
            ),
            None => r is None,
        },
{
    match backup_folder(root, id, at.secs, at.offset) {
        None => None,
        Some(folder) => {
            let names = base_names(monitors);
            let datas = plan_entries(folder.as_str(), monitors, &names);
            assert(name_views(names@).len() == monitors@.len());
            Some(BackupPlan { backup_folder: folder, datas })
        },
    }
}

/// Every monitored path with a last component gets an entry: where all
/// names are known, a backup has as many entries as the item has paths, and
/// the entry at each place is the one of the path at that place.
pub proof fn lemma_entries_complete(
    folder: Seq<char>,
    monitors: Seq<MonitorView>,
    names: Seq<Option<Seq<char>>>,
)
    requires
        names.len() == monitors.len(),
        forall|i: int| 0 <= i < names.len() ==> (#[trigger] names[i]) is Some,
    ensures
        entries_for(folder, monitors, names).len() == monitors.len(),
        forall|i: int|
            0 <= i < monitors.len() ==> Some(#[trigger] entries_for(folder, monitors, names)[i])
                == entry_for(folder, monitors[i], names[i]),
    decreases monitors.len(),
{
    if monitors.len() > 0 {
        lemma_entries_complete(folder, monitors.drop_last(), names.drop_last());
        assert(names.last() is Some);
    }
}

/// The sources of the entries whose copy did not succeed, in the order of
/// the entries. The outcome of entry `i` is `copied[i]`; an entry without an
/// outcome counts as failed.
pub open spec fn failed_sources(entries: Seq<BackupDataView>, copied: Seq<bool>) -> Seq<Seq<char>>
    decreases entries.len(),
{
    if entries.len() == 0 {
        Seq::empty()
    } else {
        let rest = failed_sources(entries.drop_last(), copied);
        let last = entries.len() - 1;
        if last < copied.len() && copied[last] {
            rest
        } else {
            rest.push(entries.last().source)
        }
    }
}

/// The one notice that sums a run up: `done` where nothing failed, else an
/// error that lists the failed sources, one per line, under `failed_head`.
pub open spec fn summary_of(done: Seq<char>, failed_head: Seq<char>, failed: Seq<Seq<char>>) -> (
    ToastLevel,
    Seq<char>,
) {
    if failed.len() == 0 {
        (ToastLevel::Success, done)
    } else {
        (ToastLevel::Error, failed_head + "\n"@ + joined(failed, "\n"@))
    }
}

/// Collects the sources of the entries whose copy did not succeed.
pub fn collect_failed(entries: &Vec<BackupData>, copied: &Vec<bool>) -> (r: Vec<String>)
    ensures
        views(r@) == failed_sources(views(entries@), copied@),
{
    let mut out: Vec<String> = Vec::new();
    let mut i: usize = 0;
    assert(views(out@) =~= Seq::<Seq<char>>::empty());
    while i < entries.len()
        invariant
            i <= entries.len(),
            views(out@) == failed_sources(views(entries@).take(i as int), copied@),
        decreases entries.len() - i,
    {
        let ghost es = views(entries@).take(i as int + 1);
        assert(es.drop_last() =~= views(entries@).take(i as int));
        assert(es.last() == entries@[i as int]@);
        let ghost before = out@;
        if !(i < copied.len() && copied[i]) {
            out.push(entries[i].source.clone());
            assert(views(out@) =~= views(before).push(entries@[i as int]@.source));
        }
        i += 1;
    }
    assert(views(entries@).take(entries.len() as int) =~= views(entries@));
    out
}

/// Appends the notice that sums a run up.
fn push_summary(done: &str, failed_head: &str, failed: &Vec<String>, toasts: &mut Vec<(ToastLevel, String)>)
    ensures
        toast_views(final(toasts)@) == toast_views(old(toasts)@).push(
            summary_of(done@, failed_head@, views(failed@)),
        ),
{
    let ghost before = toasts@;
    if failed.len() == 0 {
        toasts.push((ToastLevel::Success, done.to_owned()));
    } else {
        let mut text = chain(failed_head, "\n");
        let list = join(failed, "\n");
        text.append(list.as_str());
        toasts.push((ToastLevel::Error, text));
    }
    assert(toast_views(toasts@) =~= toast_views(before).push(
        summary_of(done@, failed_head@, views(failed@)),
    ));
}

/// Whether a character is a digit or one of the letters `a` to `f`.
pub open spec fn is_hex_digit(c: char) -> bool {
    ('0' <= c && c <= '9') || ('a' <= c && c <= 'f')
}

/// Whether a text has the shape of the identifiers that items and backups
/// are given: a random (version 4) UUID written in lower case, thirty-two
/// hexadecimal digits in groups of 8, 4, 4, 4 and 12 with a hyphen between
/// neighbouring groups. The first digit of the third group is the version,
/// and the first digit of the fourth group holds the variant.
pub open spec fn is_uuid_text(s: Seq<char>) -> bool {
    &&& s.len() == 36
    &&& forall|i: int|
        0 <= i < 36 ==> if i == 8 || i == 13 || i == 18 || i == 23 {
            #[trigger] s[i] == '-'
        } else {
            is_hex_digit(s[i])
        }
    &&& s[14] == '4'
    &&& (s[19] == '8' || s[19] == '9' || s[19] == 'a' || s[19] == 'b')
}

/// Calls `uuid::Uuid::new_v4` and writes the identifier out.
///
/// Trusted: whatever the random bits, the identifier is of version 4 and of
/// the standard variant, and it is displayed hyphenated and in lower case:
/// the text has the shape that [`is_uuid_text`] describes. Nothing is
/// promised of which identifier it is.
#[verifier::external_body]
pub(crate) fn fresh_id() -> (r: String)
    ensures
        is_uuid_text(r@),
{
    uuid::Uuid::new_v4().to_string()
}

impl Backup {
    /// The record with the given identity and content, not protected.
    pub fn with_identity(
        id: String,
        time: i64,
        datas: Vec<BackupData>,
        backup_folder: String,
        remark: String,
    ) -> (r: Self)
        ensures
            r@ == (BackupView {
                id: id@,
                datas: views(datas@),
                backup_folder: backup_folder@,
                protect: false,
                remark: remark@,
                time: time as int,
            }),
    {
        Backup { id, datas, backup_folder, protect: false, remark, time }
    }

    /// A new record of the given content, not protected, with a fresh random
    /// identifier and the current time in milliseconds.
    pub fn new(datas: Vec<BackupData>, backup_folder: String, remark: String) -> (r: Self)
        ensures
            r@.datas == views(datas@),
            r@.backup_folder == backup_folder@,
            r@.remark == remark@,
            !r@.protect,
            is_uuid_text(r@.id),
    {
        let id = fresh_id();
        let now = local_now();
        Backup::with_identity(id, now.millis, datas, backup_folder, remark)
    }

    /// Closes a run that the user asked for: the notices and the record.
    pub fn run(plan: BackupPlan, remark: String, copied: &Vec<bool>) -> (r: (
        Vec<(ToastLevel, String)>,
        Backup,
    ))
        ensures
            toast_views(r.0@) == seq![
                summary_of(
                    "Backup Success"@,
                    "Backup Error"@,
                    failed_sources(plan@.datas, copied@),
                ),
            ],
            r.1@.datas == plan@.datas,
            r.1@.backup_folder == plan@.backup_folder,
            r.1@.remark == remark@,
            !r.1@.protect,
            is_uuid_text(r.1@.id),
    {
        let mut msgs: Vec<(ToastLevel, String)> = Vec::new();
        assert(toast_views(msgs@) =~= Seq::empty());
        let backup = backup_file(remark, plan, copied, &mut msgs);
        assert(toast_views(msgs@) =~= seq![
            summary_of("Backup Success"@, "Backup Error"@, failed_sources(plan@.datas, copied@)),
        ]);
        (msgs, backup)
    }
}

/// Closes a backup run once every path has been copied or has failed.
///
/// `copied` holds the outcome of each entry of the plan, in order. One
/// notice is appended: success, or an error that lists the sources that
/// failed. The record holds every entry of the plan, whether its copy
/// succeeded or not.
pub fn backup_file(
    remark: String,
    plan: BackupPlan,
    copied: &Vec<bool>,
    toasts: &mut Vec<(ToastLevel, String)>,
) -> (r: Backup)
    ensures
        toast_views(final(toasts)@) == toast_views(old(toasts)@).push(
            summary_of("Backup Success"@, "Backup Error"@, failed_sources(plan@.datas, copied@)),
        ),
        r@.datas == plan@.datas,
        r@.backup_folder == plan@.backup_folder,
        r@.remark == remark@,
        !r@.protect,
        is_uuid_text(r@.id),
{
    let failed = collect_failed(&plan.datas, copied);
    push_summary("Backup Success", "Backup Error", &failed, toasts);
    Backup::new(plan.datas, plan.backup_folder, remark)
}

/// Closes a restore once every entry has been copied back or has failed.
///
/// `copied` holds the outcome of each entry, in order. One notice is
/// appended: success, or an error that lists the live paths that could not
/// be restored.
pub fn overwrite(datas: &Vec<BackupData>, copied: &Vec<bool>, toasts: &mut Vec<(ToastLevel, String)>)
    ensures
        toast_views(final(toasts)@) == toast_views(old(toasts)@).push(
            summary_of("Overwrite Success"@, "Has Error"@, failed_sources(views(datas@), copied@)),
        ),
{
    let failed = collect_failed(datas, copied);
    push_summary("Overwrite Success", "Has Error", &failed, toasts);
}

} // verus!
