//! The item store: monitored paths, items and the list that holds them.

use vstd::prelude::*;
use vstd::string::*;
use crate::backup::fresh_id;
use crate::backup::is_uuid_text;
use crate::backup::Backup;
use crate::backup::BackupView;
use crate::schedule::local_now;
use crate::schedule::parse_time_at;
use crate::schedule::upcoming_texts;
use crate::text::first_place;
use crate::text::lemma_first_place_is;
use crate::text::lemma_first_place_none;
use crate::text::views;

verus! {

/// What a monitored path points at.
#[derive(Debug, PartialEq, Eq, Structural, Clone, Copy)]
pub enum FileType {
    Folder,
    File,
}

impl Default for FileType {
    fn default() -> (r: Self)
        ensures
            r == FileType::Folder,
    {
        FileType::Folder
    }
}

impl FileType {
    /// The name of the kind: `Folder` or `File`.
    pub fn to_string(&self) -> (r: String)
        ensures
            r@ == (match *self {
                FileType::Folder => "Folder"@,
                FileType::File => "File"@,
            }),
    {
        match self {
            FileType::Folder => "Folder".to_owned(),
            FileType::File => "File".to_owned(),
        }
    }
}

/// Where an item stands in its life.
#[derive(Debug, PartialEq, Eq, Structural, Clone, Copy)]
pub enum Status {
    Valid,
    Archive,
    Delete,
}

impl Default for Status {
    fn default() -> (r: Self)
        ensures
            r == Status::Valid,
    {
        Status::Valid
    }
}

/// Whether the item's schedule is switched on.
#[derive(Debug, PartialEq, Eq, Structural, Clone, Copy)]
pub enum AutoStatus {
    Running,
    Stop,
}

impl Default for AutoStatus {
    fn default() -> (r: Self)
        ensures
            r == AutoStatus::Stop,
    {
        AutoStatus::Stop
    }
}

impl AutoStatus {
    /// The name of the state: `Running` or `Stop`.
    pub fn to_string(&self) -> (r: String)
        ensures
            r@ == (match *self {
                AutoStatus::Running => "Running"@,
                AutoStatus::Stop => "Stop"@,
            }),
    {
        match self {
            AutoStatus::Running => "Running".to_owned(),
            AutoStatus::Stop => "Stop".to_owned(),
        }
    }
}

/// The schedule of an item: a cron expression, whether it runs, and whether
/// automatic backup is enabled at all.
#[derive(Debug, PartialEq, Eq)]
pub struct Auto {
    pub cron: String,
    pub status: AutoStatus,
    pub open: bool,
}

/// Mathematical model of an [`Auto`].
#[verifier::ext_equal]
pub struct AutoView {
    pub cron: Seq<char>,
    pub status: AutoStatus,
    pub open: bool,
}

impl View for Auto {
    type V = AutoView;

    open spec fn view(&self) -> AutoView {
        AutoView { cron: self.cron@, status: self.status, open: self.open }
    }
}

impl Clone for Auto {
    fn clone(&self) -> (r: Self)
        ensures
            r@ == self@,
    {
        Auto { cron: self.cron.clone(), status: self.status, open: self.open }
    }
}

impl Default for Auto {
    fn default() -> (r: Self)
        ensures
            r@ == (AutoView { cron: Seq::empty(), status: AutoStatus::Stop, open: false }),
    {
        Auto { cron: String::new(), status: AutoStatus::Stop, open: false }
    }
}

impl AutoView {
    /// The schedule after an attempt to switch it on at the instant `from`
    /// on a clock `offset` seconds east of UTC: running, where its expression
    /// has an occurrence to come that can be shown; as it was, where not.
    pub open spec fn started_at(self, from: int, offset: int) -> AutoView {
        if upcoming_texts(self.cron, from, offset).len() > 0 {
            AutoView { status: AutoStatus::Running, ..self }
        } else {
            self
        }
    }
}

impl Auto {
    /// Enables or disables automatic backup. Disabling it switches the
    /// schedule off.
    pub fn set_open(&mut self, open: bool)
        ensures
            final(self)@ == (AutoView {
                open,
                status: if open {
                    old(self)@.status
                } else {
                    AutoStatus::Stop
                },
                ..old(self)@
            }),
    {
        self.open = open;
        if !open {
            self.status = AutoStatus::Stop;
        }
    }

    /// Changes the cron expression, which switches the schedule off.
    pub fn set_cron(&mut self, cron: String)
        ensures
            final(self)@ == (AutoView { cron: cron@, status: AutoStatus::Stop, ..old(self)@ }),
    {
        self.cron = cron;
        self.status = AutoStatus::Stop;
    }

    /// Switches the schedule off.
    pub fn stop(&mut self)
        ensures
            final(self)@ == (AutoView { status: AutoStatus::Stop, ..old(self)@ }),
    {
        self.status = AutoStatus::Stop;
    }

    /// Tries to switch the schedule on at the given instant. Says whether it
    /// is now running because of that.
    pub fn start_at(&mut self, from: i64, offset: i32) -> (started: bool)
        ensures
            final(self)@ == old(self)@.started_at(from as int, offset as int),
            started == (upcoming_texts(old(self)@.cron, from as int, offset as int).len() > 0),
    {
        let upcoming = parse_time_at(self.cron.as_str(), from, offset);
        if upcoming.len() > 0 {
            self.status = AutoStatus::Running;
            true
        } else {
            false
        }
    }

    /// Tries to switch the schedule on at the present instant: as
    /// [`Auto::start_at`] does for the instant and the offset that the clock
    /// gave.
    pub fn start(&mut self) -> (started: bool)
        ensures
            exists|from: int, offset: int|
                final(self)@ == #[trigger] old(self)@.started_at(from, offset) && started == (
                upcoming_texts(old(self)@.cron, from, offset).len() > 0),
    {
        let at = local_now();
        self.start_at(at.secs, at.offset)
    }
}

/// One file or directory that an item tracks.
#[derive(Debug, PartialEq, Eq)]
pub struct Monitor {
    pub path: String,
    pub backup_type: FileType,
}

/// Mathematical model of a [`Monitor`].
#[verifier::ext_equal]
pub struct MonitorView {
    pub path: Seq<char>,
    pub backup_type: FileType,
}

impl View for Monitor {
    type V = MonitorView;

    open spec fn view(&self) -> MonitorView {
        MonitorView { path: self.path@, backup_type: self.backup_type }
    }
}

impl Clone for Monitor {
    fn clone(&self) -> (r: Self)
        ensures
            r@ == self@,
    {
        Monitor { path: self.path.clone(), backup_type: self.backup_type }
    }
}

/// A backup target: a named set of monitored paths, its schedule and the
/// backups taken of it so far, newest first.
#[derive(Debug, PartialEq, Eq)]
pub struct SaveItem {
    pub id: String,
    pub name: String,
    pub description: String,
    pub startup_path: String,
    pub status: Status,
    pub auto: Auto,
    pub monitors: Vec<Monitor>,
    pub backups: Vec<Backup>,
}

/// Mathematical model of a [`SaveItem`].
#[verifier::ext_equal]
pub struct SaveItemView {
    pub id: Seq<char>,
    pub name: Seq<char>,
    pub description: Seq<char>,
    pub startup_path: Seq<char>,
    pub status: Status,
    pub auto: AutoView,
    pub monitors: Seq<MonitorView>,
    pub backups: Seq<BackupView>,
}

impl View for SaveItem {
    type V = SaveItemView;

    open spec fn view(&self) -> SaveItemView {
        SaveItemView {
            id: self.id@,
            name: self.name@,
            description: self.description@,
            startup_path: self.startup_path@,
            status: self.status,
            auto: self.auto@,
            monitors: views(self.monitors@),
            backups: views(self.backups@),
        }
    }
}

impl Clone for SaveItem {
    fn clone(&self) -> (r: Self)
        ensures
            r@ == self@,
    {
        let monitors = self.monitors.clone();
        let backups = self.backups.clone();
        assert(views(monitors@) =~= views(self.monitors@));
        assert(views(backups@) =~= views(self.backups@));
        SaveItem {
            id: self.id.clone(),
            name: self.name.clone(),
            description: self.description.clone(),
            startup_path: self.startup_path.clone(),
            status: self.status,
            auto: self.auto.clone(),
            monitors,
            backups,
        }
    }
}

/// The item with nothing filled in: every text empty, no paths, no backups,
/// valid, its schedule stopped and disabled.
pub open spec fn blank_item() -> SaveItemView {
    SaveItemView {
        id: Seq::empty(),
        name: Seq::empty(),
        description: Seq::empty(),
        startup_path: Seq::empty(),
        status: Status::Valid,
        auto: AutoView { cron: Seq::empty(), status: AutoStatus::Stop, open: false },
        monitors: Seq::empty(),
        backups: Seq::empty(),
    }
}

impl Default for SaveItem {
    fn default() -> (r: Self)
        ensures
            r@ == blank_item(),
    {
        let r = SaveItem {
            id: String::new(),
            name: String::new(),
            description: String::new(),
            startup_path: String::new(),
            status: Status::Valid,
            auto: Auto::default(),
            monitors: Vec::new(),
            backups: Vec::new(),
        };
        assert(r@ =~= blank_item());
        r
    }
}

/// The identifiers of a list of items, in order.
pub open spec fn item_ids(items: Seq<SaveItemView>) -> Seq<Seq<char>> {
    items.map_values(|i: SaveItemView| i.id)
}

/// The identifiers of a list of backups, in order.
pub open spec fn backup_ids(backups: Seq<BackupView>) -> Seq<Seq<char>> {
    backups.map_values(|b: BackupView| b.id)
}

/// The list with the first item of identifier `id` replaced by `item`;
/// unchanged where no item has that identifier.
pub open spec fn with_item_replaced(items: Seq<SaveItemView>, id: Seq<char>, item: SaveItemView) -> Seq<
    SaveItemView,
> {
    match first_place(item_ids(items), id) {
        Some(k) => items.update(k, item),
        None => items,
    }
}

/// The list without the first item of identifier `id`; unchanged where no
/// item has that identifier.
pub open spec fn without_item(items: Seq<SaveItemView>, id: Seq<char>) -> Seq<SaveItemView> {
    match first_place(item_ids(items), id) {
        Some(k) => items.remove(k),
        None => items,
    }
}

impl SaveItemView {
    /// The item with `backup` put in front of its backups.
    pub open spec fn with_backup(self, backup: BackupView) -> SaveItemView {
        SaveItemView { backups: seq![backup] + self.backups, ..self }
    }

    /// The item with the protection of its first backup of identifier
    /// `backup_id` set to `protect`.
    pub open spec fn with_protect(self, backup_id: Seq<char>, protect: bool) -> SaveItemView {
        match first_place(backup_ids(self.backups), backup_id) {
            Some(k) => SaveItemView {
                backups: self.backups.update(k, BackupView { protect, ..self.backups[k] }),
                ..self
            },
            None => self,
        }
    }

    /// The item without its first backup of identifier `backup_id`.
    pub open spec fn without_backup(self, backup_id: Seq<char>) -> SaveItemView {
        match first_place(backup_ids(self.backups), backup_id) {
            Some(k) => SaveItemView { backups: self.backups.remove(k), ..self },
            None => self,
        }
    }
}

/// The list with `backup` put in front of the backups of the first item of
/// identifier `id`; unchanged where no item has that identifier.
pub open spec fn with_backup_filed(items: Seq<SaveItemView>, id: Seq<char>, backup: BackupView) -> Seq<
    SaveItemView,
> {
    match first_place(item_ids(items), id) {
        Some(k) => items.update(k, items[k].with_backup(backup)),
        None => items,
    }
}

/// The place of the first item of identifier `id`.
pub fn find_item(items: &Vec<SaveItem>, id: &str) -> (r: Option<usize>)
    ensures
        match r {
            Some(k) => first_place(item_ids(views(items@)), id@) == Some(k as int),
            None => first_place(item_ids(views(items@)), id@) is None,
        },
{
    let ghost keys = item_ids(views(items@));
    let key = id.to_owned();
    let mut i: usize = 0;
    while i < items.len()
        invariant
            i <= items.len(),
            keys == item_ids(views(items@)),
            key@ == id@,
            forall|j: int| 0 <= j < i ==> keys[j] != id@,
        decreases items.len() - i,
    {
        if items[i].id == key {
            proof {
                assert(keys[i as int] == items@[i as int]@.id);
                lemma_first_place_is(keys, id@, i as int);
            }
            return Some(i);
        }
        assert(keys[i as int] == items@[i as int]@.id);
        i += 1;
    }
    proof {
        lemma_first_place_none(keys, id@);
    }
    None
}

/// The place of the first backup of identifier `id`.
pub fn find_backup(backups: &Vec<Backup>, id: &str) -> (r: Option<usize>)
    ensures
        match r {
            Some(k) => first_place(backup_ids(views(backups@)), id@) == Some(k as int),
            None => first_place(backup_ids(views(backups@)), id@) is None,
        },
{
    let ghost keys = backup_ids(views(backups@));
    let key = id.to_owned();
    let mut i: usize = 0;
    while i < backups.len()
        invariant
            i <= backups.len(),
            keys == backup_ids(views(backups@)),
            key@ == id@,
            forall|j: int| 0 <= j < i ==> keys[j] != id@,
        decreases backups.len() - i,
    {
        if backups[i].id == key {
            proof {
                assert(keys[i as int] == backups@[i as int]@.id);
                lemma_first_place_is(keys, id@, i as int);
            }
            return Some(i);
        }
        assert(keys[i as int] == backups@[i as int]@.id);
        i += 1;
    }
    proof {
        lemma_first_place_none(keys, id@);
    }
    None
}

/// The schedule that an item gets where the user gave none.
pub open spec fn default_cron() -> Seq<char> {
    "0 30 * * * *"@
}

/// What keeps an item from being stored: a missing name, or, for an item
/// with a name, a missing monitored path.
pub open spec fn missing_in(item: SaveItemView) -> Option<Seq<char>> {
    if item.name.len() == 0 {
        Some("Please input name"@)
    } else if item.monitors.len() == 0 {
        Some("Please select monitor file"@)
    } else {
        None
    }
}

impl SaveItem {
    /// What keeps this item from being stored, if anything does.
    pub fn args_error(&self) -> (r: Option<String>)
        ensures
            crate::text::opt_view(r) == missing_in(self@),
    {
        if self.name.as_str().unicode_len() == 0 {
            Some("Please input name".to_owned())
        } else if self.monitors.len() == 0 {
            Some("Please select monitor file".to_owned())
        } else {
            None
        }
    }

    /// Makes a new item ready to be stored: an item without identifier gets
    /// a fresh random one, and an item without schedule the default one.
    pub fn prepare(&mut self)
        ensures
            old(self)@.id.len() != 0 ==> final(self)@.id == old(self)@.id,
            old(self)@.id.len() == 0 ==> is_uuid_text(final(self)@.id),
            final(self)@ == (SaveItemView {
                id: final(self)@.id,
                auto: AutoView {
                    cron: if old(self)@.auto.cron.len() == 0 {
                        default_cron()
                    } else {
                        old(self)@.auto.cron
                    },
                    ..old(self)@.auto
                },
                ..old(self)@
            }),
    {
        if self.id.as_str().unicode_len() == 0 {
            self.id = fresh_id();
        }
        if self.auto.cron.as_str().unicode_len() == 0 {
            self.auto.cron = "0 30 * * * *".to_owned();
        }
    }

    /// Archives the item, which switches its schedule off.
    pub fn archive(&mut self)
        ensures
            final(self)@ == (SaveItemView {
                status: Status::Archive,
                auto: AutoView { status: AutoStatus::Stop, ..old(self)@.auto },
                ..old(self)@
            }),
    {
        self.status = Status::Archive;
        self.auto.status = AutoStatus::Stop;
    }

    /// Takes the item out of the archive.
    pub fn reactivate(&mut self)
        ensures
            final(self)@ == (SaveItemView { status: Status::Valid, ..old(self)@ }),
    {
        self.status = Status::Valid;
    }

    /// A blank item with the given identifier.
    pub fn with_id(id: String) -> (r: Self)
        ensures
            r@ == (SaveItemView { id: id@, ..blank_item() }),
    {
        let r = SaveItem {
            id,
            name: String::new(),
            description: String::new(),
            startup_path: String::new(),
            status: Status::Valid,
            auto: Auto::default(),
            monitors: Vec::new(),
            backups: Vec::new(),
        };
        assert(r@ =~= (SaveItemView { id: id@, ..blank_item() }));
        r
    }

    /// A blank item with a fresh random identifier: a version 4 UUID,
    /// hyphenated and in lower case, so never empty.
    pub fn new() -> (r: Self)
        ensures
            r@ == (SaveItemView { id: r@.id, ..blank_item() }),
            is_uuid_text(r@.id),
    {
        SaveItem::with_id(fresh_id())
    }

    /// Writes this item over the stored item of the same identifier. An
    /// item without an identifier is not stored. Says whether the store
    /// changed.
    pub fn save(self, data: &mut Data) -> (changed: bool)
        ensures
            self@.id.len() == 0 ==> !changed && final(data)@ == old(data)@,
            self@.id.len() != 0 ==> final(data)@.monitors == with_item_replaced(
                old(data)@.monitors,
                self@.id,
                self@,
            ) && changed == (first_place(item_ids(old(data)@.monitors), self@.id) is Some),
    {
        if self.id.as_str().is_empty() {
            return false;
        }
        let id = self.id.clone();
        data.set_monitor(id, self)
    }

    /// Puts a finished backup in front of the item's backups.
    pub fn prepend_backup(&mut self, backup: Backup)
        ensures
            final(self)@ == old(self)@.with_backup(backup@),
    {
        let ghost before = self.backups@;
        self.backups.insert(0, backup);
        assert(views(self.backups@) =~= seq![backup@] + views(before));
    }

    /// Sets the protection of the first backup of identifier `backup_id`.
    /// Says whether there is such a backup.
    pub fn set_protect(&mut self, backup_id: &str, protect: bool) -> (found: bool)
        ensures
            final(self)@ == old(self)@.with_protect(backup_id@, protect),
            found == (first_place(backup_ids(old(self)@.backups), backup_id@) is Some),
    {
        match find_backup(&self.backups, backup_id) {
            None => false,
            Some(k) => {
                let ghost before = self.backups@;
                let mut backup = self.backups.remove(k);
                backup.protect = protect;
                self.backups.insert(k, backup);
                assert(views(self.backups@) =~= views(before).update(
                    k as int,
                    BackupView { protect, ..before[k as int]@ },
                ));
                true
            },
        }
    }

    /// Takes the first backup of identifier `backup_id` out of the item and
    /// hands it back.
    pub fn remove_backup(&mut self, backup_id: &str) -> (removed: Option<Backup>)
        ensures
            final(self)@ == old(self)@.without_backup(backup_id@),
            match first_place(backup_ids(old(self)@.backups), backup_id@) {
                Some(k) => removed matches Some(b) && b@ == old(self)@.backups[k],
                None => removed is None,
            },
    {
        match find_backup(&self.backups, backup_id) {
            None => None,
            Some(k) => {
                let ghost before = self.backups@;
                let backup = self.backups.remove(k);
                assert(views(self.backups@) =~= views(before).remove(k as int));
                Some(backup)
            },
        }
    }
}

/// The canonical store: every item the user has set up.
#[derive(Debug, PartialEq, Eq)]
pub struct Data {
    pub monitors: Vec<SaveItem>,
}

/// Mathematical model of a [`Data`].
#[verifier::ext_equal]
pub struct DataView {
    pub monitors: Seq<SaveItemView>,
}

impl View for Data {
    type V = DataView;

    open spec fn view(&self) -> DataView {
        DataView { monitors: views(self.monitors@) }
    }
}

impl Clone for Data {
    fn clone(&self) -> (r: Self)
        ensures
            r@ == self@,
    {
        let monitors = self.monitors.clone();
        assert(views(monitors@) =~= views(self.monitors@));
        Data { monitors }
    }
}

impl Data {
    /// The empty store.
    pub fn new() -> (r: Self)
        ensures
            r@.monitors == Seq::<SaveItemView>::empty(),
    {
        let r = Data { monitors: Vec::new() };
        assert(r@.monitors =~= Seq::<SaveItemView>::empty());
        r
    }

    /// A copy of every item, in order.
    pub fn list(&self) -> (r: Vec<SaveItem>)
        ensures
            views(r@) == self@.monitors,
    {
        let r = self.monitors.clone();
        assert(views(r@) =~= views(self.monitors@));
        r
    }

    /// Adds an item at the end.
    pub fn push_monitor(&mut self, monitor: SaveItem)
        ensures
            final(self)@.monitors == old(self)@.monitors.push(monitor@),
    {
        self.monitors.push(monitor);
        assert(views(self.monitors@) =~= views(old(self).monitors@).push(monitor@));
    }

    /// Replaces the first item of identifier `id` by `monitor`. Says whether
    /// there is such an item, that is, whether the store changed.
    pub fn set_monitor(&mut self, id: String, monitor: SaveItem) -> (changed: bool)
        ensures
            final(self)@.monitors == with_item_replaced(old(self)@.monitors, id@, monitor@),
            changed == (first_place(item_ids(old(self)@.monitors), id@) is Some),
    {
        match find_item(&self.monitors, id.as_str()) {
            None => false,
            Some(k) => {
                let ghost before = self.monitors@;
                self.monitors.set(k, monitor);
                assert(views(self.monitors@) =~= views(before).update(k as int, monitor@));
                true
            },
        }
    }

    /// Takes the first item of identifier `id` out of the store. Says
    /// whether there is such an item.
    pub fn remove_monitor(&mut self, id: &str) -> (removed: bool)
        ensures
            final(self)@.monitors == without_item(old(self)@.monitors, id@),
            removed == (first_place(item_ids(old(self)@.monitors), id@) is Some),
    {
        match find_item(&self.monitors, id) {
            None => false,
            Some(k) => {
                let ghost before = self.monitors@;
                let _ = self.monitors.remove(k);
                assert(views(self.monitors@) =~= views(before).remove(k as int));
                true
            },
        }
    }

    /// Files a finished backup under the first item of identifier `id`, in
    /// front of its earlier backups. Says whether there is such an item.
    pub fn file_backup(&mut self, id: &str, backup: Backup) -> (filed: bool)
        ensures
            final(self)@.monitors == with_backup_filed(old(self)@.monitors, id@, backup@),
            filed == (first_place(item_ids(old(self)@.monitors), id@) is Some),
    {
        match find_item(&self.monitors, id) {
            None => false,
            Some(k) => {
                let ghost before = self.monitors@;
                let mut item = self.monitors.remove(k);
                item.prepend_backup(backup);
                self.monitors.insert(k, item);
                assert(views(self.monitors@) =~= views(before).update(
                    k as int,
                    before[k as int]@.with_backup(backup@),
                ));
                true
            },
        }
    }
}

/// The two copies of the state that the threads share: the canonical
/// store, and the item that is currently shown.
#[verifier::ext_equal]
pub struct SharedView {
    pub store: DataView,
    pub active: SaveItemView,
}

impl SharedView {
    /// The state after filing one finished backup: in the store, in front of
    /// the backups of the first item of identifier `id`; and in front of the
    /// backups of the shown item, if that is the item of identifier `id`.
    pub open spec fn filed(self, id: Seq<char>, backup: BackupView) -> SharedView {
        SharedView {
            store: DataView { monitors: with_backup_filed(self.store.monitors, id, backup) },
            active: if self.active.id == id {
                self.active.with_backup(backup)
            } else {
                self.active
            },
        }
    }
}

} // verus!
