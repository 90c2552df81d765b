//! The administrative commands, and what each does to the shared state.

use vstd::prelude::*;
use crate::backup::item_folder;
use crate::backup::item_folder_of;
use crate::backup::ToastLevel;
use crate::data::backup_ids;
use crate::data::find_backup;
use crate::data::item_ids;
use crate::data::with_item_replaced;
use crate::data::without_item;
use crate::data::Data;
use crate::data::DataView;
use crate::data::SaveItem;
use crate::data::SaveItemView;
use crate::data::SharedView;
use crate::text::first_place;
use crate::text::opt_view;

verus! {

/// The page that is shown.
#[derive(Debug, PartialEq, Eq, Structural, Clone, Copy)]
pub enum Navigation {
    Home,
    Manage,
    New,
    Edit,
    Archive,
    Setting,
}

impl Default for Navigation {
    fn default() -> (r: Self)
        ensures
            r == Navigation::Home,
    {
        Navigation::Home
    }
}

/// An administrative operation asked of the engine.
#[derive(Debug, PartialEq, Eq)]
pub enum Command {
    /// Replace the scheduler session by one for the items now stored.
    StartJob,
    /// Set the protection of a backup of the shown item.
    ProtectBackup { id: String, protect: bool },
    /// Delete a backup of the shown item, unless it is protected, and store
    /// the item `id` anew.
    DeleteBackup { id: String, backup_id: String },
    /// Delete an item for good, with every backup of it.
    TotallyDelete { save_item: SaveItem },
}

/// Mathematical model of a [`Command`].
#[verifier::ext_equal]
pub enum CommandView {
    StartJob,
    ProtectBackup { id: Seq<char>, protect: bool },
    DeleteBackup { id: Seq<char>, backup_id: Seq<char> },
    TotallyDelete { save_item: SaveItemView },
}

impl View for Command {
    type V = CommandView;

    open spec fn view(&self) -> CommandView {
        match *self {
            Command::StartJob => CommandView::StartJob,
            Command::ProtectBackup { id, protect } => CommandView::ProtectBackup { id: id@, protect },
            Command::DeleteBackup { id, backup_id } => CommandView::DeleteBackup {
                id: id@,
                backup_id: backup_id@,
            },
            Command::TotallyDelete { save_item } => CommandView::TotallyDelete {
                save_item: save_item@,
            },
        }
    }
}

/// What is left to do outside the shared state once a command has been
/// applied to it.
#[derive(Debug, PartialEq, Eq)]
pub struct CommandOutcome {
    /// The scheduler is to be restarted.
    pub restart: bool,
    /// The store has changed and is to be persisted.
    pub persist: bool,
    /// The directory to be removed from storage, with all that is in it.
    pub remove_dir: Option<String>,
    /// The notice to show where the command was denied.
    pub notice: Option<(ToastLevel, String)>,
}

/// Mathematical model of a [`CommandOutcome`].
#[verifier::ext_equal]
pub struct CommandOutcomeView {
    pub restart: bool,
    pub persist: bool,
    pub remove_dir: Option<Seq<char>>,
    pub notice: Option<(ToastLevel, Seq<char>)>,
}

impl View for CommandOutcome {
    type V = CommandOutcomeView;

    open spec fn view(&self) -> CommandOutcomeView {
        CommandOutcomeView {
            restart: self.restart,
            persist: self.persist,
            remove_dir: opt_view(self.remove_dir),
            notice: match self.notice {
                Some(n) => Some((n.0, n.1@)),
                None => None,
            },
        }
    }
}

/// The outcome of a command that leaves nothing to do.
pub open spec fn nothing_to_do() -> CommandOutcomeView {
    CommandOutcomeView { restart: false, persist: false, remove_dir: None, notice: None }
}

/// The notice that the deletion of a protected backup is denied with.
pub open spec fn protected_notice() -> (ToastLevel, Seq<char>) {
    (ToastLevel::Warning, "Please cancel the protection first"@)
}

/// The shared state after a command.
///
/// A restart leaves it alone. Protection is set on the shown item only. A
/// backup that is not protected is deleted from the shown item, which then
/// replaces the stored item of the given identifier; where the shown item has
/// no such backup, or the backup is protected, nothing changes. An item
/// deleted for good leaves the store.
pub open spec fn commanded(state: SharedView, command: CommandView) -> SharedView {
    match command {
        CommandView::StartJob => state,
        CommandView::ProtectBackup { id, protect } => SharedView {
            active: state.active.with_protect(id, protect),
            ..state
        },
        CommandView::DeleteBackup { id, backup_id } => match first_place(
            backup_ids(state.active.backups),
            backup_id,
        ) {
            Some(k) => if state.active.backups[k].protect {
                state
            } else {
                let shown = state.active.without_backup(backup_id);
                SharedView {
                    store: DataView {
                        monitors: with_item_replaced(state.store.monitors, id, shown),
                    },
                    active: shown,
                }
            },
            None => state,
        },
        CommandView::TotallyDelete { save_item } => SharedView {
            store: DataView { monitors: without_item(state.store.monitors, save_item.id) },
            ..state
        },
    }
}

/// What a command leaves to do outside the shared state.
///
/// Only a restart command restarts the scheduler. The store is persisted
/// where it changed: where the item that a deleted backup belonged to, or the
/// item deleted for good, was stored. The folder of a deleted backup is
/// removed; so is the folder of all backups of an item deleted for good,
/// whether or not the item was stored. The deletion of a protected backup is
/// denied with a notice.
pub open spec fn command_outcome(state: SharedView, root: Seq<char>, command: CommandView) -> CommandOutcomeView {
    match command {
        CommandView::StartJob => CommandOutcomeView { restart: true, ..nothing_to_do() },
        CommandView::ProtectBackup { id, protect } => nothing_to_do(),
        CommandView::DeleteBackup { id, backup_id } => match first_place(
            backup_ids(state.active.backups),
            backup_id,
        ) {
            Some(k) => if state.active.backups[k].protect {
                CommandOutcomeView { notice: Some(protected_notice()), ..nothing_to_do() }
            } else {
                CommandOutcomeView {
                    persist: first_place(item_ids(state.store.monitors), id) is Some,
                    remove_dir: Some(state.active.backups[k].backup_folder),
                    ..nothing_to_do()
                }
            },
            None => nothing_to_do(),
        },
        CommandView::TotallyDelete { save_item } => CommandOutcomeView {
            persist: first_place(item_ids(state.store.monitors), save_item.id) is Some,
            remove_dir: Some(item_folder_of(root, save_item.id)),
            ..nothing_to_do()
        },
    }
}

/// A protected backup cannot be deleted: the command to delete it changes
/// neither the shown item nor the store, removes no folder, and is answered
/// with a notice.
pub proof fn lemma_protected_backup_survives(
    state: SharedView,
    root: Seq<char>,
    id: Seq<char>,
    backup_id: Seq<char>,
    k: int,
)
    requires
        first_place(backup_ids(state.active.backups), backup_id) == Some(k),
        state.active.backups[k].protect,
    ensures
        commanded(state, CommandView::DeleteBackup { id, backup_id }) == state,
        command_outcome(state, root, CommandView::DeleteBackup { id, backup_id }).remove_dir is None,
        command_outcome(state, root, CommandView::DeleteBackup { id, backup_id }).notice is Some,
{
}

/// Applies one command to the shared state and says what is left to do.
///
/// `root` is the directory under which the application keeps its data.
pub fn command_proc(data: &mut Data, active: &mut SaveItem, root: &str, command: Command) -> (r:
    CommandOutcome)
    ensures
        (SharedView { store: final(data)@, active: final(active)@ }) == commanded(
            SharedView { store: old(data)@, active: old(active)@ },
            command@,
        ),
        r@ == command_outcome(
            SharedView { store: old(data)@, active: old(active)@ },
            root@,
            command@,
        ),
{
    match command {
        Command::StartJob => CommandOutcome {
            restart: true,
            persist: false,
            remove_dir: None,
            notice: None,
        },
        Command::ProtectBackup { id, protect } => {
            let _ = active.set_protect(id.as_str(), protect);
            CommandOutcome { restart: false, persist: false, remove_dir: None, notice: None }
        },
        Command::DeleteBackup { id, backup_id } => {
            match find_backup(&active.backups, backup_id.as_str()) {
                None => CommandOutcome {
                    restart: false,
                    persist: false,
                    remove_dir: None,
                    notice: None,
                },
                Some(k) => {
                    if active.backups[k].protect {
                        CommandOutcome {
                            restart: false,
                            persist: false,
                            remove_dir: None,
                            notice: Some(
                                (
                                    ToastLevel::Warning,
                                    "Please cancel the protection first".to_owned(),
                                ),
                            ),
                        }
                    } else {
                        let folder = active.backups[k].backup_folder.clone();
                        let _ = active.remove_backup(backup_id.as_str());
                        let persist = data.set_monitor(id, active.clone());
                        CommandOutcome {
                            restart: false,
                            persist,
                            remove_dir: Some(folder),
                            notice: None,
                        }
                    }
                },
            }
        },
        Command::TotallyDelete { save_item } => {
            let folder = item_folder(root, save_item.id.as_str());
            let persist = data.remove_monitor(save_item.id.as_str());
            CommandOutcome { restart: false, persist, remove_dir: Some(folder), notice: None }
        },
    }
}

} // verus!
