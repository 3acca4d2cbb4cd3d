//! The tray menu: its entries, and what a click on each of them does.

use vstd::prelude::*;
use crate::windows::{Action, Shell, Signal, Visibility, WindowLabel};

verus! {

/// Which entries the menu is built with.
#[derive(Clone, Copy, Debug, PartialEq, Eq, Structural)]
pub struct MenuConfig {
    /// The menu carries the entry that opens the file chooser in the popup.
    pub upload_files: bool,
}

/// An entry of the tray menu.
#[derive(Clone, Copy, Debug, PartialEq, Eq, Structural)]
pub enum MenuCommand {
    /// Bring the main window up.
    ShowMain,
    /// Bring the popup up and have it open its file chooser.
    UploadFiles,
    /// End the application.
    Quit,
}

impl MenuCommand {
    /// The identifier under which the entry is registered and reported.
    pub open spec fn spec_id(self) -> Seq<char> {
        match self {
            MenuCommand::ShowMain => "show_main"@,
            MenuCommand::UploadFiles => "upload_files"@,
            MenuCommand::Quit => "quit"@,
        }
    }

    /// The text that the entry shows.
    pub open spec fn spec_label(self) -> Seq<char> {
        match self {
            MenuCommand::ShowMain => "Show Vault-er"@,
            MenuCommand::UploadFiles => "Upload Files"@,
            MenuCommand::Quit => "Quit"@,
        }
    }

    /// The entry is part of a menu built with `config`.
    pub open spec fn spec_enabled(self, config: MenuConfig) -> bool {
        self == MenuCommand::UploadFiles ==> config.upload_files
    }

    /// What a click on the entry asks of the window system, in order.
    pub open spec fn spec_actions(self) -> Seq<Action> {
        match self {
            MenuCommand::ShowMain => seq![
                Action::Show(WindowLabel::Main),
                Action::Focus(WindowLabel::Main),
            ],
            MenuCommand::UploadFiles => seq![
                Action::Show(WindowLabel::Dropzone),
                Action::Focus(WindowLabel::Dropzone),
                Action::Emit(WindowLabel::Dropzone, Signal::OpenFilePicker),
            ],
            MenuCommand::Quit => seq![Action::Exit(0)],
        }
    }

    /// The entry that a menu built with `config` registers under `id`, if any.
    pub open spec fn spec_from_id(id: Seq<char>, config: MenuConfig) -> Option<MenuCommand> {
        if id == MenuCommand::ShowMain.spec_id() {
            Some(MenuCommand::ShowMain)
        } else if id == MenuCommand::Quit.spec_id() {
            Some(MenuCommand::Quit)
        } else if config.upload_files && id == MenuCommand::UploadFiles.spec_id() {
            Some(MenuCommand::UploadFiles)
        } else {
            None
        }
    }

    pub fn id(&self) -> (s: &'static str)
        ensures
            s@ == self.spec_id(),
    {
        match self {
            MenuCommand::ShowMain => "show_main",
            MenuCommand::UploadFiles => "upload_files",
            MenuCommand::Quit => "quit",
        }
    }

    pub fn label(&self) -> (s: &'static str)
        ensures
            s@ == self.spec_label(),
    {
        match self {
            MenuCommand::ShowMain => "Show Vault-er",
            MenuCommand::UploadFiles => "Upload Files",
            MenuCommand::Quit => "Quit",
        }
    }

    pub fn enabled(&self, config: &MenuConfig) -> (b: bool)
        ensures
            b == self.spec_enabled(*config),
    {
        match self {
            MenuCommand::UploadFiles => config.upload_files,
            _ => true,
        }
    }

    /// Finds the entry registered under `id`. An identifier that the menu does
    /// not carry gives `None`; that is no error.
    pub fn from_id(id: &str, config: &MenuConfig) -> (found: Option<MenuCommand>)
        ensures
            found == MenuCommand::spec_from_id(id@, *config),
    {
        if same_text(id, MenuCommand::ShowMain.id()) {
            Some(MenuCommand::ShowMain)
        } else if same_text(id, MenuCommand::Quit.id()) {
            Some(MenuCommand::Quit)
        } else if config.upload_files && same_text(id, MenuCommand::UploadFiles.id()) {
            Some(MenuCommand::UploadFiles)
        } else {
            None
        }
    }

    /// What a click on the entry asks of the window system, in order.
    pub fn actions(&self) -> (list: Vec<Action>)
        ensures
            list@ == self.spec_actions(),
    {
        let mut list: Vec<Action> = Vec::new();
        match self {
            MenuCommand::ShowMain => {
                list.push(Action::Show(WindowLabel::Main));
                list.push(Action::Focus(WindowLabel::Main));
            },
            MenuCommand::UploadFiles => {
                list.push(Action::Show(WindowLabel::Dropzone));
                list.push(Action::Focus(WindowLabel::Dropzone));
                list.push(Action::Emit(WindowLabel::Dropzone, Signal::OpenFilePicker));
            },
            MenuCommand::Quit => {
                list.push(Action::Exit(0));
            },
        }
        assert(list@ =~= self.spec_actions());
        list
    }
}

/// The two texts are the same.
fn same_text(a: &str, b: &str) -> (same: bool)
    ensures
        same == (a@ == b@),
{
    let left = a.to_owned();
    let right = b.to_owned();
    left == right
}

/// The entries of a menu built with `config`, top to bottom.
pub open spec fn spec_menu_entries(config: MenuConfig) -> Seq<MenuCommand> {
    if config.upload_files {
        seq![MenuCommand::ShowMain, MenuCommand::UploadFiles, MenuCommand::Quit]
    } else {
        seq![MenuCommand::ShowMain, MenuCommand::Quit]
    }
}

/// The entries to build the menu from, top to bottom.
pub fn menu_entries(config: &MenuConfig) -> (entries: Vec<MenuCommand>)
    ensures
        entries@ == spec_menu_entries(*config),
{
    let mut entries: Vec<MenuCommand> = Vec::new();
    entries.push(MenuCommand::ShowMain);
    if config.upload_files {
        entries.push(MenuCommand::UploadFiles);
    }
    entries.push(MenuCommand::Quit);
    assert(entries@ =~= spec_menu_entries(*config));
    entries
}

/// What a click on the entry reported as `id` asks of the window system.
pub open spec fn spec_menu_event(id: Seq<char>, config: MenuConfig) -> Seq<Action> {
    match MenuCommand::spec_from_id(id, config) {
        Some(command) => command.spec_actions(),
        None => Seq::empty(),
    }
}

/// Handles a click on the menu entry reported as `id`: the operations to
/// perform, in order. An identifier that the menu does not carry asks for
/// nothing.
pub fn on_menu_event(id: &str, config: &MenuConfig) -> (list: Vec<Action>)
    ensures
        list@ == spec_menu_event(id@, *config),
        id@ == "show_main"@ ==> list@ == seq![
            Action::Show(WindowLabel::Main),
            Action::Focus(WindowLabel::Main),
        ],
        id@ == "quit"@ ==> list@ == seq![Action::Exit(0)],
        id@ == "upload_files"@ && config.upload_files ==> list@ == seq![
            Action::Show(WindowLabel::Dropzone),
            Action::Focus(WindowLabel::Dropzone),
            Action::Emit(WindowLabel::Dropzone, Signal::OpenFilePicker),
        ],
        id@ == "upload_files"@ && !config.upload_files ==> list@.len() == 0,
        id@ != "show_main"@ && id@ != "quit"@ && !(id@ == "upload_files"@ && config.upload_files)
            ==> list@.len() == 0,
{
    proof {
        dispatch_is_complete(id@, *config);
    }
    match MenuCommand::from_id(id, config) {
        Some(command) => command.actions(),
        None => Vec::new(),
    }
}

/// No two entries share an identifier.
pub proof fn ids_are_distinct(a: MenuCommand, b: MenuCommand)
    ensures
        a.spec_id() == b.spec_id() <==> a == b,
{
    reveal_strlit("show_main");
    reveal_strlit("upload_files");
    reveal_strlit("quit");
    assert("show_main"@.len() == 9);
    assert("upload_files"@.len() == 12);
    assert("quit"@.len() == 4);
}

/// Every entry that the menu is built with is found again under its own
/// identifier, and an entry that the menu lacks is not found.
pub proof fn entries_are_found(command: MenuCommand, config: MenuConfig)
    ensures
        MenuCommand::spec_from_id(command.spec_id(), config) == if command.spec_enabled(config) {
            Some(command)
        } else {
            None
        },
        spec_menu_entries(config).contains(command) <==> command.spec_enabled(config),
{
    ids_are_distinct(command, MenuCommand::ShowMain);
    ids_are_distinct(command, MenuCommand::Quit);
    ids_are_distinct(command, MenuCommand::UploadFiles);
    let entries = spec_menu_entries(config);
    if config.upload_files {
        assert(entries[0] == MenuCommand::ShowMain);
        assert(entries[1] == MenuCommand::UploadFiles);
        assert(entries[2] == MenuCommand::Quit);
    } else {
        assert(entries[0] == MenuCommand::ShowMain);
        assert(entries[1] == MenuCommand::Quit);
    }
}

/// Dispatch is complete: a click asks for exactly the operations of the entry
/// whose identifier was reported, each of them once, and for nothing where
/// the menu has no such entry.
pub proof fn dispatch_is_complete(id: Seq<char>, config: MenuConfig)
    ensures
        id == "show_main"@ ==> spec_menu_event(id, config) == seq![
            Action::Show(WindowLabel::Main),
            Action::Focus(WindowLabel::Main),
        ],
        id == "quit"@ ==> spec_menu_event(id, config) == seq![Action::Exit(0)],
        id == "upload_files"@ && config.upload_files ==> spec_menu_event(id, config) == seq![
            Action::Show(WindowLabel::Dropzone),
            Action::Focus(WindowLabel::Dropzone),
            Action::Emit(WindowLabel::Dropzone, Signal::OpenFilePicker),
        ],
        id == "upload_files"@ && !config.upload_files ==> spec_menu_event(id, config)
            == Seq::<Action>::empty(),
        id != "show_main"@ && id != "quit"@ && !(id == "upload_files"@ && config.upload_files)
            ==> spec_menu_event(id, config) == Seq::<Action>::empty(),
{
    ids_are_distinct(MenuCommand::ShowMain, MenuCommand::Quit);
    ids_are_distinct(MenuCommand::ShowMain, MenuCommand::UploadFiles);
    ids_are_distinct(MenuCommand::Quit, MenuCommand::UploadFiles);
}

/// What a click does to the windows of a running shell: the entry's window
/// becomes visible and has the focus, the other window stays as it was, and
/// only the entry that ends the application ends it. A click that the menu
/// has no entry for changes nothing.
pub proof fn click_transitions(shell: Shell, id: Seq<char>, config: MenuConfig)
    requires
        shell.running,
    ensures
        match MenuCommand::spec_from_id(id, config) {
            Some(MenuCommand::ShowMain) => shell.spec_after_all(spec_menu_event(id, config))
                == (Shell {
                main: Visibility::Visible,
                focused: Some(WindowLabel::Main),
                ..shell
            }),
            Some(MenuCommand::UploadFiles) => shell.spec_after_all(spec_menu_event(id, config))
                == (Shell {
                dropzone: Visibility::Visible,
                focused: Some(WindowLabel::Dropzone),
                ..shell
            }),
            Some(MenuCommand::Quit) => shell.spec_after_all(spec_menu_event(id, config))
                == (Shell { running: false, ..shell }),
            None => shell.spec_after_all(spec_menu_event(id, config)) == shell,
        },
{
    match MenuCommand::spec_from_id(id, config) {
        Some(command) => {
            let list = command.spec_actions();
            Shell::after_each(shell, list);
        },
        None => {},
    }
}

/// Showing the main window is idempotent: a second click on the entry leaves
/// the shell as the first click left it.
pub proof fn show_main_is_idempotent(shell: Shell)
    ensures
        shell.spec_after_all(MenuCommand::ShowMain.spec_actions()).spec_after_all(
            MenuCommand::ShowMain.spec_actions(),
        ) == shell.spec_after_all(MenuCommand::ShowMain.spec_actions()),
{
    let list = MenuCommand::ShowMain.spec_actions();
    Shell::after_each(shell, list);
    Shell::after_each(shell.spec_after_all(list), list);
}

} // verus!
