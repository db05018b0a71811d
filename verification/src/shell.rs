//! What the tray icon, its menu and the popup window ask of the host.
//!
//! Each handler takes what the host knows when the event arrives and returns
//! the commands to carry out, in order.

use vstd::prelude::*;
use vstd::utf8::{encode_utf8, encode_utf8_decode_utf8};
use crate::placement::{Placement, Position, TrayEdge};
use crate::platform::Platform;

verus! {

/// Whether a left click on the tray icon opens the tray menu. It does not:
/// a left click toggles the popup.
pub const MENU_ON_LEFT_CLICK: bool = false;

/// The corner radius given to the popup window at start-up, in points.
pub const CORNER_RADIUS: u32 = 0;

/// The status that the program exits with when the user quits.
pub const QUIT_STATUS: i32 = 0;

/// An item of the tray menu.
#[derive(Clone, Copy, Debug, PartialEq, Eq, Structural)]
pub enum MenuItem {
    OpenEditor,
    SyncNow,
    Quit,
}

/// A line of the tray menu.
#[derive(Clone, Copy, Debug, PartialEq, Eq, Structural)]
pub enum MenuEntry {
    Item(MenuItem),
    Separator,
}

/// A message sent to the page shown in the popup.
#[derive(Clone, Copy, Debug, PartialEq, Eq, Structural)]
pub enum Signal {
    /// Tells the page at which edge the tray sits, so that it can draw its arrow.
    TrayArrow(TrayEdge),
    /// Asks the page to synchronise.
    SyncNow,
    /// Asks the page to open its editor.
    OpenEditor,
}

/// Something the host is to do.
#[derive(Clone, Copy, Debug, PartialEq, Eq, Structural)]
pub enum Command {
    /// Hide the popup window.
    HideWindow,
    /// Move the popup window's origin.
    MoveWindow(Position),
    /// Send a message to the page.
    Emit(Signal),
    /// Show the popup window.
    ShowWindow,
    /// Give the popup window the input focus.
    FocusWindow,
    /// Round the popup window's corners and make its background clear.
    RoundCorners { radius: u32 },
    /// End the program.
    Exit { status: i32 },
}

/// What a left click on the tray icon leads to.
#[derive(Clone, Copy, Debug, PartialEq, Eq, Structural)]
pub enum TrayClick {
    /// The popup is showing: hide it.
    Dismiss,
    /// The popup is hidden: place it by the tray icon and reveal it.
    Reveal,
}

/// The label of the popup window.
pub fn main_window_label() -> (label: &'static str)
    ensures
        label@ == "main"@,
{
    "main"
}

impl MenuItem {
    /// The identifier that a click on the item reports.
    pub open spec fn id_text(self) -> Seq<char> {
        match self {
            MenuItem::OpenEditor => "open_editor"@,
            MenuItem::SyncNow => "sync_now"@,
            MenuItem::Quit => "quit"@,
        }
    }

    /// The text that the menu shows for the item.
    pub open spec fn label_text(self) -> Seq<char> {
        match self {
            MenuItem::OpenEditor => "Open Editor"@,
            MenuItem::SyncNow => "Sync Now"@,
            MenuItem::Quit => "Quit"@,
        }
    }

    /// The item with the identifier `id`, if there is one.
    pub open spec fn with_id(id: Seq<char>) -> Option<MenuItem> {
        if id == MenuItem::Quit.id_text() {
            Some(MenuItem::Quit)
        } else if id == MenuItem::OpenEditor.id_text() {
            Some(MenuItem::OpenEditor)
        } else if id == MenuItem::SyncNow.id_text() {
            Some(MenuItem::SyncNow)
        } else {
            None
        }
    }

    /// The identifier that a click on the item reports.
    pub fn id(&self) -> (id: &'static str)
        ensures
            id@ == self.id_text(),
    {
        match self {
            MenuItem::OpenEditor => "open_editor",
            MenuItem::SyncNow => "sync_now",
            MenuItem::Quit => "quit",
        }
    }

    /// The text that the menu shows for the item.
    pub fn label(&self) -> (label: &'static str)
        ensures
            label@ == self.label_text(),
    {
        match self {
            MenuItem::OpenEditor => "Open Editor",
            MenuItem::SyncNow => "Sync Now",
            MenuItem::Quit => "Quit",
        }
    }

    /// Finds the item that a reported identifier belongs to.
    pub fn from_id(id: &str) -> (item: Option<MenuItem>)
        ensures
            item == MenuItem::with_id(id@),
    {
        if same_text(id, "quit") {
            Some(MenuItem::Quit)
        } else if same_text(id, "open_editor") {
            Some(MenuItem::OpenEditor)
        } else if same_text(id, "sync_now") {
            Some(MenuItem::SyncNow)
        } else {
            None
        }
    }
}

impl Signal {
    /// The name under which the page listens for the message.
    pub open spec fn name_text(self) -> Seq<char> {
        match self {
            Signal::TrayArrow(_) => "tray-arrow"@,
            Signal::SyncNow => "sync-now"@,
            Signal::OpenEditor => "open-editor"@,
        }
    }

    /// What the message carries, if anything.
    pub open spec fn payload_text(self) -> Option<Seq<char>> {
        match self {
            Signal::TrayArrow(edge) => Some(edge.text()),
            _ => None,
        }
    }

    /// The name under which the page listens for the message.
    pub fn name(&self) -> (name: &'static str)
        ensures
            name@ == self.name_text(),
    {
        match self {
            Signal::TrayArrow(_) => "tray-arrow",
            Signal::SyncNow => "sync-now",
            Signal::OpenEditor => "open-editor",
        }
    }

    /// What the message carries, if anything.
    pub fn payload(&self) -> (payload: Option<&'static str>)
        ensures
            payload is Some <==> self.payload_text() is Some,
            payload matches Some(text) ==> Some(text@) == self.payload_text(),
    {
        match self {
            Signal::TrayArrow(edge) => Some(edge.name()),
            _ => None,
        }
    }
}

/// Whether two strings hold the same text.
fn same_text(a: &str, b: &str) -> (same: bool)
    ensures
        same == (a@ == b@),
{
    let left = a.as_bytes();
    let right = b.as_bytes();
    if left.len() != right.len() {
        return false;
    }
    let mut i: usize = 0;
    while i < left.len()
        invariant
            i <= left.len(),
            left.len() == right.len(),
            left@ == encode_utf8(a@),
            right@ == encode_utf8(b@),
            forall|k: int| 0 <= k < i ==> left@[k] == right@[k],
        decreases left.len() - i,
    {
        if left[i] != right[i] {
            return false;
        }
        i += 1;
    }
    proof {
        assert(left@ =~= right@);
        encode_utf8_decode_utf8(a@);
        encode_utf8_decode_utf8(b@);
    }
    true
}

/// The lines of the tray menu, from top to bottom.
pub open spec fn menu_layout() -> Seq<MenuEntry> {
    seq![
        MenuEntry::Item(MenuItem::OpenEditor),
        MenuEntry::Item(MenuItem::SyncNow),
        MenuEntry::Separator,
        MenuEntry::Item(MenuItem::Quit),
    ]
}

/// The lines of the tray menu, from top to bottom.
pub fn tray_menu() -> (menu: Vec<MenuEntry>)
    ensures
        menu@ == menu_layout(),
{
    let menu = vec![
        MenuEntry::Item(MenuItem::OpenEditor),
        MenuEntry::Item(MenuItem::SyncNow),
        MenuEntry::Separator,
        MenuEntry::Item(MenuItem::Quit),
    ];
    assert(menu@ =~= menu_layout());
    menu
}

/// What the host does once at start-up: on macOS the popup's corners are
/// rounded first; everywhere the popup starts hidden.
pub open spec fn setup_commands(platform: Platform) -> Seq<Command> {
    match platform {
        Platform::MacOs => seq![Command::RoundCorners { radius: CORNER_RADIUS }, Command::HideWindow],
        Platform::Other => seq![Command::HideWindow],
    }
}

/// What a change of the popup's input focus asks for: a popup that lost the
/// focus is hidden.
pub open spec fn focus_commands(focused: bool) -> Seq<Command> {
    if focused {
        seq![]
    } else {
        seq![Command::HideWindow]
    }
}

/// What a left click on the tray icon leads to. `visible` is whether the
/// popup is showing, `None` when the window system did not tell, which counts
/// as hidden.
pub open spec fn click_outcome(visible: Option<bool>) -> TrayClick {
    if visible == Some(true) {
        TrayClick::Dismiss
    } else {
        TrayClick::Reveal
    }
}

/// What hides the popup after a click on the tray icon.
pub open spec fn dismiss_commands() -> Seq<Command> {
    seq![Command::HideWindow]
}

/// What reveals the popup at `placement`: the window is moved, the page is
/// told the tray's edge and asked to synchronise, then the window is shown
/// and focused.
pub open spec fn reveal_commands(placement: Placement) -> Seq<Command> {
    seq![
        Command::MoveWindow(placement.position),
        Command::Emit(Signal::TrayArrow(placement.edge)),
        Command::Emit(Signal::SyncNow),
        Command::ShowWindow,
        Command::FocusWindow,
    ]
}

/// What a click on the menu line with identifier `id` asks for. Quitting
/// needs no window; the other items do nothing when the popup window does not
/// exist, and an unknown identifier does nothing at all.
pub open spec fn menu_commands(id: Seq<char>, window_exists: bool) -> Seq<Command> {
    match MenuItem::with_id(id) {
        Some(MenuItem::Quit) => seq![Command::Exit { status: QUIT_STATUS }],
        Some(MenuItem::OpenEditor) => if window_exists {
            seq![Command::Emit(Signal::OpenEditor), Command::ShowWindow, Command::FocusWindow]
        } else {
            seq![]
        },
        Some(MenuItem::SyncNow) => if window_exists {
            seq![Command::Emit(Signal::SyncNow)]
        } else {
            seq![]
        },
        None => seq![],
    }
}

/// The commands to carry out once at start-up.
pub fn on_setup(platform: Platform) -> (commands: Vec<Command>)
    ensures
        commands@ == setup_commands(platform),
{
    let commands = match platform {
        Platform::MacOs => vec![Command::RoundCorners { radius: CORNER_RADIUS }, Command::HideWindow],
        Platform::Other => vec![Command::HideWindow],
    };
    assert(commands@ =~= setup_commands(platform));
    commands
}

/// The commands to carry out when the popup's input focus changes.
pub fn on_focus_change(focused: bool) -> (commands: Vec<Command>)
    ensures
        commands@ == focus_commands(focused),
{
    let commands = if focused {
        Vec::new()
    } else {
        vec![Command::HideWindow]
    };
    assert(commands@ =~= focus_commands(focused));
    commands
}

/// Decides what a left click on the tray icon leads to.
pub fn on_tray_click(visible: Option<bool>) -> (click: TrayClick)
    ensures
        click == click_outcome(visible),
{
    match visible {
        Some(true) => TrayClick::Dismiss,
        _ => TrayClick::Reveal,
    }
}

/// The commands that hide the popup after a click on the tray icon.
pub fn dismiss_popup() -> (commands: Vec<Command>)
    ensures
        commands@ == dismiss_commands(),
{
    let commands = vec![Command::HideWindow];
    assert(commands@ =~= dismiss_commands());
    commands
}

/// The commands that reveal the popup at `placement`.
pub fn reveal_popup(placement: Placement) -> (commands: Vec<Command>)
    ensures
        commands@ == reveal_commands(placement),
{
    let commands = vec![
        Command::MoveWindow(placement.position),
        Command::Emit(Signal::TrayArrow(placement.edge)),
        Command::Emit(Signal::SyncNow),
        Command::ShowWindow,
        Command::FocusWindow,
    ];
    assert(commands@ =~= reveal_commands(placement));
    commands
}

/// The commands to carry out when a line of the tray menu is clicked.
pub fn on_menu_click(id: &str, window_exists: bool) -> (commands: Vec<Command>)
    ensures
        commands@ == menu_commands(id@, window_exists),
{
    let commands = match MenuItem::from_id(id) {
        Some(MenuItem::Quit) => vec![Command::Exit { status: QUIT_STATUS }],
        Some(MenuItem::OpenEditor) => if window_exists {
            vec![Command::Emit(Signal::OpenEditor), Command::ShowWindow, Command::FocusWindow]
        } else {
            Vec::new()
        },
        Some(MenuItem::SyncNow) => if window_exists {
            vec![Command::Emit(Signal::SyncNow)]
        } else {
            Vec::new()
        },
        None => Vec::new(),
    };
    assert(commands@ =~= menu_commands(id@, window_exists));
    commands
}

/// The three identifiers differ, so each item is found again by its own.
pub proof fn lemma_item_found_by_id(item: MenuItem)
    ensures
        MenuItem::with_id(item.id_text()) == Some(item),
{
    reveal_strlit("quit");
    reveal_strlit("open_editor");
    reveal_strlit("sync_now");
    assert("quit"@.len() == 4);
    assert("open_editor"@.len() == 11);
    assert("sync_now"@.len() == 8);
}

/// The three messages go by different names.
pub proof fn lemma_signal_names_differ(a: Signal, b: Signal)
    ensures
        a.name_text() == b.name_text() ==> (a is TrayArrow <==> b is TrayArrow) && (a is SyncNow
            <==> b is SyncNow) && (a is OpenEditor <==> b is OpenEditor),
{
    reveal_strlit("tray-arrow");
    reveal_strlit("sync-now");
    reveal_strlit("open-editor");
    assert("tray-arrow"@.len() == 10);
    assert("sync-now"@.len() == 8);
    assert("open-editor"@.len() == 11);
}

} // verus!
