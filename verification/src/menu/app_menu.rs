//! What the menu holds and what each of its items does.

use crate::services::text::same_text;
use crate::views::views;
use vstd::prelude::*;

verus! {

/// One item of a menu.
#[derive(Clone, Debug, PartialEq, Eq)]
pub struct MenuItem {
    /// The identifier that a click on the item reports.
    pub id: String,
    /// The text that the item shows.
    pub title: String,
}

impl View for MenuItem {
    type V = (Seq<char>, Seq<char>);

    open spec fn view(&self) -> (Seq<char>, Seq<char>) {
        (self.id@, self.title@)
    }
}

/// One menu of the menu bar.
#[derive(Clone, Debug, PartialEq, Eq)]
pub struct Submenu {
    pub title: String,
    pub items: Vec<MenuItem>,
}

impl View for Submenu {
    type V = (Seq<char>, Seq<(Seq<char>, Seq<char>)>);

    open spec fn view(&self) -> (Seq<char>, Seq<(Seq<char>, Seq<char>)>) {
        (self.title@, views(self.items@))
    }
}

/// The menu bar: each menu with its title and its items, as identifier and
/// text.
pub open spec fn menu_bar() -> Seq<(Seq<char>, Seq<(Seq<char>, Seq<char>)>)> {
    seq![
        (
            "File"@,
            seq![
                ("new_file"@, "New File"@),
                ("open_file"@, "Open..."@),
                ("save_file"@, "Save"@),
                ("quit"@, "Quit"@),
            ],
        ),
        (
            "Edit"@,
            seq![
                ("undo"@, "Undo"@),
                ("redo"@, "Redo"@),
                ("cut"@, "Cut"@),
                ("copy"@, "Copy"@),
                ("paste"@, "Paste"@),
            ],
        ),
        ("View"@, seq![("fullscreen"@, "Toggle Full Screen"@)]),
    ]
}

/// The item that reports `id` and shows `title`.
fn item(id: &str, title: &str) -> (item: MenuItem)
    ensures
        item@ == (id@, title@),
{
    MenuItem { id: String::from_str(id), title: String::from_str(title) }
}

/// Builds the menu bar.
pub fn build_menu() -> (menu: Vec<Submenu>)
    ensures
        views(menu@) == menu_bar(),
{
    let mut file: Vec<MenuItem> = Vec::new();
    file.push(item("new_file", "New File"));
    file.push(item("open_file", "Open..."));
    file.push(item("save_file", "Save"));
    file.push(item("quit", "Quit"));
    assert(views(file@) =~= menu_bar()[0].1);
    let mut edit: Vec<MenuItem> = Vec::new();
    edit.push(item("undo", "Undo"));
    edit.push(item("redo", "Redo"));
    edit.push(item("cut", "Cut"));
    edit.push(item("copy", "Copy"));
    edit.push(item("paste", "Paste"));
    assert(views(edit@) =~= menu_bar()[1].1);
    let mut view: Vec<MenuItem> = Vec::new();
    view.push(item("fullscreen", "Toggle Full Screen"));
    assert(views(view@) =~= menu_bar()[2].1);
    let mut menu: Vec<Submenu> = Vec::new();
    menu.push(Submenu { title: String::from_str("File"), items: file });
    menu.push(Submenu { title: String::from_str("Edit"), items: edit });
    menu.push(Submenu { title: String::from_str("View"), items: view });
    assert(views(menu@) =~= menu_bar());
    menu
}

/// What a click on a menu item leads to.
#[derive(Clone, Debug, PartialEq, Eq)]
pub enum MenuAction {
    /// Leave the application.
    Quit,
    /// Switch the window into full screen, or out of it.
    ToggleFullscreen,
    /// Write this line to the log.
    Log(String),
    /// Nothing.
    Ignore,
}

/// A [`MenuAction`] as a mathematical value.
pub enum MenuActionView {
    Quit,
    ToggleFullscreen,
    Log(Seq<char>),
    Ignore,
}

impl View for MenuAction {
    type V = MenuActionView;

    open spec fn view(&self) -> MenuActionView {
        match self {
            MenuAction::Quit => MenuActionView::Quit,
            MenuAction::ToggleFullscreen => MenuActionView::ToggleFullscreen,
            MenuAction::Log(line) => MenuActionView::Log(line@),
            MenuAction::Ignore => MenuActionView::Ignore,
        }
    }
}

/// What the item with the identifier `id` does.
pub open spec fn action_of(id: Seq<char>) -> MenuActionView {
    if id == "quit"@ {
        MenuActionView::Quit
    } else if id == "new_file"@ {
        MenuActionView::Log("New File clicked"@)
    } else if id == "open_file"@ {
        MenuActionView::Log("Open clicked"@)
    } else if id == "save_file"@ {
        MenuActionView::Log("Save clicked"@)
    } else if id == "undo"@ {
        MenuActionView::Log("Undo"@)
    } else if id == "redo"@ {
        MenuActionView::Log("Redo"@)
    } else if id == "cut"@ {
        MenuActionView::Log("Cut"@)
    } else if id == "copy"@ {
        MenuActionView::Log("Copy"@)
    } else if id == "paste"@ {
        MenuActionView::Log("Paste"@)
    } else if id == "fullscreen"@ {
        MenuActionView::ToggleFullscreen
    } else {
        MenuActionView::Ignore
    }
}

/// Decides what a click on the item with the identifier `id` leads to.
pub fn handle_menu(id: &str) -> (action: MenuAction)
    ensures
        action@ == action_of(id@),
{
    if same_text(id, "quit") {
        MenuAction::Quit
    } else if same_text(id, "new_file") {
        MenuAction::Log(String::from_str("New File clicked"))
    } else if same_text(id, "open_file") {
        MenuAction::Log(String::from_str("Open clicked"))
    } else if same_text(id, "save_file") {
        MenuAction::Log(String::from_str("Save clicked"))
    } else if same_text(id, "undo") {
        MenuAction::Log(String::from_str("Undo"))
    } else if same_text(id, "redo") {
        MenuAction::Log(String::from_str("Redo"))
    } else if same_text(id, "cut") {
        MenuAction::Log(String::from_str("Cut"))
    } else if same_text(id, "copy") {
        MenuAction::Log(String::from_str("Copy"))
    } else if same_text(id, "paste") {
        MenuAction::Log(String::from_str("Paste"))
    } else if same_text(id, "fullscreen") {
        MenuAction::ToggleFullscreen
    } else {
        MenuAction::Ignore
    }
}

/// Every item of the menu bar does something.
pub proof fn lemma_every_item_is_handled(menu: int, item: int)
    requires
        0 <= menu < menu_bar().len(),
        0 <= item < menu_bar()[menu].1.len(),
    ensures
        !(action_of(menu_bar()[menu].1[item].0) is Ignore),
{
}

} // verus!
