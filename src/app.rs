use vstd::prelude::*;
use crate::focus::{Selected, next_region, prev_region};
use crate::tree::{NavigableTree, TreeNode, well_shaped, has_children, toggled_expansion};
use crate::tabs::{Tab, TabBar, added};
use crate::text_field::{TextField, InputMode, chars_of, inserted, backspaced, deleted};
use crate::select_menu::{SelectMenu, MenuOption, MenuEvent};
use crate::request::{
    Method,
    RequestDescriptor,
    RequestError,
    ResponseRecord,
    Dispatcher,
    DispatchState,
    outcome_record,
    resolved_url,
    method_name,
    all_methods,
};

verus! {

/// A key as the application sees it.
#[derive(Debug, Clone, Copy, PartialEq, Eq, Structural)]
pub enum KeyCode {
    Char(char),
    Enter,
    Esc,
    Tab,
    Backspace,
    Delete,
    Left,
    Right,
    Up,
    Down,
    Home,
    End,
    Other,
}

/// A key press, with whether Control was held.
#[derive(Debug, Clone, Copy, PartialEq, Eq, Structural)]
pub struct KeyEvent {
    pub code: KeyCode,
    pub ctrl: bool,
}

/// Control-C: stop the application.
pub open spec fn is_quit(k: KeyEvent) -> bool {
    k.ctrl && (k.code == KeyCode::Char('c') || k.code == KeyCode::Char('C'))
}

/// Control-B: show or hide the sidebar.
pub open spec fn is_toggle_sidebar(k: KeyEvent) -> bool {
    k.ctrl && (k.code == KeyCode::Char('b') || k.code == KeyCode::Char('B'))
}

/// Tab, `.` or `]`: focus the next region. Like every global command this is
/// checked before the focused region sees the key, so these characters cannot
/// be typed into the URL field.
pub open spec fn is_advance(k: KeyEvent) -> bool {
    k.code == KeyCode::Tab || k.code == KeyCode::Char('.') || k.code == KeyCode::Char(']')
}

/// `,` or `[`: focus the previous region.
pub open spec fn is_retreat(k: KeyEvent) -> bool {
    k.code == KeyCode::Char(',') || k.code == KeyCode::Char('[')
}

/// A key that the application handles before any region sees it.
pub open spec fn is_global(k: KeyEvent) -> bool {
    is_quit(k) || is_toggle_sidebar(k) || is_advance(k) || is_retreat(k)
}

/// Space, `o` or Enter: open the node under the tree's cursor.
pub open spec fn is_activate(code: KeyCode) -> bool {
    code == KeyCode::Char(' ') || code == KeyCode::Char('o') || code == KeyCode::Enter
}

/// Display settings.
#[derive(Debug, Clone, Copy, PartialEq, Eq, Structural)]
pub struct Settings {
    pub show_sidebar: bool,
    pub show_help: bool,
}

impl Settings {
    /// Sidebar shown, help hidden.
    pub fn new() -> (r: Settings)
        ensures
            r.show_sidebar,
            !r.show_help,
    {
        Settings { show_sidebar: true, show_help: false }
    }
}

/// The tree of saved requests, with its width in columns.
#[derive(Debug)]
pub struct SideBar {
    pub size: u16,
    pub selected: usize,
    pub tree: NavigableTree,
}

/// Method picker and URL field.
#[derive(Debug)]
pub struct UrlBar {
    pub title: String,
    pub field: TextField,
    pub method: Method,
    pub method_label: String,
    pub method_menu: SelectMenu<Method>,
}

/// The parts of a request that the request area can show.
#[derive(Debug, Clone, Copy, PartialEq, Eq, Structural)]
pub enum RequestMenu {
    Params,
    Headers,
    Body,
}

/// The request area: its body text and which part is shown.
#[derive(Debug)]
pub struct RequestBar {
    pub body: String,
    pub request_menu: RequestMenu,
}

impl RequestBar {
    /// Shows the previous part; no move at the first.
    pub fn left(&mut self)
        ensures
            final(self).body == old(self).body,
            final(self).request_menu == match old(self).request_menu {
                RequestMenu::Params => RequestMenu::Params,
                RequestMenu::Headers => RequestMenu::Params,
                RequestMenu::Body => RequestMenu::Headers,
            },
    {
        self.request_menu = match self.request_menu {
            RequestMenu::Params => RequestMenu::Params,
            RequestMenu::Headers => RequestMenu::Params,
            RequestMenu::Body => RequestMenu::Headers,
        };
    }

    /// Shows the next part; no move at the last.
    pub fn right(&mut self)
        ensures
            final(self).body == old(self).body,
            final(self).request_menu == match old(self).request_menu {
                RequestMenu::Params => RequestMenu::Headers,
                RequestMenu::Headers => RequestMenu::Body,
                RequestMenu::Body => RequestMenu::Body,
            },
    {
        self.request_menu = match self.request_menu {
            RequestMenu::Params => RequestMenu::Headers,
            RequestMenu::Headers => RequestMenu::Body,
            RequestMenu::Body => RequestMenu::Body,
        };
    }
}

/// The response area.
#[derive(Debug)]
pub struct ResponseBar {
    pub body: String,
}

/// Message shown for a URL that could not be resolved.
pub open spec fn parse_error_text() -> Seq<char> {
    "error: the URL could not be parsed"@
}

/// Prefix of the message shown for a failed transport.
pub open spec fn transport_error_prefix() -> Seq<char> {
    "error: request failed: "@
}

/// What the response area shows for a request outcome.
pub open spec fn outcome_text(r: Result<ResponseRecord, RequestError>) -> Seq<char> {
    match r {
        Ok(rec) => rec.body@,
        Err(RequestError::Parse) => parse_error_text(),
        Err(RequestError::Transport(m)) => transport_error_prefix() + m@,
    }
}

/// The state after quitting: only `running` changes, to false.
pub open spec fn quit_state(a: App) -> App {
    App { running: false, ..a }
}

/// The state after toggling the sidebar: its visibility flips, focus on the
/// sidebar moves to the tabs, and nothing else changes.
pub open spec fn sidebar_toggled_state(a: App) -> App {
    App {
        selected: if a.selected == Selected::Sidebar {
            Selected::Tabs
        } else {
            a.selected
        },
        settings: Settings { show_sidebar: !a.settings.show_sidebar, ..a.settings },
        ..a
    }
}

/// The state with focus on `s` and nothing else changed.
pub open spec fn focused_state(a: App, s: Selected) -> App {
    App { selected: s, ..a }
}

/// The whole application state.
#[derive(Debug)]
pub struct App {
    pub running: bool,
    pub selected: Selected,
    pub sidebar: SideBar,
    pub settings: Settings,
    pub tabs: TabBar,
    pub urlbar: UrlBar,
    pub requestbar: RequestBar,
    pub responsebar: ResponseBar,
    pub dispatcher: Dispatcher,
}

fn menu_of_methods() -> (r: SelectMenu<Method>)
    ensures
        r.wf(),
        r.options@.len() == 7,
        forall|i: int| 0 <= i < 7 ==> (#[trigger] r.options@[i]).value == all_methods()[i]
            && r.options@[i].label@ == method_name(r.options@[i].value),
        r.committed == 0,
        r.highlighted == 0,
        !r.open,
        r.pending@.len() == 0,
{
    let methods = Method::all();
    let mut options: Vec<MenuOption<Method>> = Vec::new();
    let mut i: usize = 0;
    while i < methods.len()
        invariant
            methods@ == all_methods(),
            i <= methods@.len(),
            options@.len() == i,
            forall|k: int| 0 <= k < i ==> (#[trigger] options@[k]).value == methods@[k]
                && options@[k].label@ == method_name(options@[k].value),
        decreases methods@.len() - i,
    {
        let m = methods[i];
        options.push(MenuOption { label: String::from_str(m.name()), value: m });
        i += 1;
    }
    SelectMenu::new(options)
}

/// The saved requests of a fresh application: a; b { c; d { e; f }; g }; d.
pub open spec fn is_default_forest(nodes: Seq<TreeNode>) -> bool {
    &&& nodes.len() == 8
    &&& nodes[0].label@ == "a"@ && nodes[0].depth == 0
    &&& nodes[1].label@ == "b"@ && nodes[1].depth == 0
    &&& nodes[2].label@ == "c"@ && nodes[2].depth == 1
    &&& nodes[3].label@ == "d"@ && nodes[3].depth == 1
    &&& nodes[4].label@ == "e"@ && nodes[4].depth == 2
    &&& nodes[5].label@ == "f"@ && nodes[5].depth == 2
    &&& nodes[6].label@ == "g"@ && nodes[6].depth == 1
    &&& nodes[7].label@ == "d"@ && nodes[7].depth == 0
}

/// The URL that a fresh application starts with.
pub open spec fn default_url() -> Seq<char> {
    "https://api.kanye.rest/?q=a"@
}

/// A tab for each root of the default forest, the first one selected.
fn default_tabs() -> (r: TabBar)
    ensures
        r.wf(),
        r.tabs@.len() == 3,
        r.names() == seq!["a"@, "b"@, "d"@],
        r.selected == 0,
{
    let tabs = vec![
        Tab { name: String::from_str("a") },
        Tab { name: String::from_str("b") },
        Tab { name: String::from_str("d") },
    ];
    proof {
        reveal_strlit("a");
        reveal_strlit("b");
        reveal_strlit("d");
    }
    let r = TabBar { selected: 0, tabs };
    assert(r.names() =~= seq!["a"@, "b"@, "d"@]);
    assert("a"@[0] != "b"@[0] && "a"@[0] != "d"@[0] && "b"@[0] != "d"@[0]);
    r
}

fn default_tree() -> (r: NavigableTree)
    ensures
        r.wf(),
        is_default_forest(r.nodes@),
        forall|i: int| 0 <= i < 8 ==> !#[trigger] r.expanded@[i],
        r.cursor == Some(0usize),
{
    let nodes = vec![
        TreeNode::new(String::from_str("a"), 0),
        TreeNode::new(String::from_str("b"), 0),
        TreeNode::new(String::from_str("c"), 1),
        TreeNode::new(String::from_str("d"), 1),
        TreeNode::new(String::from_str("e"), 2),
        TreeNode::new(String::from_str("f"), 2),
        TreeNode::new(String::from_str("g"), 1),
        TreeNode::new(String::from_str("d"), 0),
    ];
    assert(well_shaped(nodes@)) by {
        assert forall|i: int| 0 < i < nodes@.len() implies #[trigger] nodes@[i].depth <= nodes@[i - 1].depth + 1 by {
            assert(nodes@[i - 1].depth == nodes[i - 1].depth);
        }
    }
    NavigableTree::with_items(nodes)
}

impl App {
    /// All parts are in a consistent state.
    pub open spec fn wf(&self) -> bool {
        &&& self.sidebar.tree.wf()
        &&& self.tabs.wf()
        &&& self.urlbar.field.wf()
        &&& self.urlbar.method_menu.wf()
        &&& self.urlbar.method_menu.pending@.len() == 0
    }

    /// The starting state: a small tree of saved requests with the cursor on
    /// its first node, a tab per root, the URL field focused, and no response.
    pub fn new() -> (r: App)
        ensures
            r.wf(),
            r.running,
            r.selected == Selected::Urlbar,
            r.settings.show_sidebar,
            !r.settings.show_help,
            r.sidebar.size == 25,
            r.sidebar.selected == 0,
            is_default_forest(r.sidebar.tree.nodes@),
            forall|i: int| 0 <= i < 8 ==> !#[trigger] r.sidebar.tree.expanded@[i],
            r.sidebar.tree.cursor == Some(0usize),
            r.tabs.tabs@.len() == 3,
            r.tabs.names() == seq!["a"@, "b"@, "d"@],
            r.tabs.selected == 0,
            r.urlbar.title@ == default_url(),
            r.urlbar.field.text@ == default_url(),
            r.urlbar.field.cursor == 0,
            r.urlbar.field.mode == InputMode::Normal,
            r.urlbar.method == Method::Get,
            r.urlbar.method_label@ == method_name(r.urlbar.method),
            r.urlbar.method_menu.options@.len() == 7,
            forall|i: int| 0 <= i < 7 ==> (#[trigger] r.urlbar.method_menu.options@[i]).value
                == all_methods()[i],
            r.urlbar.method_menu.highlighted == 0,
            r.urlbar.method_menu.committed == 0,
            !r.urlbar.method_menu.open,
            r.requestbar.body@ == Seq::<char>::empty(),
            r.requestbar.request_menu == RequestMenu::Params,
            r.responsebar.body@ == Seq::<char>::empty(),
            r.dispatcher.state == DispatchState::Idle,
            r.dispatcher.last is None,
    {
        let tree = default_tree();
        let tabs = default_tabs();
        let url = "https://api.kanye.rest/?q=a";
        App {
            running: true,
            selected: Selected::Urlbar,
            sidebar: SideBar { size: 25, selected: 0, tree },
            settings: Settings::new(),
            tabs,
            urlbar: UrlBar {
                title: String::from_str(url),
                field: TextField::new(chars_of(url)),
                method: Method::Get,
                method_label: String::from_str(Method::Get.name()),
                method_menu: menu_of_methods(),
            },
            requestbar: RequestBar { body: String::new(), request_menu: RequestMenu::Params },
            responsebar: ResponseBar { body: String::new() },
            dispatcher: Dispatcher::new(),
        }
    }

    /// Handles the periodic tick; there is nothing to do on it.
    pub fn tick(&self) {
    }

    /// Stops the application.
    pub fn quit(&mut self)
        ensures
            *final(self) == quit_state(*old(self)),
    {
        self.running = false;
    }

    /// Shows or hides the sidebar. Focus on the sidebar moves to the tabs first,
    /// so that a hidden region never has focus.
    pub fn toggle_sidebar(&mut self)
        ensures
            *final(self) == sidebar_toggled_state(*old(self)),
    {
        if self.selected == Selected::Sidebar {
            self.selected = Selected::Tabs;
        }
        self.settings.show_sidebar = !self.settings.show_sidebar;
    }

    /// Columns that the sidebar takes: its size when shown, 0 when hidden.
    pub fn sidebar_size(&self) -> (r: u16)
        ensures
            r == if self.settings.show_sidebar { self.sidebar.size } else { 0u16 },
    {
        if self.settings.show_sidebar {
            self.sidebar.size
        } else {
            0
        }
    }

    /// `next` and `r` are the state and result of `request`.
    pub open spec fn request_step(&self, next: &App, r: Option<RequestDescriptor>) -> bool {
        &&& next.wf()
        &&& next.running == self.running
        &&& next.selected == self.selected
        &&& next.urlbar == self.urlbar
        &&& next.settings == self.settings
        &&& next.sidebar == self.sidebar
        &&& next.requestbar == self.requestbar
        &&& next.tabs == self.tabs
        &&& self.dispatcher.state == DispatchState::InFlight ==> r is None
            && next.dispatcher.state == DispatchState::InFlight
            && next.responsebar == self.responsebar && next.dispatcher == self.dispatcher
        &&& self.dispatcher.state == DispatchState::Idle ==> match resolved_url(
            self.urlbar.field.text@,
        ) {
            Some(u) => r matches Some(d) && d.method == self.urlbar.method && d.url@ == u
                && d.body@ == self.requestbar.body@ && next.dispatcher.state
                == DispatchState::InFlight && next.dispatcher.last == self.dispatcher.last
                && next.responsebar == self.responsebar,
            None => {
                &&& r is None
                &&& next.dispatcher.state == DispatchState::Idle
                &&& next.responsebar.body@ == parse_error_text()
                &&& next.dispatcher.last matches Some(Err(RequestError::Parse))
            },
        }
    }

    /// `next` is the state after the sidebar handles `code`.
    pub open spec fn sidebar_key_step(&self, next: &App, code: KeyCode) -> bool {
        &&& next.wf()
        &&& next.running == self.running
        &&& next.settings == self.settings
        &&& next.urlbar == self.urlbar
        &&& next.dispatcher == self.dispatcher
        &&& next.sidebar.size == self.sidebar.size
        &&& next.sidebar.selected == self.sidebar.selected
        &&& next.requestbar == self.requestbar
        &&& next.responsebar == self.responsebar
        &&& next.sidebar.tree.nodes@ == self.sidebar.tree.nodes@
        &&& is_activate(code) ==> match self.sidebar.tree.cursor {
            Some(c) => if has_children(self.sidebar.tree.nodes@, c as int) {
                &&& next.sidebar.tree.expanded@ == toggled_expansion(
                    self.sidebar.tree.nodes@,
                    self.sidebar.tree.expanded@,
                    self.sidebar.tree.cursor,
                )
                &&& next.tabs == self.tabs
                &&& next.selected == self.selected
            } else {
                &&& (next.tabs.names(), next.tabs.selected as int) == added(
                    self.tabs.names(),
                    self.tabs.selected as int,
                    self.sidebar.tree.nodes@[c as int].label@,
                )
                &&& next.selected == Selected::Tabs
                &&& next.sidebar.tree.expanded@ == self.sidebar.tree.expanded@
            },
            None => next.tabs == self.tabs && next.selected
                == self.selected,
        }
        &&& !is_activate(code) ==> next.tabs == self.tabs && next.selected == self.selected
        &&& is_activate(code) ==> next.sidebar.tree.cursor == self.sidebar.tree.cursor
        &&& code == KeyCode::Left ==> self.sidebar.tree.left_step(&next.sidebar.tree)
        &&& code == KeyCode::Right ==> self.sidebar.tree.right_step(&next.sidebar.tree)
        &&& code == KeyCode::Down ==> self.sidebar.tree.down_step(&next.sidebar.tree)
        &&& code == KeyCode::Up ==> self.sidebar.tree.up_step(&next.sidebar.tree)
        &&& code == KeyCode::Home ==> self.sidebar.tree.first_step(&next.sidebar.tree)
        &&& code == KeyCode::End ==> self.sidebar.tree.last_step(&next.sidebar.tree)
    }

    /// `next` is the state after the tab strip handles `code`.
    pub open spec fn tabs_key_step(&self, next: &App, code: KeyCode) -> bool {
        &&& next.settings == self.settings
        &&& next.wf()
        &&& next.tabs.tabs@ == self.tabs.tabs@
        &&& next.sidebar == self.sidebar
        &&& next.requestbar == self.requestbar
        &&& next.responsebar == self.responsebar
        &&& next.dispatcher == self.dispatcher
        &&& next.urlbar == self.urlbar
        &&& next.selected == self.selected
        &&& next.running == self.running
        &&& (code == KeyCode::Left || code == KeyCode::Up) ==> next.tabs.selected == if self.tabs.selected > 0 {
            (self.tabs.selected - 1) as usize
        } else {
            0usize
        }
        &&& (code == KeyCode::Right || code == KeyCode::Down) ==> next.tabs.selected as int
            == if self.tabs.selected + 1 < self.tabs.tabs@.len() {
            self.tabs.selected + 1
        } else {
            self.tabs.selected as int
        }
        &&& code == KeyCode::Home ==> next.tabs.selected == 0
        &&& code == KeyCode::End && self.tabs.tabs@.len() > 0 ==> next.tabs.selected
            == self.tabs.tabs@.len() - 1
        &&& !(code == KeyCode::Left || code == KeyCode::Up || code == KeyCode::Right || code
            == KeyCode::Down || code == KeyCode::Home || code == KeyCode::End) ==> next.tabs
            == self.tabs
    }

    /// `next` is the state after the method picker handles `code`.
    pub open spec fn method_key_step(&self, next: &App, code: KeyCode) -> bool {
        &&& next.settings == self.settings
        &&& next.wf()
        &&& next.urlbar.field == self.urlbar.field
        &&& next.sidebar == self.sidebar
        &&& next.urlbar.title == self.urlbar.title
        &&& next.requestbar == self.requestbar
        &&& next.responsebar == self.responsebar
        &&& next.dispatcher == self.dispatcher
        &&& next.tabs == self.tabs
        &&& next.selected == self.selected
        &&& next.running == self.running
        &&& next.urlbar.method_menu.options@ == self.urlbar.method_menu.options@
        &&& next.urlbar.method_menu.pending@.len() == 0
        &&& code == KeyCode::Enter ==> {
            &&& next.urlbar.method == self.urlbar.method_menu.options@[self.urlbar.method_menu.highlighted as int].value
            &&& next.urlbar.method_label@ == method_name(next.urlbar.method)
            &&& !next.urlbar.method_menu.open
        }
        &&& code != KeyCode::Enter ==> {
            &&& next.urlbar.method == self.urlbar.method
            &&& next.urlbar.method_label == self.urlbar.method_label
            &&& next.urlbar.method_menu.committed == self.urlbar.method_menu.committed
        }
        &&& (code == KeyCode::Char('h') || code == KeyCode::Left || code == KeyCode::Char('k')
            || code == KeyCode::Up) ==> next.urlbar.method_menu.highlighted == if self.urlbar.method_menu.highlighted
            > 0 {
            (self.urlbar.method_menu.highlighted - 1) as usize
        } else {
            0usize
        }
        &&& (code == KeyCode::Char('l') || code == KeyCode::Right || code == KeyCode::Char('j')
            || code == KeyCode::Down) ==> next.urlbar.method_menu.highlighted as int == if self.urlbar.method_menu.highlighted
            + 1 < self.urlbar.method_menu.options@.len() {
            self.urlbar.method_menu.highlighted + 1
        } else {
            self.urlbar.method_menu.highlighted as int
        }
        &&& code == KeyCode::Esc ==> next.urlbar.method_menu.highlighted == self.urlbar.method_menu.committed
            && !next.urlbar.method_menu.open
        &&& !(code == KeyCode::Enter || code == KeyCode::Esc) ==> next.urlbar.method_menu.open
            == self.urlbar.method_menu.open
        &&& !(code == KeyCode::Char('h') || code == KeyCode::Left || code == KeyCode::Char('l')
            || code == KeyCode::Right || code == KeyCode::Char('j') || code == KeyCode::Down
            || code == KeyCode::Char('k') || code == KeyCode::Up || code == KeyCode::Esc || code
            == KeyCode::Enter) ==> next.urlbar.method_menu.highlighted
            == self.urlbar.method_menu.highlighted
    }

    /// `next` and `r` are the state and result after the URL field handles `code`.
    pub open spec fn url_key_step(&self, next: &App, code: KeyCode, r: Option<RequestDescriptor>) -> bool {
        &&& next.settings == self.settings
        &&& next.wf()
        &&& next.sidebar == self.sidebar
        &&& next.requestbar == self.requestbar
        &&& next.tabs == self.tabs
        &&& next.selected == self.selected
        &&& next.running == self.running
        &&& r is Some ==> self.urlbar.field.mode == InputMode::Normal && code == KeyCode::Char('o')
        &&& self.urlbar.field.mode == InputMode::Normal ==> {
            &&& next.urlbar.field.text@ == self.urlbar.field.text@
            &&& next.urlbar.field.cursor == self.urlbar.field.cursor
            &&& next.urlbar.field.mode == if code == KeyCode::Enter || code == KeyCode::Char('i') {
                InputMode::Insert
            } else {
                InputMode::Normal
            }
        }
        &&& self.urlbar.field.mode == InputMode::Insert ==> {
            let (t, c) = (self.urlbar.field.text@, self.urlbar.field.cursor as int);
            let (t2, c2) = (next.urlbar.field.text@, next.urlbar.field.cursor as int);
            &&& next.urlbar.field.mode == if code == KeyCode::Enter {
                InputMode::Normal
            } else {
                InputMode::Insert
            }
            &&& match code {
                KeyCode::Char(ch) => t.len() < usize::MAX ==> (t2, c2) == inserted(t, c, ch),
                KeyCode::Backspace => (t2, c2) == backspaced(t, c),
                KeyCode::Delete => t2 == deleted(t, c) && c2 == c,
                KeyCode::Left => t2 == t && c2 == if c > 0 { c - 1 } else { 0 },
                KeyCode::Right => t2 == t && c2 == if c < t.len() { c + 1 } else { c },
                KeyCode::Home => t2 == t && c2 == 0,
                KeyCode::End => t2 == t && c2 == t.len(),
                _ => t2 == t && c2 == c,
            }
        }
        &&& self.urlbar.field.mode == InputMode::Normal && code == KeyCode::Char('o') ==> self.request_step(
            next,
            r,
        )
        &&& !(self.urlbar.field.mode == InputMode::Normal && code == KeyCode::Char('o')) ==> {
            &&& r is None
            &&& next.urlbar.method == self.urlbar.method
            &&& next.dispatcher == self.dispatcher
            &&& next.responsebar == self.responsebar
            &&& next.urlbar.title == self.urlbar.title
            &&& next.urlbar.method_label == self.urlbar.method_label
            &&& next.urlbar.method_menu == self.urlbar.method_menu
        }
    }

    /// `next` is the state after the request part selector handles `code`.
    pub open spec fn request_tab_key_step(&self, next: &App, code: KeyCode) -> bool {
        &&& next.settings == self.settings
        &&& next.requestbar.body == self.requestbar.body
        &&& (code == KeyCode::Char('h') || code == KeyCode::Left || code == KeyCode::Char('j')
            || code == KeyCode::Down) ==> next.requestbar.request_menu == match self.requestbar.request_menu {
            RequestMenu::Params => RequestMenu::Params,
            RequestMenu::Headers => RequestMenu::Params,
            RequestMenu::Body => RequestMenu::Headers,
        }
        &&& (code == KeyCode::Char('l') || code == KeyCode::Right || code == KeyCode::Char('k')
            || code == KeyCode::Up) ==> next.requestbar.request_menu == match self.requestbar.request_menu {
            RequestMenu::Params => RequestMenu::Headers,
            RequestMenu::Headers => RequestMenu::Body,
            RequestMenu::Body => RequestMenu::Body,
        }
        &&& next.sidebar == self.sidebar
        &&& next.responsebar == self.responsebar
        &&& next.dispatcher == self.dispatcher
        &&& next.tabs == self.tabs
        &&& next.urlbar == self.urlbar
        &&& next.selected == self.selected
        &&& next.running == self.running
        &&& !(code == KeyCode::Char('h') || code == KeyCode::Left || code == KeyCode::Char('j')
            || code == KeyCode::Down || code == KeyCode::Char('l') || code == KeyCode::Right
            || code == KeyCode::Char('k') || code == KeyCode::Up) ==> next.requestbar
            == self.requestbar
    }

    /// Fires the request that the URL bar and the request area describe. The
    /// built request is returned for sending, and the dispatcher then waits for
    /// its outcome. While another request is in flight nothing happens. URL text
    /// that cannot be resolved leaves an error message in the response area.
    pub fn request(&mut self) -> (r: Option<RequestDescriptor>)
        requires
            old(self).wf(),
        ensures
            old(self).request_step(final(self), r),
    {
        let url = self.urlbar.field.text_string();
        let was_idle = self.dispatcher.state == DispatchState::Idle;
        let r = self.dispatcher.fire(self.urlbar.method, url.as_str(), self.requestbar.body.as_str());
        if was_idle && r.is_none() {
            self.responsebar.body = String::from_str("error: the URL could not be parsed");
        }
        r
    }

    /// Takes the outcome of the request in flight: the response body, or the
    /// transport's error message. The response area shows the body or the
    /// error, and the dispatcher is ready for the next request. An outcome that
    /// arrives with no request in flight is ignored.
    pub fn finish_request(&mut self, outcome: Result<String, String>)
        requires
            old(self).wf(),
        ensures
            final(self).wf(),
            final(self).running == old(self).running,
            final(self).selected == old(self).selected,
            final(self).dispatcher.state == DispatchState::Idle,
            old(self).dispatcher.state == DispatchState::InFlight ==> final(self).dispatcher.last
                == Some(outcome_record(outcome)) && final(self).responsebar.body@ == outcome_text(
                outcome_record(outcome),
            ),
            old(self).dispatcher.state == DispatchState::Idle ==> final(self).dispatcher.last
                == old(self).dispatcher.last && final(self).responsebar.body
                == old(self).responsebar.body,
    {
        if self.dispatcher.state == DispatchState::Idle {
            return;
        }
        let text = match &outcome {
            Ok(b) => b.clone(),
            Err(m) => String::from_str("error: request failed: ").concat(m.as_str()),
        };
        self.dispatcher.complete(outcome);
        self.responsebar.body = text;
    }

    /// Hands a key to the tree of saved requests. Space, `o` or Enter on a leaf
    /// opens it as a tab and focuses the tabs; on a node with children the same
    /// keys toggle its expansion. Arrows, Home and End move through the tree.
    pub fn handle_sidebar_key(&mut self, code: KeyCode)
        requires
            old(self).wf(),
        ensures
            old(self).sidebar_key_step(final(self), code),
    {
        match code {
            KeyCode::Char(' ') | KeyCode::Char('o') | KeyCode::Enter => {
                if let Some(c) = self.sidebar.tree.selected() {
                    if self.sidebar.tree.has_children_at(c) {
                        self.sidebar.tree.toggle();
                    } else {
                        self.tabs.add(&self.sidebar.tree.nodes[c].label);
                        self.selected = Selected::Tabs;
                    }
                }
            },
            KeyCode::Left => self.sidebar.tree.left(),
            KeyCode::Right => self.sidebar.tree.right(),
            KeyCode::Down => self.sidebar.tree.down(),
            KeyCode::Up => self.sidebar.tree.up(),
            KeyCode::Home => self.sidebar.tree.first(),
            KeyCode::End => self.sidebar.tree.last(),
            _ => {},
        }
    }

    /// Hands a key to the tab strip: Left and Up select the previous tab, Right
    /// and Down the next, Home and End the first and last.
    pub fn handle_tabs_key(&mut self, code: KeyCode)
        requires
            old(self).wf(),
        ensures
            old(self).tabs_key_step(final(self), code),
    {
        match code {
            KeyCode::Left | KeyCode::Up => self.tabs.left(),
            KeyCode::Right | KeyCode::Down => self.tabs.right(),
            KeyCode::Home => self.tabs.first(),
            KeyCode::End => self.tabs.last(),
            _ => {},
        }
    }

    /// Hands a key to the method picker: `h`/Left, `l`/Right, `j`/Down and
    /// `k`/Up move the highlight, Esc drops it back to the committed method,
    /// Enter commits it. Each committed choice then becomes the request's
    /// method and the picker's label, and the picker closes.
    pub fn handle_method_key(&mut self, code: KeyCode)
        requires
            old(self).wf(),
        ensures
            old(self).method_key_step(final(self), code),
    {
        match code {
            KeyCode::Char('h') | KeyCode::Left => self.urlbar.method_menu.left(),
            KeyCode::Char('l') | KeyCode::Right => self.urlbar.method_menu.right(),
            KeyCode::Char('j') | KeyCode::Down => self.urlbar.method_menu.down(),
            KeyCode::Char('k') | KeyCode::Up => self.urlbar.method_menu.up(),
            KeyCode::Esc => self.urlbar.method_menu.reset(),
            KeyCode::Enter => self.urlbar.method_menu.select(),
            _ => {},
        }
        let events = self.urlbar.method_menu.drain_events();
        let ghost highlighted = self.urlbar.method_menu.highlighted;
        let ghost committed = self.urlbar.method_menu.committed;
        let ghost opened = self.urlbar.method_menu.open;
        let ghost chosen = old(self).urlbar.method_menu.options@[old(self).urlbar.method_menu.highlighted as int].value;
        let mut i: usize = 0;
        while i < events.len()
            invariant
                self.wf(),
                self.urlbar.field == old(self).urlbar.field,
                self.sidebar == old(self).sidebar,
                self.urlbar.title == old(self).urlbar.title,
                self.requestbar == old(self).requestbar,
                self.responsebar == old(self).responsebar,
                self.dispatcher == old(self).dispatcher,
                self.tabs == old(self).tabs,
                self.selected == old(self).selected,
                self.running == old(self).running,
                self.settings == old(self).settings,
                self.urlbar.method_menu.options@ == old(self).urlbar.method_menu.options@,
                self.urlbar.method_menu.pending@.len() == 0,
                i <= events@.len(),
                self.urlbar.method_menu.highlighted == highlighted,
                self.urlbar.method_menu.committed == committed,
                i == 0 ==> self.urlbar.method_menu.open == opened,
                code != KeyCode::Enter ==> events@.len() == 0 && self.urlbar.method == old(
                    self,
                ).urlbar.method && self.urlbar.method_label == old(self).urlbar.method_label,
                code == KeyCode::Enter ==> events@.len() > 0 && events@.last() == MenuEvent::Selected(chosen),
                code == KeyCode::Enter && i == 0 ==> !self.urlbar.method_menu.open,
                i > 0 ==> events@[i - 1] == MenuEvent::Selected(self.urlbar.method)
                    && self.urlbar.method_label@ == method_name(self.urlbar.method)
                    && !self.urlbar.method_menu.open,
            decreases events@.len() - i,
        {
            match events[i] {
                MenuEvent::Selected(m) => {
                    self.urlbar.method_label = String::from_str(m.name());
                    self.urlbar.method_menu.close();
                    self.urlbar.method = m;
                },
            }
            i += 1;
        }
    }

    /// Hands a key to the URL field. In navigation mode Enter or `i` starts
    /// editing and `o` fires the request, which is returned for sending. In
    /// editing mode Enter stops editing, a character is inserted at the cursor,
    /// and Backspace, Delete, the arrows, Home and End edit and move as in any
    /// text field.
    pub fn handle_url_key(&mut self, code: KeyCode) -> (r: Option<RequestDescriptor>)
        requires
            old(self).wf(),
        ensures
            old(self).url_key_step(final(self), code, r),
    {
        match self.urlbar.field.mode {
            InputMode::Normal => match code {
                KeyCode::Enter | KeyCode::Char('i') => {
                    self.urlbar.field.enter_edit();
                    None
                },
                KeyCode::Char('o') => self.request(),
                _ => None,
            },
            InputMode::Insert => {
                match code {
                    KeyCode::Enter => self.urlbar.field.leave_edit(),
                    KeyCode::Char(ch) => {
                        if self.urlbar.field.text.len() < usize::MAX {
                            self.urlbar.field.insert_char(ch);
                        }
                    },
                    KeyCode::Backspace => self.urlbar.field.backspace(),
                    KeyCode::Delete => self.urlbar.field.delete(),
                    KeyCode::Left => self.urlbar.field.move_left(),
                    KeyCode::Right => self.urlbar.field.move_right(),
                    KeyCode::Home => self.urlbar.field.move_home(),
                    KeyCode::End => self.urlbar.field.move_end(),
                    _ => {},
                }
                None
            },
        }
    }

    /// Hands a key to the request area's part selector: `h`, Left, `j` and Down
    /// show the previous part, `l`, Right, `k` and Up the next.
    pub fn handle_request_tab_key(&mut self, code: KeyCode)
        ensures
            old(self).request_tab_key_step(final(self), code),
    {
        match code {
            KeyCode::Char('h') | KeyCode::Left | KeyCode::Char('j') | KeyCode::Down => self.requestbar.left(),
            KeyCode::Char('l') | KeyCode::Right | KeyCode::Char('k') | KeyCode::Up => self.requestbar.right(),
            _ => {},
        }
    }

    /// Handles one key press. Quit, sidebar toggle and focus moves are checked
    /// first, whatever region has focus, and go no further. Any other key goes
    /// to the focused region's handler. A request that the key fires is
    /// returned for sending.
    pub fn handle_key_events(&mut self, key: KeyEvent) -> (r: Option<RequestDescriptor>)
        requires
            old(self).wf(),
        ensures
            final(self).wf(),
            is_global(key) ==> r is None,
            is_quit(key) ==> *final(self) == quit_state(*old(self)),
            !is_quit(key) && is_toggle_sidebar(key) ==> *final(self) == sidebar_toggled_state(*old(self)),
            !is_quit(key) && !is_toggle_sidebar(key) && is_advance(key) ==> *final(self) == focused_state(
                *old(self),
                next_region(old(self).selected),
            ),
            !is_quit(key) && !is_toggle_sidebar(key) && !is_advance(key) && is_retreat(key)
                ==> *final(self) == focused_state(*old(self), prev_region(old(self).selected)),
            !is_global(key) ==> match old(self).selected {
                Selected::Sidebar => r is None && old(self).sidebar_key_step(final(self), key.code),
                Selected::Tabs => r is None && old(self).tabs_key_step(final(self), key.code),
                Selected::MethodBar => r is None && old(self).method_key_step(final(self), key.code),
                Selected::Urlbar => old(self).url_key_step(final(self), key.code, r),
                Selected::RequestTab => r is None && old(self).request_tab_key_step(
                    final(self),
                    key.code,
                ),
                _ => r is None && *final(self) == *old(self),
            },
    {
        let code = key.code;
        if key.ctrl && (code == KeyCode::Char('c') || code == KeyCode::Char('C')) {
            self.quit();
            return None;
        }
        if key.ctrl && (code == KeyCode::Char('b') || code == KeyCode::Char('B')) {
            self.toggle_sidebar();
            return None;
        }
        if code == KeyCode::Tab || code == KeyCode::Char('.') || code == KeyCode::Char(']') {
            self.selected = self.selected.advance();
            return None;
        }
        if code == KeyCode::Char(',') || code == KeyCode::Char('[') {
            self.selected = self.selected.retreat();
            return None;
        }
        match self.selected {
            Selected::Sidebar => {
                self.handle_sidebar_key(code);
                None
            },
            Selected::Tabs => {
                self.handle_tabs_key(code);
                None
            },
            Selected::MethodBar => {
                self.handle_method_key(code);
                None
            },
            Selected::Urlbar => self.handle_url_key(code),
            Selected::RequestTab => {
                self.handle_request_tab_key(code);
                None
            },
            Selected::Requestbar => None,
            Selected::Responsebar => None,
        }
    }
}

} // verus!
