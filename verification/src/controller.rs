//! The application controller: it owns the focus state, the URL field, the
//! method picker, the tab strip and the pending pointer press, interprets
//! each input event, and tells the event loop what outside work is left
//! (exit, send the request, or forward a key to the active multi-line pane).

use vstd::prelude::*;

use crate::app::{
    is_within_block, next_focus, next_selection, previous_focus, previous_selection, tab_left,
    tab_right, Rect, RequestType, SelectionState, StatefulList, TabContainer,
};
use crate::event::Key;
use crate::text_input::{edit_key_model, text_wf, TextInput, TextModel};

verus! {

/// What the event loop must do after the controller has handled a key.
#[derive(Clone, Copy, PartialEq, Eq, Structural, Debug)]
pub enum Action {
    /// Nothing beyond the state change already made.
    Idle,
    /// Leave the event loop.
    Exit,
    /// Send the current request snapshot and store the response.
    Send,
    /// Forward the key to the multi-line pane at this tab index.
    EditPane(usize),
}

/// Mathematical model of the whole controller state.
#[verifier::ext_equal]
pub struct AppView {
    pub url: TextModel,
    pub method: RequestType,
    pub focus: SelectionState,
    pub methods: Seq<RequestType>,
    pub method_selection: Option<int>,
    pub tab_labels: Seq<Seq<char>>,
    pub tab_index: int,
    pub popup_open: bool,
    pub response: Seq<char>,
    pub pending_pointer: Option<(u16, u16)>,
}

impl AppView {
    /// The caret, the method selection and the tab index are all in range,
    /// and the method list is non-empty.
    pub open spec fn wf(self) -> bool {
        &&& text_wf(self.url)
        &&& self.methods.len() > 0
        &&& (self.method_selection matches Some(i) ==> 0 <= i < self.methods.len())
        &&& 0 <= self.tab_index < self.tab_labels.len()
    }
}

/// Keys routed to whichever region holds the focus, after the global
/// combinations have had their chance.
pub open spec fn route_key(m: AppView, key: Key) -> (AppView, Action) {
    match m.focus {
        SelectionState::Unfocused => (m, Action::Idle),
        SelectionState::UrlField => (
            AppView { url: edit_key_model(m.url, key), ..m },
            Action::Idle,
        ),
        SelectionState::ActivePane => (m, Action::EditPane(m.tab_index as usize)),
        SelectionState::TabStrip => match key {
            Key::Left => (AppView { tab_index: tab_left(m.tab_index), ..m }, Action::Idle),
            Key::Right => (
                AppView { tab_index: tab_right(m.tab_index, m.tab_labels.len() as int), ..m },
                Action::Idle,
            ),
            Key::Enter => (AppView { focus: next_focus(m.focus), ..m }, Action::Idle),
            _ => (m, Action::Idle),
        },
        SelectionState::MethodField => match key {
            Key::Enter => (
                AppView { popup_open: true, focus: SelectionState::MethodPopup, ..m },
                Action::Idle,
            ),
            _ => (m, Action::Idle),
        },
        SelectionState::MethodPopup => match key {
            Key::Down => (
                AppView {
                    method_selection: next_selection(m.method_selection, m.methods.len() as int),
                    ..m
                },
                Action::Idle,
            ),
            Key::Up => (
                AppView {
                    method_selection: previous_selection(
                        m.method_selection,
                        m.methods.len() as int,
                    ),
                    ..m
                },
                Action::Idle,
            ),
            Key::Enter => match m.method_selection {
                Some(i) => (
                    AppView {
                        method: m.methods[i],
                        popup_open: false,
                        focus: SelectionState::MethodField,
                        ..m
                    },
                    Action::Idle,
                ),
                None => (m, Action::Idle),
            },
            _ => (m, Action::Idle),
        },
    }
}

/// One step of the controller on a key event. Escape closes the popup or
/// asks for exit; the control combinations send the request and move focus;
/// everything else is routed to the focused region.
pub open spec fn key_step(m: AppView, key: Key, ctrl: bool) -> (AppView, Action) {
    if key == Key::Esc {
        if m.popup_open {
            (
                AppView { popup_open: false, focus: SelectionState::MethodField, ..m },
                Action::Idle,
            )
        } else {
            (m, Action::Exit)
        }
    } else if ctrl && key == Key::Char('r') {
        (m, Action::Send)
    } else if ctrl && key == Key::Char('n') {
        (AppView { focus: next_focus(m.focus), ..m }, Action::Idle)
    } else if ctrl && key == Key::Char('p') {
        (AppView { focus: previous_focus(m.focus), ..m }, Action::Idle)
    } else {
        route_key(m, key)
    }
}

/// Resolve a pending pointer press against the four focusable regions, in
/// their fixed priority order; the press is consumed whether or not any
/// region matched, so it can never linger.
pub open spec fn pointer_step(
    m: AppView,
    method_rect: Rect,
    url_rect: Rect,
    tabs_rect: Rect,
    pane_rect: Rect,
) -> AppView {
    match m.pending_pointer {
        Some(p) => {
            let focus = if method_rect.spec_contains(p.0 as int, p.1 as int) {
                SelectionState::MethodField
            } else if url_rect.spec_contains(p.0 as int, p.1 as int) {
                SelectionState::UrlField
            } else if tabs_rect.spec_contains(p.0 as int, p.1 as int) {
                SelectionState::TabStrip
            } else if pane_rect.spec_contains(p.0 as int, p.1 as int) {
                SelectionState::ActivePane
            } else {
                m.focus
            };
            AppView { focus: focus, pending_pointer: None, ..m }
        },
        None => m,
    }
}

/// The controller state: every interactive widget's model and the focus.
pub struct App {
    pub url_text_input: TextInput,
    pub selected_request_type: RequestType,
    pub selected_input: SelectionState,
    pub request_types: StatefulList<RequestType>,
    pub tabs: TabContainer<&'static str>,
    pub show_request_type_popup: bool,
    pub response_text: String,
    pub last_mouse_down_event: Option<(u16, u16)>,
}

impl View for App {
    type V = AppView;

    open spec fn view(&self) -> AppView {
        AppView {
            url: self.url_text_input@,
            method: self.selected_request_type,
            focus: self.selected_input,
            methods: self.request_types.items@,
            method_selection: self.request_types.spec_selected(),
            tab_labels: self.tabs.items@.map_values(|t: &'static str| t@),
            tab_index: self.tabs.index as int,
            popup_open: self.show_request_type_popup,
            response: self.response_text@,
            pending_pointer: self.last_mouse_down_event,
        }
    }
}

impl App {
    /// The initial state: nothing focused, GET selected, six methods to
    /// pick from, four panes with the first tab active, everything empty.
    pub fn new() -> (r: App)
        ensures
            r@.wf(),
            r@.url.content.len() == 0,
            r@.url.caret == 0,
            r@.method == RequestType::Get,
            r@.focus == SelectionState::Unfocused,
            r@.methods =~= seq![
                RequestType::Get,
                RequestType::Post,
                RequestType::Put,
                RequestType::Delete,
                RequestType::Head,
                RequestType::Options,
            ],
            r@.method_selection is None,
            r@.tab_labels =~= seq!["Query"@, "Headers"@, "Body"@, "Auth"@],
            r@.tab_index == 0,
            !r@.popup_open,
            r@.response.len() == 0,
            r@.pending_pointer is None,
    {
        let mut methods: Vec<RequestType> = Vec::new();
        methods.push(RequestType::Get);
        methods.push(RequestType::Post);
        methods.push(RequestType::Put);
        methods.push(RequestType::Delete);
        methods.push(RequestType::Head);
        methods.push(RequestType::Options);
        let mut tab_items: Vec<&'static str> = Vec::new();
        tab_items.push("Query");
        tab_items.push("Headers");
        tab_items.push("Body");
        tab_items.push("Auth");
        App {
            url_text_input: TextInput::new(),
            selected_request_type: RequestType::Get,
            selected_input: SelectionState::Unfocused,
            request_types: StatefulList::with_items(methods),
            tabs: TabContainer { items: tab_items, index: 0 },
            show_request_type_popup: false,
            response_text: String::new(),
            last_mouse_down_event: None,
        }
    }

    /// Close the method popup and hand focus back to the method field — and
    /// to nothing else, whatever was focused before the popup opened.
    pub fn close_popup(&mut self)
        ensures
            final(self)@ == (AppView {
                popup_open: false,
                focus: SelectionState::MethodField,
                ..old(self)@
            }),
    {
        self.show_request_type_popup = false;
        self.selected_input = SelectionState::MethodField;
    }

    /// Remember a primary-button press until the next render pass resolves
    /// it to a region.
    pub fn record_mouse_down(&mut self, x: u16, y: u16)
        ensures
            final(self)@ == (AppView { pending_pointer: Some((x, y)), ..old(self)@ }),
    {
        self.last_mouse_down_event = Some((x, y));
    }

    /// Store the response text for display.
    pub fn set_response(&mut self, text: String)
        ensures
            final(self)@ == (AppView { response: text@, ..old(self)@ }),
    {
        self.response_text = text;
    }

    /// Handle one key press: exactly the step that `key_step` describes.
    pub fn handle_key(&mut self, key: Key, ctrl: bool) -> (a: Action)
        requires
            old(self)@.wf(),
        ensures
            final(self)@ == key_step(old(self)@, key, ctrl).0,
            a == key_step(old(self)@, key, ctrl).1,
            final(self)@.wf(),
    {
        if key == Key::Esc {
            if self.show_request_type_popup {
                self.close_popup();
                Action::Idle
            } else {
                Action::Exit
            }
        } else if ctrl && key == Key::Char('r') {
            Action::Send
        } else if ctrl && key == Key::Char('n') {
            self.selected_input = self.selected_input.next();
            Action::Idle
        } else if ctrl && key == Key::Char('p') {
            self.selected_input = self.selected_input.previous();
            Action::Idle
        } else {
            match self.selected_input {
                SelectionState::Unfocused => Action::Idle,
                SelectionState::UrlField => {
                    self.url_text_input.on_input(key);
                    Action::Idle
                },
                SelectionState::ActivePane => Action::EditPane(self.tabs.index),
                SelectionState::TabStrip => {
                    match key {
                        Key::Left => self.tabs.move_left(),
                        Key::Right => self.tabs.move_right(),
                        Key::Enter => {
                            self.selected_input = self.selected_input.next();
                        },
                        _ => {},
                    }
                    Action::Idle
                },
                SelectionState::MethodField => {
                    if key == Key::Enter {
                        self.show_request_type_popup = true;
                        self.selected_input = SelectionState::MethodPopup;
                    }
                    Action::Idle
                },
                SelectionState::MethodPopup => {
                    match key {
                        Key::Down => self.request_types.next(),
                        Key::Up => self.request_types.previous(),
                        Key::Enter => {
                            let committed = match self.request_types.get() {
                                Some(request_type) => Some(*request_type),
                                None => None,
                            };
                            match committed {
                                Some(request_type) => {
                                    self.selected_request_type = request_type;
                                    self.close_popup();
                                },
                                None => {},
                            }
                        },
                        _ => {},
                    }
                    Action::Idle
                },
            }
        }
    }

    /// Resolve the pending pointer press against the regions' rectangles,
    /// setting focus to the first region hit; the press is consumed either
    /// way.
    pub fn resolve_pointer(
        &mut self,
        method_rect: Rect,
        url_rect: Rect,
        tabs_rect: Rect,
        pane_rect: Rect,
    )
        requires
            old(self)@.wf(),
        ensures
            final(self)@ == pointer_step(old(self)@, method_rect, url_rect, tabs_rect, pane_rect),
            final(self)@.wf(),
    {
        match self.last_mouse_down_event {
            Some(position) => {
                if is_within_block(&method_rect, position) {
                    self.selected_input = SelectionState::MethodField;
                } else if is_within_block(&url_rect, position) {
                    self.selected_input = SelectionState::UrlField;
                } else if is_within_block(&tabs_rect, position) {
                    self.selected_input = SelectionState::TabStrip;
                } else if is_within_block(&pane_rect, position) {
                    self.selected_input = SelectionState::ActivePane;
                }
                self.last_mouse_down_event = None;
            },
            None => {},
        }
    }
}

/// Law: whenever the popup is open, Escape closes it and hands focus to the
/// method field and to no other region, whatever the rest of the state holds
/// and whether or not control is held.
pub proof fn lemma_escape_always_closes_to_method_field(m: AppView, ctrl: bool)
    requires
        m.popup_open,
    ensures
        key_step(m, Key::Esc, ctrl).0.focus == SelectionState::MethodField,
        !key_step(m, Key::Esc, ctrl).0.popup_open,
        key_step(m, Key::Esc, ctrl).1 == Action::Idle,
{
}

/// Law: opening the popup from the method field and then pressing Escape
/// returns focus to exactly the method field — never to whatever region was
/// focused before the method field was.
pub proof fn lemma_popup_escape_returns_focus(m: AppView)
    requires
        m.focus == SelectionState::MethodField,
    ensures
        ({
            let opened = key_step(m, Key::Enter, false).0;
            &&& opened.popup_open
            &&& opened.focus == SelectionState::MethodPopup
            &&& key_step(opened, Key::Esc, false).0.focus == SelectionState::MethodField
            &&& !key_step(opened, Key::Esc, false).0.popup_open
        }),
{
}

} // verus!
