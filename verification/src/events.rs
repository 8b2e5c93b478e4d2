//! Keystroke routing: the dispatch table keyed by (pane, mode) that decides
//! what each keystroke means, stated as one transition function over the
//! application model and implemented by [`App::handle_key`]. Exactly one
//! widget owns a keystroke at a time.

use vstd::prelude::*;

use crate::app::method_next;
use crate::app::method_prev;
use crate::app::pane_next;
use crate::app::tab_cycle_back;
use crate::app::tab_cycle_fwd;
use crate::app::App;
use crate::app::AppModel;
use crate::app::FocusedPane;
use crate::app::InputMode;
use crate::body::BodyModel;
use crate::json::json_ok;
use crate::network::prepared_model;
use crate::network::PreparedRequest;
use crate::text::is_blank;
use crate::text::pop_char;
use crate::text::push_char;

verus! {

/// A keyboard key, reduced to what the router distinguishes.
#[derive(Debug, Clone, Copy, PartialEq, Eq, Structural)]
pub enum Key {
    Tab,
    Enter,
    Esc,
    Backspace,
    Delete,
    Up,
    Down,
    Left,
    Right,
    Char(char),
}

/// One keystroke: the key, and whether Control was held.
#[derive(Debug, Clone, Copy, PartialEq, Eq, Structural)]
pub struct KeyInput {
    pub key: Key,
    pub ctrl: bool,
}

/// The body buffer after one keystroke routed to it: insertion, line break,
/// backspace, or cursor movement; any other key leaves it untouched.
pub open spec fn body_edited(b: BodyModel, k: KeyInput) -> BodyModel {
    if k.key == Key::Enter {
        b.with_newline()
    } else if k.key == Key::Backspace {
        b.with_backspace()
    } else if k.key == Key::Up {
        b.with_cursor_up()
    } else if k.key == Key::Down {
        b.with_cursor_down()
    } else if k.key == Key::Left {
        b.with_cursor_left()
    } else if k.key == Key::Right {
        b.with_cursor_right()
    } else {
        match k.key {
            Key::Char(c) => if !k.ctrl && c != '\n' {
                b.with_inserted_char(c)
            } else {
                b
            },
            _ => b,
        }
    }
}

/// One keystroke in Navigation mode.
pub open spec fn normal_stepped(m: AppModel, k: KeyInput) -> AppModel {
    let m1 = if k.key == Key::Char('q') {
        AppModel { running: false, ..m }
    } else {
        m
    };
    if k.key == Key::Tab {
        AppModel { focused_pane: pane_next(m1.focused_pane), ..m1 }
    } else if k.key == Key::Char('i') {
        AppModel { input_mode: InputMode::Editing, ..m1 }
    } else if k.key == Key::Enter {
        m1.submitted()
    } else if k.key == Key::Right || k.key == Key::Char(' ') {
        if m1.focused_pane == FocusedPane::Method {
            AppModel { method: method_next(m1.method), ..m1 }
        } else if m1.focused_pane == FocusedPane::RequestDetails {
            AppModel { active_request_tab: tab_cycle_fwd(m1.active_request_tab), ..m1 }
        } else {
            m1
        }
    } else if k.key == Key::Left {
        if m1.focused_pane == FocusedPane::Method {
            AppModel { method: method_prev(m1.method), ..m1 }
        } else if m1.focused_pane == FocusedPane::RequestDetails {
            AppModel { active_request_tab: tab_cycle_back(m1.active_request_tab), ..m1 }
        } else {
            m1
        }
    } else if k.key == Key::Up {
        if m1.focused_pane == FocusedPane::Url {
            m1.browsed_prev()
        } else if m1.focused_pane == FocusedPane::Response {
            AppModel {
                response_scroll: if m1.response_scroll > 0 {
                    (m1.response_scroll - 1) as u16
                } else {
                    0
                },
                ..m1
            }
        } else if m1.focused_pane == FocusedPane::RequestDetails {
            m1.with_active_table(m1.active_table().cursor_up())
        } else {
            m1
        }
    } else if k.key == Key::Down {
        if m1.focused_pane == FocusedPane::Url {
            m1.browsed_next()
        } else if m1.focused_pane == FocusedPane::Response {
            AppModel {
                response_scroll: if m1.response_scroll < u16::MAX {
                    (m1.response_scroll + 1) as u16
                } else {
                    u16::MAX
                },
                ..m1
            }
        } else if m1.focused_pane == FocusedPane::RequestDetails {
            m1.with_active_table(m1.active_table().cursor_down())
        } else {
            m1
        }
    } else if k.key == Key::Char('p') && k.ctrl {
        if m1.focused_pane == FocusedPane::Url {
            m1.browsed_prev()
        } else {
            m1
        }
    } else if k.key == Key::Char('n') && k.ctrl {
        if m1.focused_pane == FocusedPane::Url {
            m1.browsed_next()
        } else {
            m1
        }
    } else {
        m1
    }
}

/// One keystroke in Editing mode. `ve` is the validation outcome recorded
/// after a body edit; it is a parameter because the parser's message is the
/// parser's own, not a function of the model.
pub open spec fn editing_stepped(
    m: AppModel,
    k: KeyInput,
    ve: Option<(int, int, Seq<char>)>,
) -> AppModel {
    if k.key == Key::Esc {
        AppModel { input_mode: InputMode::Normal, ..m }
    } else if m.focused_pane == FocusedPane::Body {
        AppModel { body_input: body_edited(m.body_input, k), validation_error: ve, ..m }
    } else if m.focused_pane == FocusedPane::RequestDetails {
        if k.key == Key::Tab {
            m.with_active_table(m.active_table().switched_field())
        } else if k.key == Key::Enter {
            m.with_active_table(m.active_table().committed_row())
        } else if (k.key == Key::Delete || k.key == Key::Char('d')) && k.ctrl {
            m.with_active_table(m.active_table().with_deleted_row())
        } else {
            match k.key {
                Key::Char(c) => m.with_active_table(m.active_table().with_typed_char(c)),
                Key::Backspace => m.with_active_table(m.active_table().with_backspace()),
                _ => m,
            }
        }
    } else {
        match k.key {
            Key::Char(c) => if m.focused_pane == FocusedPane::Url {
                AppModel { url_input: m.url_input.push(c), ..m }
            } else {
                m
            },
            Key::Backspace => if m.focused_pane == FocusedPane::Url && m.url_input.len() > 0 {
                AppModel { url_input: m.url_input.drop_last(), ..m }
            } else {
                m
            },
            _ => m,
        }
    }
}

/// The whole dispatch table: what one keystroke does to the application.
pub open spec fn stepped(m: AppModel, k: KeyInput, ve: Option<(int, int, Seq<char>)>) -> AppModel {
    if m.input_mode == InputMode::Normal {
        normal_stepped(m, k)
    } else {
        editing_stepped(m, k, ve)
    }
}

/// Whether the keystroke triggers a submission.
pub open spec fn is_submit(m: AppModel, k: KeyInput) -> bool {
    m.input_mode == InputMode::Normal && k.key == Key::Enter
}

/// Whether the keystroke is routed to the body editor (and so is followed
/// by a synchronous validation of the new body).
pub open spec fn is_body_edit(m: AppModel, k: KeyInput) -> bool {
    m.input_mode == InputMode::Editing && m.focused_pane == FocusedPane::Body && k.key != Key::Esc
}

impl App {
    /// Routes one keystroke. The new state is exactly [`stepped`] of the old
    /// one; a submission returns the prepared request for the transport and
    /// is the only keystroke that does.
    pub fn handle_key(&mut self, k: KeyInput) -> (r: Option<PreparedRequest>)
        requires
            old(self)@.wf(),
        ensures
            final(self)@ == stepped(old(self)@, k, final(self)@.validation_error),
            final(self)@.wf(),
            is_submit(old(self)@, k) ==> (r matches Some(req) && req@ == prepared_model(
                old(self)@.method,
                old(self)@.url_input,
                old(self)@.headers.entries,
                old(self)@.params.entries,
                old(self)@.authorization.entries,
                old(self)@.body_input.text(),
            )),
            !is_submit(old(self)@, k) ==> r is None,
            is_body_edit(old(self)@, k) ==> (final(self)@.validation_error is None <==> (is_blank(
                final(self)@.body_input.text(),
            ) || json_ok(final(self)@.body_input.text()))),
    {
        let mut result: Option<PreparedRequest> = None;
        if self.input_mode == InputMode::Normal {
            if k.key == Key::Char('q') {
                self.quit();
            }
            if k.key == Key::Tab {
                self.advance_pane();
            } else if k.key == Key::Char('i') {
                self.enter_editing();
            } else if k.key == Key::Enter {
                result = Some(self.begin_dispatch());
            } else if k.key == Key::Right || k.key == Key::Char(' ') {
                if self.focused_pane == FocusedPane::Method {
                    self.next_method();
                } else if self.focused_pane == FocusedPane::RequestDetails {
                    self.next_tab();
                }
            } else if k.key == Key::Left {
                if self.focused_pane == FocusedPane::Method {
                    self.prev_method();
                } else if self.focused_pane == FocusedPane::RequestDetails {
                    self.prev_tab();
                }
            } else if k.key == Key::Up {
                if self.focused_pane == FocusedPane::Url {
                    self.prev_history();
                } else if self.focused_pane == FocusedPane::Response {
                    if self.response_scroll > 0 {
                        self.response_scroll -= 1;
                    }
                } else if self.focused_pane == FocusedPane::RequestDetails {
                    let t = self.get_active_tab_mut();
                    t.move_cursor_up();
                }
            } else if k.key == Key::Down {
                if self.focused_pane == FocusedPane::Url {
                    self.next_history();
                } else if self.focused_pane == FocusedPane::Response {
                    if self.response_scroll < u16::MAX {
                        self.response_scroll += 1;
                    }
                } else if self.focused_pane == FocusedPane::RequestDetails {
                    let t = self.get_active_tab_mut();
                    t.move_cursor_down();
                }
            } else if k.key == Key::Char('p') && k.ctrl {
                if self.focused_pane == FocusedPane::Url {
                    self.prev_history();
                }
            } else if k.key == Key::Char('n') && k.ctrl {
                if self.focused_pane == FocusedPane::Url {
                    self.next_history();
                }
            }
        } else {
            if k.key == Key::Esc {
                self.exit_editing();
            } else if self.focused_pane == FocusedPane::Body {
                if k.key == Key::Enter {
                    self.body_input.insert_newline();
                } else if k.key == Key::Backspace {
                    self.body_input.backspace();
                } else if k.key == Key::Up {
                    self.body_input.move_cursor_up();
                } else if k.key == Key::Down {
                    self.body_input.move_cursor_down();
                } else if k.key == Key::Left {
                    self.body_input.move_cursor_left();
                } else if k.key == Key::Right {
                    self.body_input.move_cursor_right();
                } else {
                    match k.key {
                        Key::Char(c) => {
                            if !k.ctrl && c != '\n' {
                                self.body_input.insert_char(c);
                            }
                        },
                        _ => {},
                    }
                }
                self.validate_body();
            } else if self.focused_pane == FocusedPane::RequestDetails {
                if k.key == Key::Tab {
                    let t = self.get_active_tab_mut();
                    t.switch_field();
                } else if k.key == Key::Enter {
                    let t = self.get_active_tab_mut();
                    t.commit_row_and_advance();
                } else if (k.key == Key::Delete || k.key == Key::Char('d')) && k.ctrl {
                    let t = self.get_active_tab_mut();
                    t.delete_row();
                } else {
                    match k.key {
                        Key::Char(c) => {
                            let t = self.get_active_tab_mut();
                            t.type_char(c);
                        },
                        Key::Backspace => {
                            let t = self.get_active_tab_mut();
                            t.backspace();
                        },
                        _ => {},
                    }
                }
            } else {
                match k.key {
                    Key::Char(c) => {
                        if self.focused_pane == FocusedPane::Url {
                            push_char(&mut self.url_input, c);
                        }
                    },
                    Key::Backspace => {
                        if self.focused_pane == FocusedPane::Url {
                            let _ = pop_char(&mut self.url_input);
                        }
                    },
                    _ => {},
                }
            }
        }
        result
    }
}

} // verus!
