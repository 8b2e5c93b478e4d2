//! Top-level application state: the focus/mode state machine, the current
//! request (method, URL, tabbed key-value tables, body), the response state,
//! the history stack with its browsing cursor, and the synchronous JSON
//! validation of the body.

use vstd::prelude::*;

use crate::body::split_lines;
use crate::body::BodyBuffer;
use crate::body::BodyModel;
use crate::json::json_error_location;
use crate::json::json_ok;
use crate::json::prettified_json;
use crate::json::pretty_json;
use crate::key_value::KeyValueEntries;
use crate::key_value::KvTableModel;
use crate::network::build_request;
use crate::network::prepared_model;
use crate::network::PreparedRequest;
use crate::text::dec_str;
use crate::text::is_blank;
use crate::text::is_blank_str;
use crate::text::usize_to_string;
use vstd::string::StringExecFns;

verus! {

/// The HTTP method of the request under construction.
#[derive(Debug, Clone, Copy, PartialEq, Eq, Structural)]
pub enum HttpMethod {
    GET,
    POST,
    PUT,
    DELETE,
    PATCH,
}

/// Whether keystrokes move focus (`Normal`) or mutate the focused text
/// or field (`Editing`).
#[derive(Debug, Clone, Copy, PartialEq, Eq, Structural)]
pub enum InputMode {
    Normal,
    Editing,
}

/// The five focusable regions of the interface.
#[derive(Debug, Clone, Copy, PartialEq, Eq, Structural)]
pub enum FocusedPane {
    Method,
    Url,
    RequestDetails,
    Body,
    Response,
}

/// The three tabs of the request-details pane; exactly one is reachable by
/// keystrokes at a time.
#[derive(Debug, Clone, Copy, PartialEq, Eq, Structural)]
pub enum RequestTab {
    Params,
    Headers,
    Authorization,
}

/// The canonical spelling of each method.
pub open spec fn method_name_spec(m: HttpMethod) -> Seq<char> {
    match m {
        HttpMethod::GET => "GET"@,
        HttpMethod::POST => "POST"@,
        HttpMethod::PUT => "PUT"@,
        HttpMethod::DELETE => "DELETE"@,
        HttpMethod::PATCH => "PATCH"@,
    }
}

impl HttpMethod {
    /// The method's canonical name, for display.
    pub fn name(&self) -> (r: &'static str)
        ensures
            r@ == method_name_spec(*self),
    {
        match self {
            HttpMethod::GET => "GET",
            HttpMethod::POST => "POST",
            HttpMethod::PUT => "PUT",
            HttpMethod::DELETE => "DELETE",
            HttpMethod::PATCH => "PATCH",
        }
    }
}

/// The method that follows `m` in the fixed forward cycle
/// GET, POST, PUT, DELETE, PATCH, GET, ...
pub open spec fn method_next(m: HttpMethod) -> HttpMethod {
    match m {
        HttpMethod::GET => HttpMethod::POST,
        HttpMethod::POST => HttpMethod::PUT,
        HttpMethod::PUT => HttpMethod::DELETE,
        HttpMethod::DELETE => HttpMethod::PATCH,
        HttpMethod::PATCH => HttpMethod::GET,
    }
}

/// The method that precedes `m` in the same cycle.
pub open spec fn method_prev(m: HttpMethod) -> HttpMethod {
    match m {
        HttpMethod::GET => HttpMethod::PATCH,
        HttpMethod::POST => HttpMethod::GET,
        HttpMethod::PUT => HttpMethod::POST,
        HttpMethod::DELETE => HttpMethod::PUT,
        HttpMethod::PATCH => HttpMethod::DELETE,
    }
}

/// Law: advancing the method five times returns to the starting method
/// (the five methods form one forward cycle).
pub proof fn lemma_method_next_cycle(m: HttpMethod)
    ensures
        method_next(method_next(method_next(method_next(method_next(m))))) == m,
{
}

/// Law: retreating the method five times returns to the starting method.
pub proof fn lemma_method_prev_cycle(m: HttpMethod)
    ensures
        method_prev(method_prev(method_prev(method_prev(method_prev(m))))) == m,
{
}

/// Law: forward and backward method cycling are mutual inverses.
pub proof fn lemma_method_next_prev_inverse(m: HttpMethod)
    ensures
        method_prev(method_next(m)) == m,
        method_next(method_prev(m)) == m,
{
}

/// The tab after `t` in the cycle Headers, Params, Authorization, Headers.
pub open spec fn tab_cycle_fwd(t: RequestTab) -> RequestTab {
    match t {
        RequestTab::Headers => RequestTab::Params,
        RequestTab::Params => RequestTab::Authorization,
        RequestTab::Authorization => RequestTab::Headers,
    }
}

/// The tab before `t` in the same cycle.
pub open spec fn tab_cycle_back(t: RequestTab) -> RequestTab {
    match t {
        RequestTab::Headers => RequestTab::Authorization,
        RequestTab::Params => RequestTab::Headers,
        RequestTab::Authorization => RequestTab::Params,
    }
}

/// Law: the two tab cycles are mutual inverses of order three.
pub proof fn lemma_tab_cycle_inverse(t: RequestTab)
    ensures
        tab_cycle_back(tab_cycle_fwd(t)) == t,
        tab_cycle_fwd(tab_cycle_back(t)) == t,
        tab_cycle_fwd(tab_cycle_fwd(tab_cycle_fwd(t))) == t,
{
}

/// The pane after `p` in the fixed focus ring
/// Method, Url, RequestDetails, Body, Response, Method, ...
pub open spec fn pane_next(p: FocusedPane) -> FocusedPane {
    match p {
        FocusedPane::Method => FocusedPane::Url,
        FocusedPane::Url => FocusedPane::RequestDetails,
        FocusedPane::RequestDetails => FocusedPane::Body,
        FocusedPane::Body => FocusedPane::Response,
        FocusedPane::Response => FocusedPane::Method,
    }
}

/// The pane before `p` in the same ring.
pub open spec fn pane_prev(p: FocusedPane) -> FocusedPane {
    match p {
        FocusedPane::Method => FocusedPane::Response,
        FocusedPane::Url => FocusedPane::Method,
        FocusedPane::RequestDetails => FocusedPane::Url,
        FocusedPane::Body => FocusedPane::RequestDetails,
        FocusedPane::Response => FocusedPane::Body,
    }
}

/// Law: the focus ring closes after five steps, and the two directions are
/// mutual inverses.
pub proof fn lemma_pane_ring(p: FocusedPane)
    ensures
        pane_next(pane_next(pane_next(pane_next(pane_next(p))))) == p,
        pane_prev(pane_next(p)) == p,
        pane_next(pane_prev(p)) == p,
{
}

/// A request as it was at one submission; immutable once created, owned by
/// the history stack alone.
#[derive(Debug)]
pub struct RequestHistoryEntry {
    pub method: HttpMethod,
    pub url: String,
    pub headers: KeyValueEntries,
    pub params: KeyValueEntries,
    pub auth: KeyValueEntries,
    pub body: String,
    pub timestamp: u64,
}

/// Mathematical model of a history entry. The timestamp is recorded for
/// display but carries no logic, so the model leaves it out.
pub ghost struct HistoryEntryModel {
    pub method: HttpMethod,
    pub url: Seq<char>,
    pub headers: KvTableModel,
    pub params: KvTableModel,
    pub auth: KvTableModel,
    pub body: Seq<char>,
}

impl View for RequestHistoryEntry {
    type V = HistoryEntryModel;

    open spec fn view(&self) -> HistoryEntryModel {
        HistoryEntryModel {
            method: self.method,
            url: self.url@,
            headers: self.headers@,
            params: self.params@,
            auth: self.auth@,
            body: self.body@,
        }
    }
}

/// Relies on std's `SystemTime::now`, `duration_since` and `as_secs`:
/// seconds since the Unix epoch, or zero if the clock reads earlier than
/// the epoch. Nothing can be promised of the clock's value.
#[verifier::external_body]
fn now_unix_seconds() -> u64 {
    std::time::SystemTime::now().duration_since(std::time::UNIX_EPOCH).unwrap_or_default().as_secs()
}

impl RequestHistoryEntry {
    /// Snapshots the given request fields, stamped with the current time.
    pub fn new(
        method: HttpMethod,
        url: String,
        headers: KeyValueEntries,
        params: KeyValueEntries,
        auth: KeyValueEntries,
        body: String,
    ) -> (r: Self)
        ensures
            r@ == (HistoryEntryModel {
                method,
                url: url@,
                headers: headers@,
                params: params@,
                auth: auth@,
                body: body@,
            }),
    {
        let timestamp = now_unix_seconds();
        RequestHistoryEntry { method, url, headers, params, auth, body, timestamp }
    }
}

impl Clone for RequestHistoryEntry {
    /// Cloning an entry preserves its whole model and its timestamp.
    fn clone(&self) -> (r: Self)
        ensures
            r@ == self@,
            r.timestamp == self.timestamp,
    {
        RequestHistoryEntry {
            method: self.method,
            url: self.url.clone(),
            headers: self.headers.clone(),
            params: self.params.clone(),
            auth: self.auth.clone(),
            body: self.body.clone(),
            timestamp: self.timestamp,
        }
    }
}

/// The whole application state.
#[derive(Debug)]
pub struct App {
    pub running: bool,
    pub input_mode: InputMode,
    pub focused_pane: FocusedPane,
    pub method: HttpMethod,
    pub url_input: String,
    pub active_request_tab: RequestTab,
    pub headers: KeyValueEntries,
    pub params: KeyValueEntries,
    pub authorization: KeyValueEntries,
    pub body_input: BodyBuffer,
    pub response_text: Option<String>,
    pub response_status: Option<u16>,
    pub response_scroll: u16,
    pub history: Vec<RequestHistoryEntry>,
    pub history_index: Option<usize>,
    pub validation_error: Option<(usize, usize, String)>,
}

/// Mathematical model of the whole application state.
pub ghost struct AppModel {
    pub running: bool,
    pub input_mode: InputMode,
    pub focused_pane: FocusedPane,
    pub method: HttpMethod,
    pub url_input: Seq<char>,
    pub active_request_tab: RequestTab,
    pub headers: KvTableModel,
    pub params: KvTableModel,
    pub authorization: KvTableModel,
    pub body_input: BodyModel,
    pub response_text: Option<Seq<char>>,
    pub response_status: Option<u16>,
    pub response_scroll: u16,
    pub history: Seq<HistoryEntryModel>,
    pub history_index: Option<int>,
    pub validation_error: Option<(int, int, Seq<char>)>,
}

impl View for App {
    type V = AppModel;

    open spec fn view(&self) -> AppModel {
        AppModel {
            running: self.running,
            input_mode: self.input_mode,
            focused_pane: self.focused_pane,
            method: self.method,
            url_input: self.url_input@,
            active_request_tab: self.active_request_tab,
            headers: self.headers@,
            params: self.params@,
            authorization: self.authorization@,
            body_input: self.body_input@,
            response_text: match self.response_text {
                Some(t) => Some(t@),
                None => None,
            },
            response_status: self.response_status,
            response_scroll: self.response_scroll,
            history: self.history@.map_values(|e: RequestHistoryEntry| e@),
            history_index: match self.history_index {
                Some(i) => Some(i as int),
                None => None,
            },
            validation_error: match self.validation_error {
                Some(v) => Some((v.0 as int, v.1 as int, v.2@)),
                None => None,
            },
        }
    }
}

impl HistoryEntryModel {
    /// A history entry is well formed when its table snapshots are.
    pub open spec fn wf(self) -> bool {
        self.headers.wf() && self.params.wf() && self.auth.wf()
    }
}

impl AppModel {
    /// The application invariant: the three tables and the body buffer are
    /// well formed, every history snapshot is, and a set history cursor
    /// points at an existing entry.
    pub open spec fn wf(self) -> bool {
        self.headers.wf() && self.params.wf() && self.authorization.wf() && self.body_input.wf()
            && (forall|i: int| 0 <= i < self.history.len() ==> (#[trigger] self.history[i]).wf())
            && (match self.history_index {
            Some(i) => 0 <= i < self.history.len(),
            None => true,
        })
    }

    /// The state the application starts in.
    pub open spec fn initial() -> Self {
        AppModel {
            running: true,
            input_mode: InputMode::Normal,
            focused_pane: FocusedPane::Url,
            method: HttpMethod::GET,
            url_input: Seq::empty(),
            active_request_tab: RequestTab::Headers,
            headers: KvTableModel::empty(),
            params: KvTableModel::empty(),
            authorization: KvTableModel::empty(),
            body_input: BodyModel::empty(),
            response_text: None,
            response_status: None,
            response_scroll: 0,
            history: Seq::empty(),
            history_index: None,
            validation_error: None,
        }
    }

    /// The table of the active request tab.
    pub open spec fn active_table(self) -> KvTableModel {
        match self.active_request_tab {
            RequestTab::Headers => self.headers,
            RequestTab::Params => self.params,
            RequestTab::Authorization => self.authorization,
        }
    }

    /// The model with the active request tab's table replaced by `t`.
    pub open spec fn with_active_table(self, t: KvTableModel) -> Self {
        match self.active_request_tab {
            RequestTab::Headers => AppModel { headers: t, ..self },
            RequestTab::Params => AppModel { params: t, ..self },
            RequestTab::Authorization => AppModel { authorization: t, ..self },
        }
    }

    /// The snapshot that submission appends to history.
    pub open spec fn current_entry(self) -> HistoryEntryModel {
        HistoryEntryModel {
            method: self.method,
            url: self.url_input,
            headers: self.headers,
            params: self.params,
            auth: self.authorization,
            body: self.body_input.text(),
        }
    }

    /// The model after history entry `i` is loaded into the request fields:
    /// a destructive replace of method, URL, tables and body; the browsing
    /// cursor then points at `i`.
    pub open spec fn loaded_from_history(self, i: int) -> Self {
        let e = self.history[i];
        AppModel {
            method: e.method,
            url_input: e.url,
            headers: e.headers,
            params: e.params,
            authorization: e.auth,
            body_input: BodyModel { lines: split_lines(e.body), cursor_row: 0, cursor_col: 0 },
            history_index: Some(i),
            ..self
        }
    }

    /// Browsing one entry older: from live editing to the newest entry; at
    /// the oldest entry, it reloads that entry and stays.
    pub open spec fn browsed_prev(self) -> Self {
        if self.history.len() == 0 {
            self
        } else {
            let idx = match self.history_index {
                None => self.history.len() - 1,
                Some(i) => if i == 0 {
                    0
                } else {
                    i - 1
                },
            };
            self.loaded_from_history(idx)
        }
    }

    /// Browsing one entry newer: a no-op when live; from the newest entry it
    /// returns to live editing without reloading anything.
    pub open spec fn browsed_next(self) -> Self {
        if self.history.len() == 0 {
            self
        } else {
            match self.history_index {
                None => self,
                Some(i) => if i >= self.history.len() - 1 {
                    AppModel { history_index: None, ..self }
                } else {
                    self.loaded_from_history(i + 1)
                },
            }
        }
    }

    /// The model right after a submission: the current request appended to
    /// history, browsing back to live, and the in-flight sentinel shown as
    /// the response text.
    pub open spec fn submitted(self) -> Self {
        AppModel {
            history: self.history.push(self.current_entry()),
            history_index: None,
            response_text: Some("Loading..."@),
            ..self
        }
    }
}

/// The status label over the body pane, derived from the validation state:
/// a neutral label for a blank body, a distinct success label for a valid
/// one, and an error label embedding the failure's line and column.
pub open spec fn validation_label(m: AppModel) -> Seq<char> {
    match m.validation_error {
        None => if is_blank(m.body_input.text()) {
            "Body (JSON)"@
        } else {
            "Body (JSON) [valid]"@
        },
        Some((l, c, _)) => "Body (Error at line "@ + dec_str(l as nat) + ", col "@ + dec_str(
            c as nat,
        ) + ")"@,
    }
}

impl App {
    /// Runtime check of the application invariant, for callers outside the
    /// verified world that need to guard a routing call.
    pub fn check_wf(&self) -> (r: bool)
        ensures
            r == self@.wf(),
    {
        if !self.headers.check_wf() || !self.params.check_wf() || !self.authorization.check_wf() {
            return false;
        }
        if !self.body_input.check_wf() {
            return false;
        }
        let mut i: usize = 0;
        while i < self.history.len()
            invariant
                0 <= i <= self.history@.len(),
                forall|j: int| 0 <= j < i ==> (#[trigger] self@.history[j]).wf(),
            decreases self.history.len() - i,
        {
            let e = &self.history[i];
            assert(self@.history[i as int] == self.history@[i as int]@);
            if !e.headers.check_wf() || !e.params.check_wf() || !e.auth.check_wf() {
                return false;
            }
            i += 1;
        }
        match self.history_index {
            Some(idx) => idx < self.history.len(),
            None => true,
        }
    }

    /// The application in its start state.
    pub fn new() -> (r: App)
        ensures
            r@ == AppModel::initial(),
            r@.wf(),
    {
        let r = App {
            running: true,
            input_mode: InputMode::Normal,
            focused_pane: FocusedPane::Url,
            method: HttpMethod::GET,
            url_input: String::new(),
            active_request_tab: RequestTab::Headers,
            headers: KeyValueEntries::new(),
            params: KeyValueEntries::new(),
            authorization: KeyValueEntries::new(),
            body_input: BodyBuffer::new(),
            response_text: None,
            response_status: None,
            response_scroll: 0,
            history: Vec::new(),
            history_index: None,
            validation_error: None,
        };
        proof {
            assert(r@.history =~= AppModel::initial().history);
        }
        r
    }

    /// Cycles the method forward; touches nothing else.
    pub fn next_method(&mut self)
        ensures
            final(self)@ == (AppModel { method: method_next(old(self)@.method), ..old(self)@ }),
    {
        self.method = match self.method {
            HttpMethod::GET => HttpMethod::POST,
            HttpMethod::POST => HttpMethod::PUT,
            HttpMethod::PUT => HttpMethod::DELETE,
            HttpMethod::DELETE => HttpMethod::PATCH,
            HttpMethod::PATCH => HttpMethod::GET,
        };
    }

    /// Cycles the method backward; touches nothing else.
    pub fn prev_method(&mut self)
        ensures
            final(self)@ == (AppModel { method: method_prev(old(self)@.method), ..old(self)@ }),
    {
        self.method = match self.method {
            HttpMethod::GET => HttpMethod::PATCH,
            HttpMethod::POST => HttpMethod::GET,
            HttpMethod::PUT => HttpMethod::POST,
            HttpMethod::DELETE => HttpMethod::PUT,
            HttpMethod::PATCH => HttpMethod::DELETE,
        };
    }

    /// Stops the render loop — the only path to termination.
    pub fn quit(&mut self)
        ensures
            final(self)@ == (AppModel { running: false, ..old(self)@ }),
    {
        self.running = false;
    }

    /// Moves focus to the next pane in the ring; total, touches nothing but
    /// the pane.
    pub fn advance_pane(&mut self)
        ensures
            final(self)@ == (AppModel {
                focused_pane: pane_next(old(self)@.focused_pane),
                ..old(self)@
            }),
    {
        self.focused_pane = match self.focused_pane {
            FocusedPane::Method => FocusedPane::Url,
            FocusedPane::Url => FocusedPane::RequestDetails,
            FocusedPane::RequestDetails => FocusedPane::Body,
            FocusedPane::Body => FocusedPane::Response,
            FocusedPane::Response => FocusedPane::Method,
        };
    }

    /// Moves focus to the previous pane in the ring.
    pub fn retreat_pane(&mut self)
        ensures
            final(self)@ == (AppModel {
                focused_pane: pane_prev(old(self)@.focused_pane),
                ..old(self)@
            }),
    {
        self.focused_pane = match self.focused_pane {
            FocusedPane::Method => FocusedPane::Response,
            FocusedPane::Url => FocusedPane::Method,
            FocusedPane::RequestDetails => FocusedPane::Url,
            FocusedPane::Body => FocusedPane::RequestDetails,
            FocusedPane::Response => FocusedPane::Body,
        };
    }

    /// Switches to Editing mode; keystrokes then mutate the focused text.
    pub fn enter_editing(&mut self)
        ensures
            final(self)@ == (AppModel { input_mode: InputMode::Editing, ..old(self)@ }),
    {
        self.input_mode = InputMode::Editing;
    }

    /// Returns to Navigation mode unconditionally.
    pub fn exit_editing(&mut self)
        ensures
            final(self)@ == (AppModel { input_mode: InputMode::Normal, ..old(self)@ }),
    {
        self.input_mode = InputMode::Normal;
    }

    /// Whether focus is on the tabbed request-details pane.
    pub fn is_in_request_details(&self) -> (r: bool)
        ensures
            r == (self@.focused_pane == FocusedPane::RequestDetails),
    {
        self.focused_pane == FocusedPane::RequestDetails
    }

    /// Cycles the active request tab forward.
    pub fn next_tab(&mut self)
        ensures
            final(self)@ == (AppModel {
                active_request_tab: tab_cycle_fwd(old(self)@.active_request_tab),
                ..old(self)@
            }),
    {
        self.active_request_tab = match self.active_request_tab {
            RequestTab::Headers => RequestTab::Params,
            RequestTab::Params => RequestTab::Authorization,
            RequestTab::Authorization => RequestTab::Headers,
        };
    }

    /// Cycles the active request tab backward.
    pub fn prev_tab(&mut self)
        ensures
            final(self)@ == (AppModel {
                active_request_tab: tab_cycle_back(old(self)@.active_request_tab),
                ..old(self)@
            }),
    {
        self.active_request_tab = match self.active_request_tab {
            RequestTab::Headers => RequestTab::Authorization,
            RequestTab::Params => RequestTab::Headers,
            RequestTab::Authorization => RequestTab::Params,
        };
    }

    /// Cycles the active request tab the other way round than
    /// [`App::next_tab`] does.
    pub fn next_request_tab(&mut self)
        ensures
            final(self)@ == (AppModel {
                active_request_tab: tab_cycle_back(old(self)@.active_request_tab),
                ..old(self)@
            }),
    {
        self.active_request_tab = match self.active_request_tab {
            RequestTab::Params => RequestTab::Headers,
            RequestTab::Headers => RequestTab::Authorization,
            RequestTab::Authorization => RequestTab::Params,
        };
    }

    /// Inverse of [`App::next_request_tab`].
    pub fn prev_request_tab(&mut self)
        ensures
            final(self)@ == (AppModel {
                active_request_tab: tab_cycle_fwd(old(self)@.active_request_tab),
                ..old(self)@
            }),
    {
        self.active_request_tab = match self.active_request_tab {
            RequestTab::Params => RequestTab::Authorization,
            RequestTab::Headers => RequestTab::Params,
            RequestTab::Authorization => RequestTab::Headers,
        };
    }

    /// Whether `tab` is the active request tab.
    pub fn is_request_tab_active(&self, tab: &RequestTab) -> (r: bool)
        ensures
            r == (self@.active_request_tab == *tab),
    {
        self.active_request_tab == *tab
    }

    /// The active tab's table, for editing.
    pub fn get_active_tab_mut(&mut self) -> (r: &mut KeyValueEntries)
        ensures
            *r == (match old(self)@.active_request_tab {
                RequestTab::Headers => old(self).headers,
                RequestTab::Params => old(self).params,
                RequestTab::Authorization => old(self).authorization,
            }),
            *final(self) == (match old(self)@.active_request_tab {
                RequestTab::Headers => App { headers: *final(r), ..*old(self) },
                RequestTab::Params => App { params: *final(r), ..*old(self) },
                RequestTab::Authorization => App { authorization: *final(r), ..*old(self) },
            }),
    {
        match self.active_request_tab {
            RequestTab::Headers => &mut self.headers,
            RequestTab::Params => &mut self.params,
            RequestTab::Authorization => &mut self.authorization,
        }
    }

    /// The active tab's table, for editing (the same access under the name
    /// the render path uses).
    pub fn get_active_request_entries(&mut self) -> (r: &mut KeyValueEntries)
        ensures
            *r == (match old(self)@.active_request_tab {
                RequestTab::Headers => old(self).headers,
                RequestTab::Params => old(self).params,
                RequestTab::Authorization => old(self).authorization,
            }),
            *final(self) == (match old(self)@.active_request_tab {
                RequestTab::Headers => App { headers: *final(r), ..*old(self) },
                RequestTab::Params => App { params: *final(r), ..*old(self) },
                RequestTab::Authorization => App { authorization: *final(r), ..*old(self) },
            }),
    {
        match self.active_request_tab {
            RequestTab::Params => &mut self.params,
            RequestTab::Headers => &mut self.headers,
            RequestTab::Authorization => &mut self.authorization,
        }
    }

    /// The body as one newline-joined text.
    pub fn get_body_text(&self) -> (r: String)
        ensures
            r@ == self@.body_input.text(),
    {
        self.body_input.get_text()
    }

    /// Replaces the body text; the body cursor returns to the start.
    pub fn set_body_text(&mut self, text: &str)
        ensures
            final(self)@ == (AppModel {
                body_input: BodyModel {
                    lines: split_lines(text@),
                    cursor_row: 0,
                    cursor_col: 0,
                },
                ..old(self)@
            }),
            final(self)@.body_input.wf(),
            final(self)@.body_input.text() == text@,
    {
        self.body_input.set_text(text);
    }

    /// Classifies the body as JSON and stores the outcome: no finding for a
    /// blank or parseable body, else the parser's first error location.
    pub fn validate_body(&mut self)
        ensures
            final(self)@ == (AppModel {
                validation_error: final(self)@.validation_error,
                ..old(self)@
            }),
            final(self)@.validation_error is None <==> (is_blank(old(self)@.body_input.text())
                || json_ok(old(self)@.body_input.text())),
    {
        let body_text = self.get_body_text();
        if is_blank_str(body_text.as_str()) {
            self.validation_error = None;
        } else {
            self.validation_error = json_error_location(body_text.as_str());
        }
    }

    /// The status label over the body pane; derived, never stored.
    pub fn get_validation_status(&self) -> (r: String)
        ensures
            r@ == validation_label(self@),
    {
        match &self.validation_error {
            None => {
                let body_text = self.get_body_text();
                if is_blank_str(body_text.as_str()) {
                    String::from_str("Body (JSON)")
                } else {
                    String::from_str("Body (JSON) [valid]")
                }
            },
            Some((line, col, _msg)) => {
                let mut out = String::from_str("Body (Error at line ");
                let l = usize_to_string(*line);
                out.append(l.as_str());
                out.append(", col ");
                let c = usize_to_string(*col);
                out.append(c.as_str());
                out.append(")");
                out
            },
        }
    }

    /// Appends the current request to history and returns to live editing;
    /// a fresh submission always discards any prior browsing position.
    pub fn save_to_history(&mut self)
        ensures
            final(self)@ == (AppModel {
                history: old(self)@.history.push(old(self)@.current_entry()),
                history_index: None,
                ..old(self)@
            }),
    {
        let entry = RequestHistoryEntry::new(
            self.method,
            self.url_input.clone(),
            self.headers.clone(),
            self.params.clone(),
            self.authorization.clone(),
            self.get_body_text(),
        );
        self.history.push(entry);
        self.history_index = None;
        proof {
            assert(self@.history =~= old(self)@.history.push(old(self)@.current_entry()));
        }
    }

    /// Loads history entry `index` into the request fields, overwriting
    /// method, URL, tables and body in place; out-of-range indices are a
    /// no-op.
    pub fn load_from_history(&mut self, index: usize)
        ensures
            index < old(self)@.history.len() ==> final(self)@ == old(self)@.loaded_from_history(
                index as int,
            ),
            index >= old(self)@.history.len() ==> final(self)@ == old(self)@,
            old(self)@.wf() ==> final(self)@.wf(),
    {
        if index < self.history.len() {
            let entry = self.history[index].clone();
            self.method = entry.method;
            self.url_input = entry.url;
            self.headers = entry.headers;
            self.params = entry.params;
            self.authorization = entry.auth;
            self.body_input.set_text(entry.body.as_str());
            self.history_index = Some(index);
        }
    }

    /// Browses to the previous (older) history entry and loads it.
    pub fn prev_history(&mut self)
        requires
            old(self)@.wf(),
        ensures
            final(self)@ == old(self)@.browsed_prev(),
            final(self)@.wf(),
    {
        if self.history.len() == 0 {
            return ;
        }
        let new_index: usize = match self.history_index {
            None => self.history.len() - 1,
            Some(idx) => if idx == 0 {
                0
            } else {
                idx - 1
            },
        };
        self.load_from_history(new_index);
    }

    /// Browses to the next (newer) history entry, or back to live editing
    /// from the newest one.
    pub fn next_history(&mut self)
        requires
            old(self)@.wf(),
        ensures
            final(self)@ == old(self)@.browsed_next(),
            final(self)@.wf(),
    {
        if self.history.len() == 0 {
            return ;
        }
        match self.history_index {
            None => {},
            Some(idx) => {
                if idx >= self.history.len() - 1 {
                    self.history_index = None;
                } else {
                    self.load_from_history(idx + 1);
                }
            },
        }
    }

    /// One submission's synchronous half: snapshots the request into
    /// history, shows the in-flight sentinel, and returns the exact request
    /// the transport is to carry. The caller runs the transport elsewhere
    /// and reports its outcome through [`App::complete_dispatch_success`] or
    /// [`App::complete_dispatch_error`].
    pub fn begin_dispatch(&mut self) -> (r: PreparedRequest)
        ensures
            final(self)@ == old(self)@.submitted(),
            r@ == prepared_model(
                old(self)@.method,
                old(self)@.url_input,
                old(self)@.headers.entries,
                old(self)@.params.entries,
                old(self)@.authorization.entries,
                old(self)@.body_input.text(),
            ),
    {
        self.save_to_history();
        let body = self.get_body_text();
        let req = build_request(
            self.method,
            &self.url_input,
            &self.headers,
            &self.params,
            &self.authorization,
            body,
        );
        self.response_text = Some(String::from_str("Loading..."));
        req
    }

    /// Reconciles a successful transport outcome: the status is shown, and
    /// the body is shown pretty-printed when it parses as JSON, verbatim
    /// otherwise. Whatever outcome arrives last overwrites the response
    /// state — dispatches are never reordered or cancelled here.
    pub fn complete_dispatch_success(&mut self, status: u16, body: String)
        ensures
            final(self)@ == (AppModel {
                response_status: Some(status),
                response_text: Some(pretty_json(body@)),
                ..old(self)@
            }),
            !json_ok(body@) ==> final(self)@.response_text == Some(body@),
    {
        self.response_status = Some(status);
        let pretty = prettified_json(body.as_str());
        self.response_text = Some(pretty);
    }

    /// Reconciles a failed transport outcome: no status, and the error
    /// message shown verbatim behind an `Error: ` prefix. Never fatal.
    pub fn complete_dispatch_error(&mut self, message: String)
        ensures
            final(self)@ == (AppModel {
                response_status: None,
                response_text: Some("Error: "@ + message@),
                ..old(self)@
            }),
    {
        self.response_status = None;
        let mut text = String::from_str("Error: ");
        text.append(message.as_str());
        self.response_text = Some(text);
    }
}

} // verus!
