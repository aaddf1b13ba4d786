//! The application state and its transition function: one event at a time
//! is applied to the draft, the response slot and the history.

use vstd::prelude::*;
use crate::http_client::{
    copy_headers, copy_outcome, header_seq, outbound_body, outbound_body_spec, outcome_view,
    ApiResponse, HeaderSeq, HttpMethod, OutcomeView, Request, RequestView,
};
use crate::message::{Message, MessageView, ResponseTab};

verus! {

/// A request as it was sent, with what came back once the call has ended.
#[derive(Debug)]
pub struct HistoryItem {
    pub method: HttpMethod,
    pub url: String,
    pub request_headers: Vec<(String, String)>,
    pub request_body: String,
    pub response: Option<Result<ApiResponse, String>>,
}

/// What a `HistoryItem` holds, as text.
pub struct HistoryItemView {
    pub method: HttpMethod,
    pub url: Seq<char>,
    pub request_headers: HeaderSeq,
    pub request_body: Seq<char>,
    pub response: Option<OutcomeView>,
}

/// A response slot, seen as text.
pub open spec fn slot_view(slot: Option<Result<ApiResponse, String>>) -> Option<OutcomeView> {
    match slot {
        Some(outcome) => Some(outcome_view(outcome)),
        None => None,
    }
}

impl View for HistoryItem {
    type V = HistoryItemView;

    open spec fn view(&self) -> HistoryItemView {
        HistoryItemView {
            method: self.method,
            url: self.url@,
            request_headers: header_seq(self.request_headers@),
            request_body: self.request_body@,
            response: slot_view(self.response),
        }
    }
}

/// A history as the sequence of its entries' views, newest first.
pub open spec fn history_seq(v: Seq<HistoryItem>) -> Seq<HistoryItemView> {
    Seq::new(v.len(), |i: int| v[i]@)
}

/// The whole state: the draft (`url`, `method`, `header`, `body`), the
/// outcome of the latest call, the loading flag, the active tab, and the
/// history with its selected index.
#[derive(Debug)]
pub struct Rustman {
    pub url: String,
    pub method: HttpMethod,
    pub header: Vec<(String, String)>,
    pub body: String,
    pub response: Option<Result<ApiResponse, String>>,
    pub is_loading: bool,
    pub active_tab: ResponseTab,
    pub history: Vec<HistoryItem>,
    pub selected_history: Option<usize>,
}

/// What a `Rustman` holds, as text.
pub struct RustmanView {
    pub url: Seq<char>,
    pub method: HttpMethod,
    pub header: HeaderSeq,
    pub body: Seq<char>,
    pub response: Option<OutcomeView>,
    pub is_loading: bool,
    pub active_tab: ResponseTab,
    pub history: Seq<HistoryItemView>,
    pub selected_history: Option<usize>,
}

impl View for Rustman {
    type V = RustmanView;

    open spec fn view(&self) -> RustmanView {
        RustmanView {
            url: self.url@,
            method: self.method,
            header: header_seq(self.header@),
            body: self.body@,
            response: slot_view(self.response),
            is_loading: self.is_loading,
            active_tab: self.active_tab,
            history: history_seq(self.history@),
            selected_history: self.selected_history,
        }
    }
}

/// The state at startup: an empty address, GET, one empty header pair, no
/// body, no response, nothing loading, the body tab, an empty history.
pub open spec fn initial() -> RustmanView {
    RustmanView {
        url: Seq::empty(),
        method: HttpMethod::GET,
        header: seq![(Seq::empty(), Seq::empty())],
        body: Seq::empty(),
        response: None,
        is_loading: false,
        active_tab: ResponseTab::Body,
        history: Seq::empty(),
        selected_history: None,
    }
}

/// The draft of a state, frozen as a history entry without a response.
pub open spec fn snapshot(s: RustmanView) -> HistoryItemView {
    HistoryItemView {
        method: s.method,
        url: s.url,
        request_headers: s.header,
        request_body: s.body,
        response: None,
    }
}

/// The request that a send hands to the engine: the draft as it stands,
/// with a blank body left out.
pub open spec fn request_of(s: RustmanView) -> RequestView {
    RequestView {
        url: s.url,
        method: s.method,
        headers: s.header,
        body: outbound_body_spec(s.body),
    }
}

/// A history in which the newest entry holds the given outcome; an empty
/// history stays empty.
pub open spec fn record(history: Seq<HistoryItemView>, outcome: OutcomeView) -> Seq<
    HistoryItemView,
> {
    if history.len() > 0 {
        history.update(0, HistoryItemView { response: Some(outcome), ..history[0] })
    } else {
        history
    }
}

/// The state after one event.
pub open spec fn step(s: RustmanView, m: MessageView) -> RustmanView {
    match m {
        MessageView::UrlChanged(url) => RustmanView { url, ..s },
        MessageView::MethodSelected(method) => RustmanView { method, ..s },
        MessageView::HeaderKeyChanged(i, key) => if i < s.header.len() {
            RustmanView { header: s.header.update(i as int, (key, s.header[i as int].1)), ..s }
        } else {
            s
        },
        MessageView::HeaderValueChanged(i, value) => if i < s.header.len() {
            RustmanView { header: s.header.update(i as int, (s.header[i as int].0, value)), ..s }
        } else {
            s
        },
        MessageView::AddHeader => RustmanView {
            header: s.header.push((Seq::empty(), Seq::empty())),
            ..s
        },
        MessageView::RemoveHeader(i) => if i < s.header.len() {
            RustmanView { header: s.header.remove(i as int), ..s }
        } else {
            s
        },
        MessageView::BodyChanged(body) => RustmanView { body, ..s },
        MessageView::SendRequest => RustmanView {
            is_loading: true,
            history: s.history.insert(0, snapshot(s)),
            selected_history: Some(0),
            ..s
        },
        MessageView::RequestCompleted(outcome) => RustmanView {
            is_loading: false,
            response: Some(outcome),
            history: record(s.history, outcome),
            ..s
        },
        MessageView::TabChanged(tab) => RustmanView { active_tab: tab, ..s },
        MessageView::SelectHistory(i) => if i < s.history.len() {
            let entry = s.history[i as int];
            RustmanView {
                selected_history: Some(i),
                method: entry.method,
                url: entry.url,
                header: entry.request_headers,
                body: entry.request_body,
                response: entry.response,
                ..s
            }
        } else {
            s
        },
        MessageView::ClearHistory => RustmanView {
            history: Seq::empty(),
            selected_history: None,
            ..s
        },
    }
}

/// The call that an event sets off: a send dispatches the draft, no other
/// event dispatches anything.
pub open spec fn dispatched(s: RustmanView, m: MessageView) -> Option<RequestView> {
    match m {
        MessageView::SendRequest => Some(request_of(s)),
        _ => None,
    }
}

/// Whether the selected index, where there is one, points into the history.
pub open spec fn selection_valid(s: RustmanView) -> bool {
    match s.selected_history {
        Some(i) => i < s.history.len(),
        None => true,
    }
}

/// A dispatched call, seen as text.
pub open spec fn command_view(command: Option<Request>) -> Option<RequestView> {
    match command {
        Some(request) => Some(request@),
        None => None,
    }
}

/// A copy of a response slot with the same contents.
pub fn copy_slot(slot: &Option<Result<ApiResponse, String>>) -> (copy: Option<
    Result<ApiResponse, String>,
>)
    ensures
        slot_view(copy) == slot_view(*slot),
{
    match slot {
        Some(outcome) => Some(copy_outcome(outcome)),
        None => None,
    }
}

impl Clone for HistoryItem {
    fn clone(&self) -> (copy: HistoryItem)
        ensures
            copy@ == self@,
    {
        HistoryItem {
            method: self.method,
            url: self.url.clone(),
            request_headers: copy_headers(&self.request_headers),
            request_body: self.request_body.clone(),
            response: copy_slot(&self.response),
        }
    }
}

/// A copy of a history: the same entries in the same order.
pub fn copy_history(history: &Vec<HistoryItem>) -> (copy: Vec<HistoryItem>)
    ensures
        history_seq(copy@) == history_seq(history@),
{
    let mut copy: Vec<HistoryItem> = Vec::new();
    let mut i: usize = 0;
    while i < history.len()
        invariant
            i <= history.len(),
            copy@.len() == i,
            forall|j: int| 0 <= j < i ==> (#[trigger] copy@[j])@ == history@[j]@,
        decreases history.len() - i,
    {
        copy.push(history[i].clone());
        i += 1;
    }
    assert(history_seq(copy@) =~= history_seq(history@));
    copy
}

impl Clone for Rustman {
    fn clone(&self) -> (copy: Rustman)
        ensures
            copy@ == self@,
    {
        Rustman {
            url: self.url.clone(),
            method: self.method,
            header: copy_headers(&self.header),
            body: self.body.clone(),
            response: copy_slot(&self.response),
            is_loading: self.is_loading,
            active_tab: self.active_tab,
            history: copy_history(&self.history),
            selected_history: self.selected_history,
        }
    }
}

impl Default for Rustman {
    fn default() -> (state: Rustman)
        ensures
            state@ == initial(),
    {
        let mut header: Vec<(String, String)> = Vec::new();
        header.push((String::new(), String::new()));
        let state = Rustman {
            url: String::new(),
            method: HttpMethod::GET,
            header,
            body: String::new(),
            response: None,
            is_loading: false,
            active_tab: ResponseTab::Body,
            history: Vec::new(),
            selected_history: None,
        };
        assert(state@.header =~= initial().header);
        assert(state@.history =~= initial().history);
        state
    }
}

impl Rustman {
    /// Whether the selected index, where there is one, points into the
    /// history.
    pub open spec fn wf(&self) -> bool {
        selection_valid(self@)
    }

    /// Applies one event. The state becomes `step` of the old state and the
    /// event; a send also returns the request to hand to the engine, whose
    /// outcome comes back later as `RequestCompleted`. An index out of range
    /// changes nothing.
    pub fn update(&mut self, message: Message) -> (command: Option<Request>)
        ensures
            final(self)@ == step(old(self)@, message@),
            command_view(command) == dispatched(old(self)@, message@),
            old(self).wf() ==> final(self).wf(),
    {
        match message {
            Message::UrlChanged(url) => {
                self.url = url;
                None
            },
            Message::MethodSelected(method) => {
                self.method = method;
                None
            },
            Message::HeaderKeyChanged(i, key) => {
                if i < self.header.len() {
                    self.header[i].0 = key;
                    assert(self@.header =~= step(old(self)@, message@).header);
                }
                None
            },
            Message::HeaderValueChanged(i, value) => {
                if i < self.header.len() {
                    self.header[i].1 = value;
                    assert(self@.header =~= step(old(self)@, message@).header);
                }
                None
            },
            Message::AddHeader => {
                self.header.push((String::new(), String::new()));
                assert(self@.header =~= step(old(self)@, message@).header);
                None
            },
            Message::RemoveHeader(i) => {
                if i < self.header.len() {
                    self.header.remove(i);
                    assert(self@.header =~= step(old(self)@, message@).header);
                }
                None
            },
            Message::BodyChanged(body) => {
                self.body = body;
                None
            },
            Message::SendRequest => {
                self.is_loading = true;
                let entry = HistoryItem {
                    method: self.method,
                    url: self.url.clone(),
                    request_headers: copy_headers(&self.header),
                    request_body: self.body.clone(),
                    response: None,
                };
                self.history.insert(0, entry);
                self.selected_history = Some(0);
                assert(self@.history =~= step(old(self)@, message@).history);
                Some(
                    Request {
                        url: self.url.clone(),
                        method: self.method,
                        headers: copy_headers(&self.header),
                        body: outbound_body(&self.body),
                    },
                )
            },
            Message::RequestCompleted(outcome) => {
                self.is_loading = false;
                self.response = Some(copy_outcome(&outcome));
                if self.history.len() > 0 {
                    self.history[0].response = Some(outcome);
                }
                assert(self@.history =~= step(old(self)@, message@).history);
                None
            },
            Message::TabChanged(tab) => {
                self.active_tab = tab;
                None
            },
            Message::SelectHistory(i) => {
                if i < self.history.len() {
                    let entry = &self.history[i];
                    let response = copy_slot(&entry.response);
                    let url = entry.url.clone();
                    let header = copy_headers(&entry.request_headers);
                    let body = entry.request_body.clone();
                    let method = entry.method;
                    self.selected_history = Some(i);
                    self.method = method;
                    self.url = url;
                    self.header = header;
                    self.body = body;
                    self.response = response;
                }
                None
            },
            Message::ClearHistory => {
                self.history.clear();
                self.selected_history = None;
                assert(self@.history =~= step(old(self)@, message@).history);
                None
            },
        }
    }
}

} // verus!
