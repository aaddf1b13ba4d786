use rustman::app::{HistoryItem, Rustman};
use rustman::http_client::{ApiResponse, HttpMethod, Request};
use rustman::message::{Message, ResponseTab};

fn pair(k: &str, v: &str) -> (String, String) {
    (k.to_string(), v.to_string())
}

fn ok_response(status: u16, body: &str) -> Result<ApiResponse, String> {
    Ok(ApiResponse {
        status,
        status_text: "OK".to_string(),
        headers: vec![pair("Content-Type", "text/plain")],
        body: body.to_string(),
        duration_ms: 7,
    })
}

fn same_outcome(a: &Result<ApiResponse, String>, b: &Result<ApiResponse, String>) -> bool {
    match (a, b) {
        (Ok(x), Ok(y)) => {
            x.status == y.status
                && x.status_text == y.status_text
                && x.headers == y.headers
                && x.body == y.body
                && x.duration_ms == y.duration_ms
        }
        (Err(x), Err(y)) => x == y,
        _ => false,
    }
}

fn same_slot(
    a: &Option<Result<ApiResponse, String>>,
    b: &Option<Result<ApiResponse, String>>,
) -> bool {
    match (a, b) {
        (None, None) => true,
        (Some(x), Some(y)) => same_outcome(x, y),
        _ => false,
    }
}

fn same_item(a: &HistoryItem, b: &HistoryItem) -> bool {
    a.method == b.method
        && a.url == b.url
        && a.request_headers == b.request_headers
        && a.request_body == b.request_body
        && same_slot(&a.response, &b.response)
}

fn same_state(a: &Rustman, b: &Rustman) -> bool {
    a.url == b.url
        && a.method == b.method
        && a.header == b.header
        && a.body == b.body
        && same_slot(&a.response, &b.response)
        && a.is_loading == b.is_loading
        && a.active_tab == b.active_tab
        && a.history.len() == b.history.len()
        && a.history.iter().zip(b.history.iter()).all(|(x, y)| same_item(x, y))
        && a.selected_history == b.selected_history
}

fn busy_state() -> Rustman {
    let mut s = Rustman::default();
    assert!(s.update(Message::UrlChanged("https://a.example/one".to_string())).is_none());
    assert!(s.update(Message::HeaderKeyChanged(0, "Accept".to_string())).is_none());
    assert!(s.update(Message::HeaderValueChanged(0, "*/*".to_string())).is_none());
    assert!(s.update(Message::SendRequest).is_some());
    assert!(s.update(Message::RequestCompleted(ok_response(200, "one"))).is_none());
    assert!(s.update(Message::AddHeader).is_none());
    assert!(s.update(Message::HeaderKeyChanged(1, "X-Two".to_string())).is_none());
    s
}

#[test]
fn startup_state() {
    let s = Rustman::default();
    assert_eq!(s.url, "");
    assert_eq!(s.method, HttpMethod::GET);
    assert_eq!(s.header, vec![pair("", "")]);
    assert_eq!(s.body, "");
    assert!(s.response.is_none());
    assert!(!s.is_loading);
    assert_eq!(s.active_tab, ResponseTab::Body);
    assert!(s.history.is_empty());
    assert_eq!(s.selected_history, None);
}

#[test]
fn draft_edits() {
    let mut s = Rustman::default();
    assert!(s.update(Message::UrlChanged("http://x".to_string())).is_none());
    assert!(s.update(Message::MethodSelected(HttpMethod::PATCH)).is_none());
    assert!(s.update(Message::BodyChanged("{}".to_string())).is_none());
    assert!(s.update(Message::TabChanged(ResponseTab::Headers)).is_none());
    assert_eq!(s.url, "http://x");
    assert_eq!(s.method, HttpMethod::PATCH);
    assert_eq!(s.body, "{}");
    assert_eq!(s.active_tab, ResponseTab::Headers);
    assert_eq!(s.header, vec![pair("", "")]);
}

#[test]
fn header_key_and_value_edits_touch_one_field() {
    let mut s = Rustman::default();
    s.update(Message::AddHeader);
    s.update(Message::HeaderKeyChanged(1, "K".to_string()));
    assert_eq!(s.header, vec![pair("", ""), pair("K", "")]);
    s.update(Message::HeaderValueChanged(1, "V".to_string()));
    assert_eq!(s.header, vec![pair("", ""), pair("K", "V")]);
    s.update(Message::HeaderValueChanged(0, "first".to_string()));
    assert_eq!(s.header, vec![pair("", "first"), pair("K", "V")]);
    s.update(Message::HeaderKeyChanged(1, "K2".to_string()));
    assert_eq!(s.header, vec![pair("", "first"), pair("K2", "V")]);
}

#[test]
fn add_header_appends_empty_pair() {
    let mut s = busy_state();
    let before = s.header.clone();
    s.update(Message::AddHeader);
    assert_eq!(s.header.len(), before.len() + 1);
    assert_eq!(s.header[before.len()], pair("", ""));
    assert_eq!(&s.header[..before.len()], &before[..]);
}

#[test]
fn remove_header_shifts_later_entries_down() {
    let mut s = Rustman::default();
    s.header = vec![pair("a", "1"), pair("b", "2"), pair("c", "3"), pair("d", "4")];
    s.update(Message::RemoveHeader(1));
    assert_eq!(s.header, vec![pair("a", "1"), pair("c", "3"), pair("d", "4")]);
    s.update(Message::RemoveHeader(2));
    assert_eq!(s.header, vec![pair("a", "1"), pair("c", "3")]);
    s.update(Message::RemoveHeader(0));
    assert_eq!(s.header, vec![pair("c", "3")]);
    s.update(Message::RemoveHeader(0));
    assert!(s.header.is_empty());
}

#[test]
fn out_of_range_events_change_nothing() {
    let before = busy_state();
    let n = before.header.len();
    let h = before.history.len();
    for message in [
        Message::RemoveHeader(n),
        Message::RemoveHeader(usize::MAX),
        Message::HeaderKeyChanged(n, "k".to_string()),
        Message::HeaderValueChanged(n + 3, "v".to_string()),
        Message::SelectHistory(h),
        Message::SelectHistory(usize::MAX),
    ] {
        let mut s = before.clone();
        assert!(s.update(message).is_none());
        assert!(same_state(&s, &before));
    }
}

#[test]
fn send_records_pending_entry_and_returns_request() {
    let mut s = Rustman::default();
    s.update(Message::UrlChanged("https://api.example.com/ping".to_string()));
    s.update(Message::MethodSelected(HttpMethod::POST));
    s.update(Message::HeaderKeyChanged(0, "Accept".to_string()));
    s.update(Message::BodyChanged("{\"a\":1}".to_string()));
    let request: Request = s.update(Message::SendRequest).expect("a send dispatches a call");
    assert_eq!(request.url, "https://api.example.com/ping");
    assert_eq!(request.method, HttpMethod::POST);
    assert_eq!(request.headers, vec![pair("Accept", "")]);
    assert_eq!(request.body, Some("{\"a\":1}".to_string()));
    assert!(s.is_loading);
    assert_eq!(s.selected_history, Some(0));
    assert_eq!(s.history.len(), 1);
    assert_eq!(s.history[0].method, HttpMethod::POST);
    assert_eq!(s.history[0].url, "https://api.example.com/ping");
    assert_eq!(s.history[0].request_headers, vec![pair("Accept", "")]);
    assert_eq!(s.history[0].request_body, "{\"a\":1}");
    assert!(s.history[0].response.is_none());
    assert_eq!(s.url, "https://api.example.com/ping");
    assert!(s.response.is_none());
}

#[test]
fn blank_body_is_sent_as_no_body() {
    for body in ["", " ", "\n\t  \r\n", "\u{a0}\u{2003}"] {
        let mut s = Rustman::default();
        s.update(Message::BodyChanged(body.to_string()));
        let request = s.update(Message::SendRequest).expect("a send dispatches a call");
        assert_eq!(request.body, None);
        assert_eq!(s.history[0].request_body, body);
    }
    let mut s = Rustman::default();
    s.update(Message::BodyChanged("  x ".to_string()));
    let request = s.update(Message::SendRequest).expect("a send dispatches a call");
    assert_eq!(request.body, Some("  x ".to_string()));
}

#[test]
fn completion_fills_slot_and_newest_entry() {
    let mut s = Rustman::default();
    s.update(Message::SendRequest);
    let outcome = ok_response(201, "made");
    assert!(s.update(Message::RequestCompleted(outcome.clone())).is_none());
    assert!(!s.is_loading);
    assert!(same_slot(&s.response, &Some(outcome.clone())));
    assert!(same_slot(&s.history[0].response, &Some(outcome)));
    assert_eq!(s.history.len(), 1);
}

#[test]
fn completion_on_empty_history_fills_only_the_slot() {
    let mut s = Rustman::default();
    let outcome: Result<ApiResponse, String> = Err("late".to_string());
    s.update(Message::RequestCompleted(outcome.clone()));
    assert!(s.history.is_empty());
    assert!(same_slot(&s.response, &Some(outcome)));
    assert!(!s.is_loading);
}

#[test]
fn failure_is_recorded_in_history() {
    let mut s = Rustman::default();
    s.update(Message::UrlChanged("http://nowhere.invalid".to_string()));
    s.update(Message::SendRequest);
    let failure = rustman::http_client::conclude(rustman::http_client::Reply::Failed(
        "error sending request".to_string(),
    ));
    s.update(Message::RequestCompleted(failure));
    match &s.history[0].response {
        Some(Err(message)) => assert_eq!(message, "error sending request"),
        _ => panic!("the entry holds the failure"),
    }
    match &s.response {
        Some(Err(message)) => assert!(!message.is_empty()),
        _ => panic!("the slot holds the failure"),
    }
}

#[test]
fn history_grows_newest_first() {
    let mut s = Rustman::default();
    let n: usize = 5;
    for k in 0..n {
        s.update(Message::UrlChanged(format!("http://h/{}", k)));
        s.update(Message::SendRequest);
        s.update(Message::RequestCompleted(ok_response(200, &format!("body {}", k))));
        assert_eq!(s.history.len(), k + 1);
    }
    assert_eq!(s.history.len(), n);
    assert_eq!(s.history[0].url, "http://h/4");
    assert_eq!(s.history[n - 1].url, "http://h/0");
    for k in 0..n {
        let entry = &s.history[n - 1 - k];
        assert_eq!(entry.url, format!("http://h/{}", k));
        assert!(same_slot(&entry.response, &Some(ok_response(200, &format!("body {}", k)))));
    }
}

#[test]
fn select_history_restores_snapshot_and_response() {
    let mut s = busy_state();
    s.update(Message::MethodSelected(HttpMethod::DELETE));
    s.update(Message::UrlChanged("https://b.example/two".to_string()));
    s.update(Message::BodyChanged("second".to_string()));
    s.update(Message::SendRequest);
    s.update(Message::RequestCompleted(Err("refused".to_string())));
    assert_eq!(s.history.len(), 2);
    let history_before: Vec<HistoryItem> = s.history.clone();

    assert!(s.update(Message::SelectHistory(1)).is_none());
    assert_eq!(s.selected_history, Some(1));
    assert_eq!(s.method, HttpMethod::GET);
    assert_eq!(s.url, "https://a.example/one");
    assert_eq!(s.header, vec![pair("Accept", "*/*")]);
    assert_eq!(s.body, "");
    assert!(same_slot(&s.response, &Some(ok_response(200, "one"))));
    assert_eq!(s.history.len(), 2);
    assert!(same_item(&s.history[0], &history_before[0]));
    assert!(same_item(&s.history[1], &history_before[1]));

    s.update(Message::SelectHistory(0));
    assert_eq!(s.selected_history, Some(0));
    assert_eq!(s.method, HttpMethod::DELETE);
    assert_eq!(s.url, "https://b.example/two");
    assert_eq!(s.header, vec![pair("Accept", "*/*"), pair("X-Two", "")]);
    assert_eq!(s.body, "second");
    assert!(same_slot(&s.response, &Some(Err("refused".to_string()))));
}

#[test]
fn select_history_of_pending_entry_empties_the_slot() {
    let mut s = busy_state();
    s.update(Message::SendRequest);
    assert!(s.response.is_some());
    s.update(Message::SelectHistory(0));
    assert!(s.response.is_none());
    assert!(s.is_loading);
}

#[test]
fn clear_history_resets() {
    let mut s = busy_state();
    s.update(Message::SendRequest);
    assert_eq!(s.history.len(), 2);
    let url = s.url.clone();
    assert!(s.update(Message::ClearHistory).is_none());
    assert!(s.history.is_empty());
    assert_eq!(s.selected_history, None);
    assert_eq!(s.url, url);
    assert!(s.is_loading);
    let mut empty = Rustman::default();
    empty.update(Message::ClearHistory);
    assert!(empty.history.is_empty());
    assert_eq!(empty.selected_history, None);
}

#[test]
fn overlapping_sends_both_land_on_newest_entry() {
    let mut s = Rustman::default();
    s.update(Message::UrlChanged("http://first".to_string()));
    s.update(Message::SendRequest);
    s.update(Message::UrlChanged("http://second".to_string()));
    s.update(Message::SendRequest);
    s.update(Message::RequestCompleted(ok_response(200, "second reply")));
    assert!(same_slot(&s.history[0].response, &Some(ok_response(200, "second reply"))));
    s.update(Message::RequestCompleted(ok_response(200, "first reply")));
    assert_eq!(s.history.len(), 2);
    assert_eq!(s.history[0].url, "http://second");
    assert_eq!(s.history[1].url, "http://first");
    assert!(same_slot(&s.history[0].response, &Some(ok_response(200, "first reply"))));
    assert!(s.history[1].response.is_none());
    assert!(same_slot(&s.response, &Some(ok_response(200, "first reply"))));
}

#[test]
fn edits_are_accepted_while_loading() {
    let mut s = Rustman::default();
    s.update(Message::SendRequest);
    assert!(s.is_loading);
    s.update(Message::BodyChanged("later".to_string()));
    s.update(Message::AddHeader);
    assert_eq!(s.body, "later");
    assert_eq!(s.header.len(), 2);
    assert_eq!(s.history[0].request_body, "");
    assert_eq!(s.history[0].request_headers.len(), 1);
    assert!(s.is_loading);
}

#[test]
fn clones_hold_the_same_contents() {
    let s = busy_state();
    let t = s.clone();
    assert!(same_state(&s, &t));
    let m = Message::RequestCompleted(ok_response(204, ""));
    match m.clone() {
        Message::RequestCompleted(outcome) => assert!(same_outcome(&outcome, &ok_response(204, ""))),
        _ => panic!("the copy is the same event"),
    }
    match Message::HeaderKeyChanged(3, "k".to_string()).clone() {
        Message::HeaderKeyChanged(i, key) => {
            assert_eq!(i, 3);
            assert_eq!(key, "k");
        }
        _ => panic!("the copy is the same event"),
    }
}
