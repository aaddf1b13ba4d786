//! The texts that a front end shows for the state: the status line of the
//! response, the list of its headers, the labels of a history entry.

use vstd::prelude::*;
use vstd::string::*;
use crate::app::{HistoryItem, Rustman};
use crate::http_client::{
    blank, header_seq, is_blank, lemma_header_seq_push, HeaderSeq, OutcomeView,
};
use crate::message::ResponseTab;

verus! {

/// The character of a decimal digit.
pub open spec fn digit_char(d: nat) -> char
    recommends
        d < 10,
{
    (('0' as u8) + (d as u8)) as char
}

/// A number written in decimal, without a sign and without leading zeros.
pub open spec fn decimal_spec(n: nat) -> Seq<char>
    decreases n,
{
    if n < 10 {
        seq![digit_char(n)]
    } else {
        decimal_spec(n / 10).push(digit_char(n % 10))
    }
}

/// `String::push`: the character is appended at the end of the text.
#[verifier::external_body]
fn push_char(text: &mut String, c: char)
    ensures
        final(text)@ == old(text)@.push(c),
{
    text.push(c)
}

/// A number written in decimal.
pub fn decimal(n: u128) -> (text: String)
    ensures
        text@ == decimal_spec(n as nat),
    decreases n,
{
    let mut text = if n < 10 {
        String::new()
    } else {
        decimal(n / 10)
    };
    let d: u8 = (n % 10) as u8;
    push_char(&mut text, (48u8 + d) as char);
    assert(n < 10 ==> text@ =~= seq![digit_char(n as nat)]);
    text
}

/// The status line of a response slot and whether it reads as a success:
/// nothing for an empty slot, the status with its text and the time in
/// milliseconds for a response, an error mark for a failure.
pub open spec fn status_line_spec(slot: Option<OutcomeView>) -> (Seq<char>, bool) {
    match slot {
        None => (Seq::empty(), true),
        Some(Ok(r)) => (
            "Status: "@ + decimal_spec(r.status as nat) + " "@ + r.status_text + " ("@
                + decimal_spec(r.duration_ms as nat) + " ms)"@,
            200 <= r.status < 300,
        ),
        Some(Err(_)) => ("Status: ERROR"@, false),
    }
}

/// The status line of the latest response and whether it reads as a
/// success (a status from 200 to 299, or no response yet).
pub fn response_status_line(app: &Rustman) -> (line: (String, bool))
    ensures
        (line.0@, line.1) == status_line_spec(app@.response),
{
    match &app.response {
        None => (String::new(), true),
        Some(Ok(r)) => {
            let mut text = "Status: ".to_owned();
            text.append(decimal(r.status as u128).as_str());
            text.append(" ");
            text.append(r.status_text.as_str());
            text.append(" (");
            text.append(decimal(r.duration_ms).as_str());
            text.append(" ms)");
            (text, 200 <= r.status && r.status < 300)
        },
        Some(Err(_)) => ("Status: ERROR".to_owned(), false),
    }
}

/// One line for each header pair: the key, a colon and a space, the value,
/// and a line feed.
pub open spec fn header_lines(headers: HeaderSeq) -> Seq<char>
    decreases headers.len(),
{
    if headers.len() == 0 {
        Seq::empty()
    } else {
        header_lines(headers.drop_last()) + headers.last().0 + ": "@ + headers.last().1 + "\n"@
    }
}

/// The text shown for a list of headers.
pub open spec fn headers_text_spec(headers: HeaderSeq) -> Seq<char> {
    if headers.len() == 0 {
        "No headers"@
    } else {
        header_lines(headers)
    }
}

/// The text shown for a list of headers: one line for each pair in order,
/// or a note that there are none.
pub fn headers_text(headers: &Vec<(String, String)>) -> (text: String)
    ensures
        text@ == headers_text_spec(header_seq(headers@)),
{
    if headers.len() == 0 {
        return "No headers".to_owned();
    }
    let mut text = String::new();
    let mut i: usize = 0;
    assert(header_seq(headers@.take(0)) =~= Seq::empty());
    while i < headers.len()
        invariant
            i <= headers.len(),
            text@ == header_lines(header_seq(headers@.take(i as int))),
        decreases headers.len() - i,
    {
        proof {
            lemma_header_seq_push(headers@.take(i as int), headers@[i as int]);
            assert(headers@.take(i as int).push(headers@[i as int]) =~= headers@.take(i + 1));
            let grown = header_seq(headers@.take(i + 1));
            assert(grown.drop_last() =~= header_seq(headers@.take(i as int)));
        }
        text.append(headers[i].0.as_str());
        text.append(": ");
        text.append(headers[i].1.as_str());
        text.append("\n");
        i += 1;
    }
    assert(headers@.take(i as int) =~= headers@);
    text
}

/// The text of the response panel: a hint while there is no response, the
/// body or the header lines of a response by the active tab, the message of
/// a failure under either tab.
pub open spec fn response_text_spec(slot: Option<OutcomeView>, tab: ResponseTab) -> Seq<char> {
    match slot {
        None => "Send a request to see the response…"@,
        Some(Ok(r)) => match tab {
            ResponseTab::Body => r.body,
            ResponseTab::Headers => headers_text_spec(r.headers),
        },
        Some(Err(message)) => message,
    }
}

/// The text of the response panel for the latest response and the active
/// tab.
pub fn response_text(app: &Rustman) -> (text: String)
    ensures
        text@ == response_text_spec(app@.response, app@.active_tab),
{
    match &app.response {
        None => "Send a request to see the response…".to_owned(),
        Some(Ok(r)) => match app.active_tab {
            ResponseTab::Body => r.body.clone(),
            ResponseTab::Headers => headers_text(&r.headers),
        },
        Some(Err(message)) => message.clone(),
    }
}

/// The two labels of a history entry: its status and its time.
pub open spec fn history_labels_spec(slot: Option<OutcomeView>) -> (Seq<char>, Seq<char>) {
    match slot {
        None => ("…"@, Seq::empty()),
        Some(Ok(r)) => (decimal_spec(r.status as nat), decimal_spec(r.duration_ms as nat) + "ms"@),
        Some(Err(_)) => ("ERR"@, Seq::empty()),
    }
}

/// The two labels of a history entry: an ellipsis while its call is
/// pending, the status and the milliseconds once a response is there, an
/// error mark after a failure.
pub fn history_labels(item: &HistoryItem) -> (labels: (String, String))
    ensures
        (labels.0@, labels.1@) == history_labels_spec(item@.response),
{
    match &item.response {
        None => ("…".to_owned(), String::new()),
        Some(Ok(r)) => {
            let mut time = decimal(r.duration_ms);
            time.append("ms");
            (decimal(r.status as u128), time)
        },
        Some(Err(_)) => ("ERR".to_owned(), String::new()),
    }
}

/// The label of a tab: in square brackets where the tab is the active one.
pub open spec fn tab_label_spec(label: Seq<char>, tab: ResponseTab, active: ResponseTab) -> Seq<
    char,
> {
    if tab == active {
        "["@ + label + "]"@
    } else {
        label
    }
}

/// The label of a tab: in square brackets where the tab is the active one.
pub fn tab_label(label: &str, tab: ResponseTab, active: ResponseTab) -> (text: String)
    ensures
        text@ == tab_label_spec(label@, tab, active),
{
    if tab == active {
        let mut text = "[".to_owned();
        text.append(label);
        text.append("]");
        text
    } else {
        label.to_owned()
    }
}

/// Whether the send control is switched off: while a call is loading, and
/// while the address is blank.
pub fn send_disabled(app: &Rustman) -> (off: bool)
    ensures
        off == (app@.is_loading || blank(app@.url)),
{
    app.is_loading || is_blank(app.url.as_str())
}

} // verus!
