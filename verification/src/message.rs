//! The events that the state machine accepts.

use vstd::prelude::*;
use crate::http_client::{copy_outcome, outcome_view, ApiResponse, HttpMethod, OutcomeView};

verus! {

/// Which part of a response is shown.
#[derive(Debug, Clone, Copy, PartialEq, Eq, Structural)]
pub enum ResponseTab {
    Body,
    Headers,
}

/// One event: an edit of the draft, a send, the completion of a call, or a
/// step in the history.
#[derive(Debug)]
pub enum Message {
    UrlChanged(String),
    MethodSelected(HttpMethod),
    HeaderKeyChanged(usize, String),
    HeaderValueChanged(usize, String),
    AddHeader,
    RemoveHeader(usize),
    BodyChanged(String),
    SendRequest,
    RequestCompleted(Result<ApiResponse, String>),
    TabChanged(ResponseTab),
    SelectHistory(usize),
    ClearHistory,
}

/// An event with its texts as sequences of characters.
pub enum MessageView {
    UrlChanged(Seq<char>),
    MethodSelected(HttpMethod),
    HeaderKeyChanged(usize, Seq<char>),
    HeaderValueChanged(usize, Seq<char>),
    AddHeader,
    RemoveHeader(usize),
    BodyChanged(Seq<char>),
    SendRequest,
    RequestCompleted(OutcomeView),
    TabChanged(ResponseTab),
    SelectHistory(usize),
    ClearHistory,
}

impl View for Message {
    type V = MessageView;

    open spec fn view(&self) -> MessageView {
        match *self {
            Message::UrlChanged(url) => MessageView::UrlChanged(url@),
            Message::MethodSelected(method) => MessageView::MethodSelected(method),
            Message::HeaderKeyChanged(i, key) => MessageView::HeaderKeyChanged(i, key@),
            Message::HeaderValueChanged(i, value) => MessageView::HeaderValueChanged(i, value@),
            Message::AddHeader => MessageView::AddHeader,
            Message::RemoveHeader(i) => MessageView::RemoveHeader(i),
            Message::BodyChanged(body) => MessageView::BodyChanged(body@),
            Message::SendRequest => MessageView::SendRequest,
            Message::RequestCompleted(outcome) => MessageView::RequestCompleted(
                outcome_view(outcome),
            ),
            Message::TabChanged(tab) => MessageView::TabChanged(tab),
            Message::SelectHistory(i) => MessageView::SelectHistory(i),
            Message::ClearHistory => MessageView::ClearHistory,
        }
    }
}

impl Clone for Message {
    fn clone(&self) -> (copy: Message)
        ensures
            copy@ == self@,
    {
        match self {
            Message::UrlChanged(url) => Message::UrlChanged(url.clone()),
            Message::MethodSelected(method) => Message::MethodSelected(*method),
            Message::HeaderKeyChanged(i, key) => Message::HeaderKeyChanged(*i, key.clone()),
            Message::HeaderValueChanged(i, value) => Message::HeaderValueChanged(
                *i,
                value.clone(),
            ),
            Message::AddHeader => Message::AddHeader,
            Message::RemoveHeader(i) => Message::RemoveHeader(*i),
            Message::BodyChanged(body) => Message::BodyChanged(body.clone()),
            Message::SendRequest => Message::SendRequest,
            Message::RequestCompleted(outcome) => Message::RequestCompleted(
                copy_outcome(outcome),
            ),
            Message::TabChanged(tab) => Message::TabChanged(*tab),
            Message::SelectHistory(i) => Message::SelectHistory(*i),
            Message::ClearHistory => Message::ClearHistory,
        }
    }
}

} // verus!
