//! What holds of the transition function on every state, and of the
//! headers that go on the wire for every list.

use vstd::prelude::*;
use crate::app::{record, selection_valid, snapshot, step, HistoryItemView, RustmanView};
use crate::http_client::{
    outbound_headers_spec, sendable, token_char, wire_pair, HeaderSeq, OutcomeView,
};
use crate::message::MessageView;

verus! {

/// `AddHeader` appends one pair with an empty key and an empty value; the
/// pairs that were there stay where they were, and nothing else changes.
pub proof fn lemma_add_header(s: RustmanView)
    ensures
        step(s, MessageView::AddHeader).header.len() == s.header.len() + 1,
        step(s, MessageView::AddHeader).header.last() == (Seq::<char>::empty(), Seq::<char>::empty()),
        step(s, MessageView::AddHeader).header.drop_last() == s.header,
        step(s, MessageView::AddHeader) == (RustmanView {
            header: step(s, MessageView::AddHeader).header,
            ..s
        }),
{
    assert(step(s, MessageView::AddHeader).header.drop_last() =~= s.header);
}

/// `RemoveHeader(i)` with a valid `i` takes one pair away: the pairs before
/// `i` stay, each pair after `i` moves down by one place, and nothing else
/// changes.
pub proof fn lemma_remove_header(s: RustmanView, i: usize)
    requires
        i < s.header.len(),
    ensures
        step(s, MessageView::RemoveHeader(i)).header.len() == s.header.len() - 1,
        forall|j: int|
            0 <= j < i ==> step(s, MessageView::RemoveHeader(i)).header[j] == s.header[j],
        forall|j: int|
            i <= j < s.header.len() - 1 ==> step(s, MessageView::RemoveHeader(i)).header[j]
                == s.header[j + 1],
        step(s, MessageView::RemoveHeader(i)) == (RustmanView {
            header: step(s, MessageView::RemoveHeader(i)).header,
            ..s
        }),
{
}

/// An edit of a header pair that is not there changes nothing, nor does the
/// removal of one.
pub proof fn lemma_header_index_out_of_range(s: RustmanView, i: usize, text: Seq<char>)
    requires
        i >= s.header.len(),
    ensures
        step(s, MessageView::RemoveHeader(i)) == s,
        step(s, MessageView::HeaderKeyChanged(i, text)) == s,
        step(s, MessageView::HeaderValueChanged(i, text)) == s,
{
}

/// The selection of a history entry that is not there changes nothing.
pub proof fn lemma_history_index_out_of_range(s: RustmanView, i: usize)
    requires
        i >= s.history.len(),
    ensures
        step(s, MessageView::SelectHistory(i)) == s,
{
}

/// `SelectHistory(i)` with a valid `i` makes the draft equal to the entry's
/// snapshot and the response slot equal to the entry's stored response,
/// selects `i`, and leaves the history, the loading flag and the tab alone.
pub proof fn lemma_select_restores(s: RustmanView, i: usize)
    requires
        i < s.history.len(),
    ensures
        step(s, MessageView::SelectHistory(i)).method == s.history[i as int].method,
        step(s, MessageView::SelectHistory(i)).url == s.history[i as int].url,
        step(s, MessageView::SelectHistory(i)).header == s.history[i as int].request_headers,
        step(s, MessageView::SelectHistory(i)).body == s.history[i as int].request_body,
        step(s, MessageView::SelectHistory(i)).response == s.history[i as int].response,
        step(s, MessageView::SelectHistory(i)).selected_history == Some(i),
        step(s, MessageView::SelectHistory(i)).history == s.history,
        step(s, MessageView::SelectHistory(i)).is_loading == s.is_loading,
        step(s, MessageView::SelectHistory(i)).active_tab == s.active_tab,
{
}

/// `ClearHistory` leaves an empty history and no selected index, whatever
/// was there before, and touches nothing else.
pub proof fn lemma_clear_resets(s: RustmanView)
    ensures
        step(s, MessageView::ClearHistory).history.len() == 0,
        step(s, MessageView::ClearHistory).selected_history.is_none(),
        step(s, MessageView::ClearHistory) == (RustmanView {
            history: Seq::empty(),
            selected_history: None,
            ..s
        }),
{
}

/// No event takes a single entry out of the history: after an event the
/// history is as long as before, longer by one, or empty.
pub proof fn lemma_history_grows_or_resets(s: RustmanView, m: MessageView)
    ensures
        step(s, m).history.len() == s.history.len() || step(s, m).history.len()
            == s.history.len() + 1 || step(s, m).history.len() == 0,
{
}

/// A selected index that points into the history still does so after any
/// event.
pub proof fn lemma_selection_stays_valid(s: RustmanView, m: MessageView)
    requires
        selection_valid(s),
    ensures
        selection_valid(step(s, m)),
{
}

/// The loading flag is set by a send, cleared by a completion, and left
/// alone by every other event.
pub proof fn lemma_loading_flag(s: RustmanView, m: MessageView)
    ensures
        step(s, m).is_loading == match m {
            MessageView::SendRequest => true,
            MessageView::RequestCompleted(_) => false,
            _ => s.is_loading,
        },
{
}

/// Whether an event edits the draft or the tab and nothing else.
pub open spec fn is_edit(m: MessageView) -> bool {
    match m {
        MessageView::UrlChanged(_) => true,
        MessageView::MethodSelected(_) => true,
        MessageView::HeaderKeyChanged(_, _) => true,
        MessageView::HeaderValueChanged(_, _) => true,
        MessageView::AddHeader => true,
        MessageView::RemoveHeader(_) => true,
        MessageView::BodyChanged(_) => true,
        MessageView::TabChanged(_) => true,
        _ => false,
    }
}

/// Whether every event of a list is an edit.
pub open spec fn all_edits(events: Seq<MessageView>) -> bool {
    forall|i: int| 0 <= i < events.len() ==> is_edit(#[trigger] events[i])
}

/// The state after a list of events, applied in order.
pub open spec fn run(s: RustmanView, events: Seq<MessageView>) -> RustmanView
    decreases events.len(),
{
    if events.len() == 0 {
        s
    } else {
        step(run(s, events.drop_last()), events.last())
    }
}

/// An edit leaves the history, the selected index, the response slot and
/// the loading flag as they were.
pub proof fn lemma_edit_keeps_history(s: RustmanView, m: MessageView)
    requires
        is_edit(m),
    ensures
        step(s, m).history == s.history,
        step(s, m).selected_history == s.selected_history,
        step(s, m).response == s.response,
        step(s, m).is_loading == s.is_loading,
{
}

/// A list of edits leaves the history as it was.
pub proof fn lemma_edits_keep_history(s: RustmanView, events: Seq<MessageView>)
    requires
        all_edits(events),
    ensures
        run(s, events).history == s.history,
    decreases events.len(),
{
    if events.len() > 0 {
        lemma_edits_keep_history(s, events.drop_last());
        lemma_edit_keeps_history(run(s, events.drop_last()), events.last());
    }
}

/// A history entry for the draft of `s` that holds the given outcome.
pub open spec fn answered(s: RustmanView, outcome: OutcomeView) -> HistoryItemView {
    HistoryItemView { response: Some(outcome), ..snapshot(s) }
}

/// One round: a send, and at once the completion of its call.
pub open spec fn round(s: RustmanView, outcome: OutcomeView) -> RustmanView {
    step(step(s, MessageView::SendRequest), MessageView::RequestCompleted(outcome))
}

/// A round puts one entry in front of the history: the draft as it was
/// sent, with the outcome of its call. The draft stays, the outcome is in
/// the response slot, nothing is loading, and the new entry is selected.
pub proof fn lemma_round(s: RustmanView, outcome: OutcomeView)
    ensures
        round(s, outcome) == (RustmanView {
            history: s.history.insert(0, answered(s, outcome)),
            response: Some(outcome),
            is_loading: false,
            selected_history: Some(0),
            ..s
        }),
{
    assert(round(s, outcome).history =~= s.history.insert(0, answered(s, outcome)));
}

/// The state after `outcomes.len()` rounds, where round `k` is preceded by
/// the edits `edits[k]` and ends with `outcomes[k]`.
pub open spec fn rounds(
    s: RustmanView,
    edits: Seq<Seq<MessageView>>,
    outcomes: Seq<OutcomeView>,
) -> RustmanView
    decreases outcomes.len(),
{
    if outcomes.len() == 0 || edits.len() != outcomes.len() {
        s
    } else {
        round(
            run(rounds(s, edits.drop_last(), outcomes.drop_last()), edits.last()),
            outcomes.last(),
        )
    }
}

/// The entry that round `k` leaves in the history: the draft as it stood
/// when round `k` sent it, with the outcome of that round.
pub open spec fn sent_in_round(
    s: RustmanView,
    edits: Seq<Seq<MessageView>>,
    outcomes: Seq<OutcomeView>,
    k: int,
) -> HistoryItemView {
    answered(run(rounds(s, edits.take(k), outcomes.take(k)), edits[k]), outcomes[k])
}

/// After `n` rounds on an empty history, with any edits of the draft
/// between them, the history has `n` entries, newest first: the entry at
/// index 0 is that of the last round, the entry at `n - 1` that of the
/// first, and each holds the outcome of its own call.
pub proof fn lemma_rounds_fill_history(
    s: RustmanView,
    edits: Seq<Seq<MessageView>>,
    outcomes: Seq<OutcomeView>,
)
    requires
        s.history.len() == 0,
        edits.len() == outcomes.len(),
        forall|k: int| 0 <= k < edits.len() ==> all_edits(#[trigger] edits[k]),
    ensures
        rounds(s, edits, outcomes).history.len() == outcomes.len(),
        forall|k: int|
            0 <= k < outcomes.len() ==> #[trigger] rounds(s, edits, outcomes).history[outcomes.len()
                - 1 - k] == sent_in_round(s, edits, outcomes, k),
    decreases outcomes.len(),
{
    let n = outcomes.len() as int;
    if n > 0 {
        let before = rounds(s, edits.drop_last(), outcomes.drop_last());
        let edited = run(before, edits.last());
        lemma_rounds_fill_history(s, edits.drop_last(), outcomes.drop_last());
        lemma_edits_keep_history(before, edits.last());
        lemma_round(edited, outcomes.last());
        assert(edits.take(n - 1) =~= edits.drop_last());
        assert(outcomes.take(n - 1) =~= outcomes.drop_last());
        assert forall|k: int| 0 <= k < n implies #[trigger] rounds(s, edits, outcomes).history[n
            - 1 - k] == sent_in_round(s, edits, outcomes, k) by {
            if k < n - 1 {
                assert(edits.drop_last().take(k) =~= edits.take(k));
                assert(outcomes.drop_last().take(k) =~= outcomes.take(k));
                assert(before.history[n - 2 - k] == sent_in_round(
                    s,
                    edits.drop_last(),
                    outcomes.drop_last(),
                    k,
                ));
            }
        }
    }
}

/// Completions are recorded by position. Where a second send goes out
/// before the first call has ended, both completions land on the entry of
/// the second send, and whichever comes last stays there; the entry of the
/// first send never receives a response.
pub proof fn lemma_overlapping_sends(s: RustmanView, first: OutcomeView, second: OutcomeView)
    ensures
        ({
            let sent_twice = step(step(s, MessageView::SendRequest), MessageView::SendRequest);
            let after_second = step(sent_twice, MessageView::RequestCompleted(second));
            let after_both = step(after_second, MessageView::RequestCompleted(first));
            &&& after_both.history.len() == s.history.len() + 2
            &&& after_second.history[0] == answered(s, second)
            &&& after_both.history[0] == answered(s, first)
            &&& after_both.history[1] == snapshot(s)
            &&& after_both.response == Some(first)
            &&& !after_both.is_loading
        }),
{
}

/// A completion changes no entry but the newest, and of that one only the
/// response.
pub proof fn lemma_completion_patches_newest(s: RustmanView, outcome: OutcomeView)
    ensures
        step(s, MessageView::RequestCompleted(outcome)).history.len() == s.history.len(),
        forall|i: int|
            1 <= i < s.history.len() ==> step(
                s,
                MessageView::RequestCompleted(outcome),
            ).history[i] == s.history[i],
        s.history.len() > 0 ==> step(s, MessageView::RequestCompleted(outcome)).history[0] == (
        HistoryItemView { response: Some(outcome), ..s.history[0] }),
        step(s, MessageView::RequestCompleted(outcome)).history == record(s.history, outcome),
{
}

/// Every pair that goes on the wire can be encoded, and no more pairs go
/// than were given.
pub proof fn lemma_outbound_only_sendable(headers: HeaderSeq)
    ensures
        outbound_headers_spec(headers).len() <= headers.len(),
        forall|i: int|
            0 <= i < outbound_headers_spec(headers).len() ==> wire_pair(
                #[trigger] outbound_headers_spec(headers)[i],
            ),
{
    headers.lemma_filter_len(sendable());
    assert forall|i: int| 0 <= i < outbound_headers_spec(headers).len() implies wire_pair(
        #[trigger] outbound_headers_spec(headers)[i],
    ) by {
        headers.lemma_filter_pred(sendable(), i);
    }
}

/// A list in which every pair can be encoded goes on the wire as it is.
pub proof fn lemma_outbound_keeps_sendable(headers: HeaderSeq)
    requires
        forall|i: int| 0 <= i < headers.len() ==> wire_pair(#[trigger] headers[i]),
    ensures
        outbound_headers_spec(headers) == headers,
    decreases headers.len(),
{
    reveal(Seq::filter);
    if headers.len() > 0 {
        lemma_outbound_keeps_sendable(headers.drop_last());
        assert(headers.drop_last().push(headers.last()) =~= headers);
    }
}

/// A pair whose key holds a character that is no token character is
/// dropped: the pairs before it go on the wire as they would without it.
pub proof fn lemma_bad_key_is_dropped(
    headers: HeaderSeq,
    key: Seq<char>,
    value: Seq<char>,
    i: int,
)
    requires
        0 <= i < key.len(),
        !token_char(key[i]),
    ensures
        outbound_headers_spec(headers.push((key, value))) == outbound_headers_spec(headers),
        outbound_headers_spec(seq![(key, value)]).len() == 0,
{
    reveal(Seq::filter);
    assert(headers.push((key, value)).drop_last() =~= headers);
    assert(seq![(key, value)].drop_last() =~= Seq::<(Seq<char>, Seq<char>)>::empty());
    assert(Seq::<(Seq<char>, Seq<char>)>::empty().filter(sendable()).len() == 0);
}

/// What goes on the wire of a list is what goes of its front part followed
/// by what goes of its rest: whether a pair is dropped does not depend on
/// the pairs around it.
pub proof fn lemma_outbound_pair_by_pair(front: HeaderSeq, rest: HeaderSeq)
    ensures
        outbound_headers_spec(front + rest) == outbound_headers_spec(front)
            + outbound_headers_spec(rest),
{
    Seq::filter_distributes_over_add(front, rest, sendable());
}

} // verus!
