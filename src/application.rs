//! Use cases composed from the ticket service, free of any backend detail.
use crate::domain::ticket::{StateType, Ticket, TicketFilter};
use crate::json::keys_unique;
use vstd::prelude::*;

verus! {

/// Whether a ticket in a state of this classification is still being worked
/// on: open, in progress, or any custom state.
pub open spec fn is_active(t: StateType) -> bool {
    !(t is Closed) && !(t is Cancelled)
}

/// The active tickets among `tickets`, in their order.
pub open spec fn active_only(tickets: Seq<Ticket>) -> Seq<Ticket> {
    tickets.filter(|t: Ticket| is_active(t.state.type_))
}

pub fn is_active_state(state_type: &StateType) -> (r: bool)
    ensures
        r == is_active(*state_type),
{
    match state_type {
        StateType::Open | StateType::InProgress => true,
        StateType::Closed | StateType::Cancelled => false,
        StateType::Custom(_) => true,
    }
}

/// Keeps the active tickets, in order.
pub fn active_tickets(tickets: Vec<Ticket>) -> (r: Vec<Ticket>)
    ensures
        r@ == active_only(tickets@),
{
    let mut kept: Vec<Ticket> = Vec::new();
    proof {
        reveal(Seq::filter);
        assert(tickets@.subrange(0, 0) =~= Seq::<Ticket>::empty());
    }
    for t in it: tickets.into_iter()
        invariant
            it.seq() == tickets@,
            kept@ == active_only(tickets@.subrange(0, it.index() as int)),
    {
        let ghost done = tickets@.subrange(0, it.index() as int);
        let ghost next = tickets@.subrange(0, it.index() + 1);
        proof {
            reveal(Seq::filter);
            assert(next.drop_last() =~= done);
            assert(next.last() == t);
        }
        if is_active_state(&t.state.type_) {
            kept.push(t);
        }
    }
    proof {
        assert(tickets@.subrange(0, tickets@.len() as int) =~= tickets@);
    }
    kept
}

/// The active tickets are exactly the open, in-progress and custom-state
/// ones among those given: each kept ticket is active and was given, and
/// each active ticket given is kept; closed and cancelled ones are not.
pub proof fn lemma_active_tickets_exact(tickets: Seq<Ticket>)
    ensures
        forall|i: int|
            0 <= i < active_only(tickets).len() ==> is_active(
                (#[trigger] active_only(tickets)[i]).state.type_,
            ) && tickets.contains(active_only(tickets)[i]),
        forall|i: int|
            0 <= i < tickets.len() && is_active((#[trigger] tickets[i]).state.type_)
                ==> active_only(tickets).contains(tickets[i]),
        forall|t: Ticket|
            #[trigger] active_only(tickets).contains(t) ==> !(t.state.type_ is Closed)
                && !(t.state.type_ is Cancelled),
{
    let pred = |t: Ticket| is_active(t.state.type_);
    assert(active_only(tickets) == tickets.filter(pred));
    assert forall|i: int| 0 <= i < active_only(tickets).len() implies is_active(
        (#[trigger] active_only(tickets)[i]).state.type_,
    ) && tickets.contains(active_only(tickets)[i]) by {
        tickets.lemma_filter_pred(pred, i);
        assert(tickets.filter(pred).contains(tickets.filter(pred)[i]));
        tickets.lemma_filter_contains_rev(pred, tickets.filter(pred)[i]);
    }
    assert forall|i: int|
        0 <= i < tickets.len() && is_active((#[trigger] tickets[i]).state.type_) implies active_only(
        tickets,
    ).contains(tickets[i]) by {
        tickets.lemma_filter_contains(pred, i);
    }
    assert forall|t: Ticket| #[trigger] active_only(tickets).contains(t) implies !(
    t.state.type_ is Closed) && !(t.state.type_ is Cancelled) by {
        let j = choose|j: int| 0 <= j < active_only(tickets).len() && active_only(tickets)[j] == t;
        tickets.lemma_filter_pred(pred, j);
    }
}

/// The filter for a free-text search that constrains nothing else.
pub fn text_search_filter(query: &str) -> (f: TicketFilter)
    ensures
        f.search_query matches Some(q) && q@ == query@,
        f.assignee_id is None && f.project_id is None,
        f.state_type is None && f.priority is None && f.labels is None,
        f.custom_filters@.len() == 0,
        keys_unique(f.custom_filters@),
{
    TicketFilter {
        assignee_id: None,
        project_id: None,
        state_type: None,
        priority: None,
        labels: None,
        search_query: Some(query.to_owned()),
        custom_filters: Vec::new(),
    }
}

} // verus!
