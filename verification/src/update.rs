//! The replacement of a host's address record: read, delete if anything is
//! there, create. The steps are decided here and carried out by the caller.

use vstd::prelude::*;
use vstd::string::*;
use crate::json::{parse_json, parsed_json, size_member_of, text_member_of, Json};
use crate::response::{
    created_id_from, domain_list_from, domain_list_of, failure_of, removed_count_from,
    ResponseError,
};

verus! {

/// How far a replacement has come.
#[derive(Debug, Clone, Copy, PartialEq, Eq, Structural)]
pub enum UpdateState {
    /// Nothing has been asked of the provider yet.
    Start,
    /// The records of the full name are being read.
    Listing,
    /// The records under the host label are being deleted.
    Deleting,
    /// The new address record is being created.
    Creating,
    /// The new record exists.
    Done,
    /// A step failed, or an answer came that was not asked for. Nothing is
    /// rolled back: the host may be left without an address record.
    Failed,
}

/// What the caller reports back.
#[derive(Debug, Clone, Copy, PartialEq, Eq, Structural)]
pub enum UpdateEvent {
    /// The replacement is to begin.
    Begin,
    /// The read succeeded and returned this many records.
    Listed { count: usize },
    /// The delete succeeded.
    Deleted,
    /// The create succeeded.
    Created,
    /// The step that was asked for failed, in transport, in decoding or at
    /// the provider.
    Failed,
}

/// What the caller is to do next.
#[derive(Debug, Clone, Copy, PartialEq, Eq, Structural)]
pub enum UpdateAction {
    /// Read the records of the full name.
    List,
    /// Delete every record under the host label.
    Delete,
    /// Create the address record.
    Create,
    /// Report success.
    Finish,
    /// Report the failure and ask nothing more of the provider.
    Abort,
}

/// The next state and action. A read that found records is followed by a
/// delete, one that found none by the create; a delete is followed by the
/// create; a failure, or an event that does not answer the step under way,
/// ends the replacement.
pub open spec fn next_of(state: UpdateState, event: UpdateEvent) -> (UpdateState, UpdateAction) {
    match (state, event) {
        (UpdateState::Start, UpdateEvent::Begin) => (UpdateState::Listing, UpdateAction::List),
        (UpdateState::Listing, UpdateEvent::Listed { count }) => if count > 0 {
            (UpdateState::Deleting, UpdateAction::Delete)
        } else {
            (UpdateState::Creating, UpdateAction::Create)
        },
        (UpdateState::Deleting, UpdateEvent::Deleted) => (
            UpdateState::Creating,
            UpdateAction::Create,
        ),
        (UpdateState::Creating, UpdateEvent::Created) => (UpdateState::Done, UpdateAction::Finish),
        _ => (UpdateState::Failed, UpdateAction::Abort),
    }
}

/// The step that a state waits on, if it waits on one.
pub open spec fn pending_of(state: UpdateState) -> Option<UpdateAction> {
    match state {
        UpdateState::Listing => Some(UpdateAction::List),
        UpdateState::Deleting => Some(UpdateAction::Delete),
        UpdateState::Creating => Some(UpdateAction::Create),
        _ => None,
    }
}

/// Decides the next step of a replacement from its state and the caller's
/// report.
pub fn step(state: UpdateState, event: UpdateEvent) -> (r: (UpdateState, UpdateAction))
    ensures
        r == next_of(state, event),
{
    match event {
        UpdateEvent::Begin => match state {
            UpdateState::Start => (UpdateState::Listing, UpdateAction::List),
            _ => (UpdateState::Failed, UpdateAction::Abort),
        },
        UpdateEvent::Listed { count } => match state {
            UpdateState::Listing => if count > 0 {
                (UpdateState::Deleting, UpdateAction::Delete)
            } else {
                (UpdateState::Creating, UpdateAction::Create)
            },
            _ => (UpdateState::Failed, UpdateAction::Abort),
        },
        UpdateEvent::Deleted => match state {
            UpdateState::Deleting => (UpdateState::Creating, UpdateAction::Create),
            _ => (UpdateState::Failed, UpdateAction::Abort),
        },
        UpdateEvent::Created => match state {
            UpdateState::Creating => (UpdateState::Done, UpdateAction::Finish),
            _ => (UpdateState::Failed, UpdateAction::Abort),
        },
        UpdateEvent::Failed => (UpdateState::Failed, UpdateAction::Abort),
    }
}

/// A failure ends the replacement: whatever the state, a reported failure
/// asks for no further step, and no later report asks for one either.
pub proof fn lemma_failure_stops(state: UpdateState, later: UpdateEvent)
    ensures
        next_of(state, UpdateEvent::Failed) == (UpdateState::Failed, UpdateAction::Abort),
        next_of(UpdateState::Failed, later) == (UpdateState::Failed, UpdateAction::Abort),
{
}

/// The steps come in one order only: a delete is asked for only after a read
/// that found a record, a create only after a read that found none or after
/// a delete, and success is reported only after a create.
pub proof fn lemma_step_order(state: UpdateState, event: UpdateEvent)
    ensures
        next_of(state, event).1 == UpdateAction::List ==> state == UpdateState::Start,
        next_of(state, event).1 == UpdateAction::Delete ==> state == UpdateState::Listing && (
        exists|count: usize| count > 0 && event == (UpdateEvent::Listed { count })),
        next_of(state, event).1 == UpdateAction::Create ==> (state == UpdateState::Listing
            && event == (UpdateEvent::Listed { count: 0 })) || (state == UpdateState::Deleting
            && event == UpdateEvent::Deleted),
        next_of(state, event).1 == UpdateAction::Finish ==> state == UpdateState::Creating
            && event == UpdateEvent::Created,
        pending_of(next_of(state, event).0) == match next_of(state, event).1 {
            UpdateAction::Finish | UpdateAction::Abort => None,
            action => Some(action),
        },
{
    match event {
        UpdateEvent::Listed { count } => {
            assert(event == (UpdateEvent::Listed { count }));
        },
        _ => {},
    }
}

/// The steps that a run of reports asks for, one for each report.
pub open spec fn actions_of(state: UpdateState, events: Seq<UpdateEvent>) -> Seq<UpdateAction>
    decreases events.len(),
{
    if events.len() == 0 {
        Seq::empty()
    } else {
        seq![next_of(state, events[0]).1] + actions_of(next_of(state, events[0]).0, events.skip(1))
    }
}

/// Where records exist, a replacement that meets no failure reads, deletes
/// and creates, in that order; where none exists it reads and creates, and
/// the delete is left out.
pub proof fn lemma_replacement_order(count: usize)
    ensures
        count > 0 ==> actions_of(
            UpdateState::Start,
            seq![
                UpdateEvent::Begin,
                UpdateEvent::Listed { count },
                UpdateEvent::Deleted,
                UpdateEvent::Created,
            ],
        ) == seq![
            UpdateAction::List,
            UpdateAction::Delete,
            UpdateAction::Create,
            UpdateAction::Finish,
        ],
        actions_of(
            UpdateState::Start,
            seq![UpdateEvent::Begin, UpdateEvent::Listed { count: 0 }, UpdateEvent::Created],
        ) == seq![UpdateAction::List, UpdateAction::Create, UpdateAction::Finish],
{
    let full = seq![
        UpdateEvent::Begin,
        UpdateEvent::Listed { count },
        UpdateEvent::Deleted,
        UpdateEvent::Created,
    ];
    let short = seq![UpdateEvent::Begin, UpdateEvent::Listed { count: 0 }, UpdateEvent::Created];
    reveal_with_fuel(actions_of, 5);
    assert(full.skip(1) =~= seq![
        UpdateEvent::Listed { count },
        UpdateEvent::Deleted,
        UpdateEvent::Created,
    ]);
    assert(full.skip(1).skip(1) =~= seq![UpdateEvent::Deleted, UpdateEvent::Created]);
    assert(full.skip(1).skip(1).skip(1) =~= seq![UpdateEvent::Created]);
    assert(full.skip(1).skip(1).skip(1).skip(1) =~= Seq::<UpdateEvent>::empty());
    assert(short.skip(1) =~= seq![UpdateEvent::Listed { count: 0 }, UpdateEvent::Created]);
    assert(short.skip(1).skip(1) =~= seq![UpdateEvent::Created]);
    assert(short.skip(1).skip(1).skip(1) =~= Seq::<UpdateEvent>::empty());
    if count > 0 {
        assert(actions_of(UpdateState::Start, full) =~= seq![
            UpdateAction::List,
            UpdateAction::Delete,
            UpdateAction::Create,
            UpdateAction::Finish,
        ]);
    }
    assert(actions_of(UpdateState::Start, short) =~= seq![
        UpdateAction::List,
        UpdateAction::Create,
        UpdateAction::Finish,
    ]);
}

/// Once a replacement has failed, every later report is answered by `Abort`:
/// no delete and no create follows a failure.
pub proof fn lemma_nothing_follows_a_failure(state: UpdateState, later: Seq<UpdateEvent>)
    ensures
        actions_of(state, seq![UpdateEvent::Failed] + later).len() == later.len() + 1,
        forall|i: int|
            0 <= i <= later.len() ==> #[trigger] actions_of(
                state,
                seq![UpdateEvent::Failed] + later,
            )[i] == UpdateAction::Abort,
{
    let events = seq![UpdateEvent::Failed] + later;
    assert(events.skip(1) =~= later);
    lemma_failed_state_aborts(later);
}

proof fn lemma_failed_state_aborts(events: Seq<UpdateEvent>)
    ensures
        actions_of(UpdateState::Failed, events).len() == events.len(),
        forall|i: int|
            0 <= i < events.len() ==> #[trigger] actions_of(UpdateState::Failed, events)[i]
                == UpdateAction::Abort,
    decreases events.len(),
{
    if events.len() > 0 {
        lemma_failed_state_aborts(events.skip(1));
    }
}

/// What a parsed answer to a step reports: how many records a read found,
/// that a delete or a create succeeded, or nothing where the answer is not
/// of the step's shape. The two steps that end a replacement await no
/// answer, so any answer to them reports a failure.
pub open spec fn answer_event_of(action: UpdateAction, parsed: Option<Json>) -> Option<
    UpdateEvent,
> {
    match action {
        UpdateAction::List => if parsed is Some && domain_list_of(parsed.unwrap()) is Some {
            Some(
                UpdateEvent::Listed {
                    count: domain_list_of(parsed.unwrap()).unwrap().records.len() as usize,
                },
            )
        } else {
            None
        },
        UpdateAction::Delete => if parsed is Some && size_member_of(
            parsed.unwrap(),
            "TotalCount"@,
        ) is Some {
            Some(UpdateEvent::Deleted)
        } else {
            None
        },
        UpdateAction::Create => if parsed is Some && text_member_of(parsed.unwrap(), "RecordId"@)
            is Some {
            Some(UpdateEvent::Created)
        } else {
            None
        },
        UpdateAction::Finish => Some(UpdateEvent::Failed),
        UpdateAction::Abort => Some(UpdateEvent::Failed),
    }
}

/// Reads the report of a step from its parsed answer, or says why the
/// answer gives none.
pub fn answer_event_from(action: UpdateAction, parsed: &Option<Json>, body: &str) -> (r: Result<
    UpdateEvent,
    ResponseError,
>)
    ensures
        match r {
            Ok(event) => answer_event_of(action, *parsed) == Some(event),
            Err(e) => answer_event_of(action, *parsed) is None && e@ == failure_of(*parsed, body@),
        },
{
    match action {
        UpdateAction::List => match domain_list_from(parsed, body) {
            Ok(list) => Ok(UpdateEvent::Listed { count: list.records.len() }),
            Err(e) => Err(e),
        },
        UpdateAction::Delete => match removed_count_from(parsed, body) {
            Ok(_) => Ok(UpdateEvent::Deleted),
            Err(e) => Err(e),
        },
        UpdateAction::Create => match created_id_from(parsed, body) {
            Ok(_) => Ok(UpdateEvent::Created),
            Err(e) => Err(e),
        },
        UpdateAction::Finish => Ok(UpdateEvent::Failed),
        UpdateAction::Abort => Ok(UpdateEvent::Failed),
    }
}

/// Decodes the answer to a step and reads its report.
pub fn answer_event(action: UpdateAction, body: &str) -> (r: Result<UpdateEvent, ResponseError>)
    ensures
        match r {
            Ok(event) => answer_event_of(action, parsed_json(body@)) == Some(event),
            Err(e) => answer_event_of(action, parsed_json(body@)) is None && e@ == failure_of(
                parsed_json(body@),
                body@,
            ),
        },
{
    let parsed = parse_json(body);
    answer_event_from(action, &parsed, body)
}

/// An answer that cannot be decoded ends the replacement: the step's report
/// is missing, and the failure that the caller then reports asks for no
/// further step.
pub proof fn lemma_undecoded_answer_stops(action: UpdateAction, state: UpdateState)
    requires
        action == UpdateAction::List || action == UpdateAction::Delete || action
            == UpdateAction::Create,
    ensures
        answer_event_of(action, None) is None,
        next_of(state, UpdateEvent::Failed).1 == UpdateAction::Abort,
{
}

/// The full name of a host: its label, a dot, the domain.
pub fn full_name(name: &str, domain: &str) -> (r: String)
    ensures
        r@ == name@ + "."@ + domain@,
{
    let mut out = String::from_str(name);
    out.append(".");
    out.append(domain);
    out
}

/// The line that reports a finished replacement: the full name, an arrow and
/// the address.
pub fn update_summary(name: &str, domain: &str, address: &str) -> (r: String)
    ensures
        r@ == name@ + "."@ + domain@ + " -> "@ + address@,
{
    let mut out = full_name(name, domain);
    out.append(" -> ");
    out.append(address);
    out
}

} // verus!
