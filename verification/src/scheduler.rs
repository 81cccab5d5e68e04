//! The check loop as an explicit state machine. The driver performs one
//! command at a time (resolve, fetch, update, sleep) and hands the answer
//! back as an event; `step` decides the next state and command. Failures
//! never stop the machine: a failed subdomain advances the cycle just as a
//! finished one does, and a failed resolution only sleeps out the interval.

use vstd::prelude::*;

use crate::provider::{UpdatePayload, RECORD_TTL};
use crate::reconcile::{decide_after_fetch, decide_after_update, FetchDecision, Outcome};
use crate::types::{ApiError, CycleConfig, DnsRecord};

verus! {

/// Where the loop stands.
#[derive(Debug)]
pub enum LoopState {
    /// The cycle's public IP is being resolved.
    Resolving,
    /// Subdomain `index` is being fetched; all earlier subdomains of this
    /// cycle are done, and every one is compared against `current_ip`.
    Fetching { current_ip: String, index: usize },
    /// Subdomain `index` drifted and its single update is in flight.
    Updating { current_ip: String, index: usize },
    /// The cycle is over; the loop waits out the fixed interval.
    Sleeping,
}

/// What the outside world answered to the pending command.
#[derive(Debug)]
pub enum Event {
    /// The IP echo replied; the argument is the trimmed response body.
    Resolved(String),
    /// The IP echo could not be reached.
    ResolveFailed { message: String },
    /// The lookup for the current subdomain answered, already interpreted.
    FetchDone(Result<Option<DnsRecord>, ApiError>),
    /// The update for the current subdomain answered, already interpreted.
    UpdateDone(Result<(), ApiError>),
    /// The configured interval has elapsed.
    SleepDone,
}

/// What the driver must perform next.
#[derive(Debug)]
pub enum Command {
    /// Resolve the public IP.
    Resolve,
    /// Fetch the record of subdomain `index`.
    Fetch { index: usize },
    /// Send exactly one update for the given record with the given payload.
    Update { record_id: String, payload: UpdatePayload },
    /// Sleep the given number of seconds.
    Sleep { seconds: u64 },
}

/// One step's answer: the new state, the command to perform, and, where
/// this step finished a subdomain, that subdomain's outcome.
#[derive(Debug)]
pub struct Step {
    pub state: LoopState,
    pub command: Command,
    pub finished: Option<Outcome>,
}

/// Only an event that answers the state's pending command is handed in.
pub open spec fn event_fits(state: LoopState, event: Event) -> bool {
    match event {
        Event::Resolved(_) => state is Resolving,
        Event::ResolveFailed { .. } => state is Resolving,
        Event::FetchDone(_) => state is Fetching,
        Event::UpdateDone(_) => state is Updating,
        Event::SleepDone => state is Sleeping,
    }
}

/// A state is well-formed for a configuration when its subdomain index is
/// in range.
pub open spec fn state_wf(config: CycleConfig, state: LoopState) -> bool {
    match state {
        LoopState::Fetching { index, .. } => index < config.subdomains@.len(),
        LoopState::Updating { index, .. } => index < config.subdomains@.len(),
        _ => true,
    }
}

/// After subdomain `index` is done, the cycle moves on to the next
/// subdomain, reusing the same resolved IP, or to the sleep when no
/// subdomain is left.
pub open spec fn advance_spec(config: CycleConfig, current_ip: String, index: usize) -> (
    LoopState,
    Command,
) {
    if index as int + 1 < config.subdomains@.len() {
        (
            LoopState::Fetching { current_ip, index: (index + 1) as usize },
            Command::Fetch { index: (index + 1) as usize },
        )
    } else {
        (LoopState::Sleeping, Command::Sleep { seconds: config.check_interval_seconds })
    }
}

/// The step advances the cycle past subdomain `index`: the next subdomain
/// is taken up with the same resolved IP, or the cycle ends in the sleep.
pub open spec fn advances(config: CycleConfig, current_ip: String, index: usize, r: Step) -> bool {
    r.state == advance_spec(config, current_ip, index).0 && r.command == advance_spec(
        config,
        current_ip,
        index,
    ).1
}

/// The fetch answer shows drift: an existing record whose content differs
/// from the cycle's resolved IP.
pub open spec fn drift_detected(state: LoopState, event: Event) -> bool {
    state matches LoopState::Fetching { current_ip, .. } && event matches Event::FetchDone(f)
        && f matches Ok(Some(rec)) && rec.content@ != current_ip@
}

/// The one update that a drifted record demands: addressed by the existing
/// record's id, named by the bare subdomain, carrying the resolved IP as
/// content and the fixed TTL, under the configured credentials.
pub open spec fn update_command_for(
    config: CycleConfig,
    index: usize,
    current_ip: String,
    rec: DnsRecord,
    c: Command,
) -> bool {
    c matches Command::Update { record_id, payload } && {
        &&& record_id == rec.id
        &&& payload.apikey@ == config.credentials.api_key@
        &&& payload.secretapikey@ == config.credentials.secret_api_key@
        &&& payload.name@ == config.subdomains@[index as int]@
        &&& payload.record_type@ == "A"@
        &&& payload.content@ == current_ip@
        &&& payload.ttl == RECORD_TTL
    }
}

/// What `step` does to the state alone, free of the command payloads. An
/// event that does not fit the state leaves the state as it is; `step`
/// refuses such an event outright.
pub open spec fn next_state_spec(config: CycleConfig, state: LoopState, event: Event) -> LoopState {
    match (state, event) {
        (LoopState::Resolving, Event::Resolved(ip)) => if config.subdomains@.len() > 0 {
            LoopState::Fetching { current_ip: ip, index: 0usize }
        } else {
            LoopState::Sleeping
        },
        (LoopState::Resolving, Event::ResolveFailed { .. }) => LoopState::Sleeping,
        (LoopState::Fetching { current_ip, index }, Event::FetchDone(fetch)) => {
            if fetch matches Ok(Some(rec)) && rec.content@ != current_ip@ {
                LoopState::Updating { current_ip, index }
            } else {
                advance_spec(config, current_ip, index).0
            }
        },
        (LoopState::Updating { current_ip, index }, Event::UpdateDone(_)) => advance_spec(
            config,
            current_ip,
            index,
        ).0,
        (LoopState::Sleeping, Event::SleepDone) => LoopState::Resolving,
        (s, _) => s,
    }
}

/// Every event of the sequence answers the state it meets, in order.
pub open spec fn trace_fits(config: CycleConfig, state: LoopState, events: Seq<Event>) -> bool
    decreases events.len(),
{
    events.len() > 0 ==> (event_fits(state, events[0]) && trace_fits(
        config,
        next_state_spec(config, state, events[0]),
        events.skip(1),
    ))
}

/// The run from `state` through `events` passes through `target`.
pub open spec fn visits(
    config: CycleConfig,
    state: LoopState,
    events: Seq<Event>,
    target: LoopState,
) -> bool
    decreases events.len(),
{
    state == target || (events.len() > 0 && visits(
        config,
        next_state_spec(config, state, events[0]),
        events.skip(1),
        target,
    ))
}

fn advance(config: &CycleConfig, current_ip: String, index: usize) -> (r: (LoopState, Command))
    requires
        index < config.subdomains@.len(),
    ensures
        r == advance_spec(*config, current_ip, index),
{
    let len = config.subdomains.len();
    let next = index + 1;
    if next < len {
        (
            LoopState::Fetching { current_ip, index: next },
            Command::Fetch { index: next },
        )
    } else {
        (LoopState::Sleeping, Command::Sleep { seconds: config.check_interval_seconds })
    }
}

/// One transition of the loop. An update command is issued exactly when
/// the fetch answer shows drift; every other fetch answer, and every
/// update answer whatever it says, advances the cycle, so one subdomain's
/// failure never keeps the remaining subdomains from being processed; a
/// failed resolution sleeps out the full interval and resolves anew, so no
/// failure ever stops the loop.
pub fn step(config: &CycleConfig, state: LoopState, event: Event) -> (r: Step)
    requires
        event_fits(state, event),
        state_wf(*config, state),
    ensures
        state_wf(*config, r.state),
        r.state == next_state_spec(*config, state, event),
        r.command is Update <==> drift_detected(state, event),
        event matches Event::ResolveFailed { .. } ==> r.state == LoopState::Sleeping && r.command
            == (Command::Sleep { seconds: config.check_interval_seconds }) && r.finished is None,
        event matches Event::Resolved(ip) ==> (if config.subdomains@.len() > 0 {
            r.state == (LoopState::Fetching { current_ip: ip, index: 0usize }) && r.command == (
            Command::Fetch { index: 0usize })
        } else {
            r.state == LoopState::Sleeping && r.command == (Command::Sleep {
                seconds: config.check_interval_seconds,
            })
        }) && r.finished is None,
        event is SleepDone ==> r.state == LoopState::Resolving && r.command == Command::Resolve
            && r.finished is None,
        state matches LoopState::Fetching { current_ip, index } ==> (event matches Event::FetchDone(
            fetch,
        ) ==> {
            &&& (fetch matches Err(e) ==> advances(*config, current_ip, index, r) && r.finished
                == Some(Outcome::ReadFailed(e)))
            &&& (fetch matches Ok(found) ==> (found is None ==> advances(
                *config,
                current_ip,
                index,
                r,
            ) && r.finished == Some(Outcome::SkippedNoRecord)))
            &&& (fetch matches Ok(Some(rec)) ==> (rec.content@ == current_ip@ ==> advances(
                *config,
                current_ip,
                index,
                r,
            ) && r.finished == Some(Outcome::NoChangeNeeded)))
            &&& (fetch matches Ok(Some(rec)) ==> (rec.content@ != current_ip@ ==> r.state == (
            LoopState::Updating { current_ip, index }) && update_command_for(
                *config,
                index,
                current_ip,
                rec,
                r.command,
            ) && r.finished is None))
        }),
        state matches LoopState::Updating { current_ip, index } ==> (event
            matches Event::UpdateDone(res) ==> {
            &&& advances(*config, current_ip, index, r)
            &&& (res is Ok ==> r.finished == Some(Outcome::Updated))
            &&& (res matches Err(e) ==> r.finished == Some(Outcome::UpdateFailed(e)))
        }),
{
    match (state, event) {
        (LoopState::Resolving, Event::Resolved(ip)) => {
            if config.subdomains.len() > 0 {
                Step {
                    state: LoopState::Fetching { current_ip: ip, index: 0 },
                    command: Command::Fetch { index: 0 },
                    finished: None,
                }
            } else {
                Step {
                    state: LoopState::Sleeping,
                    command: Command::Sleep { seconds: config.check_interval_seconds },
                    finished: None,
                }
            }
        },
        (LoopState::Resolving, Event::ResolveFailed { .. }) => Step {
            state: LoopState::Sleeping,
            command: Command::Sleep { seconds: config.check_interval_seconds },
            finished: None,
        },
        (LoopState::Fetching { current_ip, index }, Event::FetchDone(fetch)) => {
            let decision = decide_after_fetch(
                &config.credentials,
                config.subdomains[index].as_str(),
                current_ip.as_str(),
                fetch,
            );
            match decision {
                FetchDecision::Finished(outcome) => {
                    let (next_state, command) = advance(config, current_ip, index);
                    Step { state: next_state, command, finished: Some(outcome) }
                },
                FetchDecision::NeedsUpdate { record_id, payload } => Step {
                    state: LoopState::Updating { current_ip, index },
                    command: Command::Update { record_id, payload },
                    finished: None,
                },
            }
        },
        (LoopState::Updating { current_ip, index }, Event::UpdateDone(res)) => {
            let outcome = decide_after_update(res);
            let (next_state, command) = advance(config, current_ip, index);
            Step { state: next_state, command, finished: Some(outcome) }
        },
        (LoopState::Sleeping, Event::SleepDone) => Step {
            state: LoopState::Resolving,
            command: Command::Resolve,
            finished: None,
        },
        _ => vstd::pervasive::unreached(),
    }
}

/// No failure in one subdomain cuts its cycle short: from subdomain `i` of
/// a cycle — mid-update or about to fetch — any fitting run that goes on to
/// reach the sleep first passes through every later subdomain `j` of the
/// same cycle, still comparing against the same resolved IP, whatever
/// mixture of successes and failures the events carried.
pub proof fn lemma_cycle_visits_every_subdomain(
    config: CycleConfig,
    current_ip: String,
    i: usize,
    j: usize,
    state: LoopState,
    events: Seq<Event>,
)
    requires
        trace_fits(config, state, events),
        visits(config, state, events, LoopState::Sleeping),
        j < config.subdomains@.len(),
        (state == (LoopState::Fetching { current_ip, index: i }) && i <= j) || (state == (
        LoopState::Updating { current_ip, index: i }) && i < j),
    ensures
        visits(config, state, events, LoopState::Fetching { current_ip, index: j }),
    decreases events.len(),
{
    let target = LoopState::Fetching { current_ip, index: j };
    if state == target {
    } else {
        // The run still has to reach the sleep, so it has at least one
        // event, and that event answers this state's pending operation.
        assert(events.len() > 0);
        let next = next_state_spec(config, state, events[0]);
        assert(visits(config, next, events.skip(1), LoopState::Sleeping));
        if state is Fetching {
            // j == i is the target itself, already handled above.
            assert(i < j);
            match next {
                LoopState::Updating { .. } => {
                    lemma_cycle_visits_every_subdomain(
                        config,
                        current_ip,
                        i,
                        j,
                        next,
                        events.skip(1),
                    );
                },
                LoopState::Fetching { .. } => {
                    lemma_cycle_visits_every_subdomain(
                        config,
                        current_ip,
                        (i + 1) as usize,
                        j,
                        next,
                        events.skip(1),
                    );
                },
                _ => {
                    // Sleeping would mean i was the last subdomain, yet a
                    // later j exists in the same configuration.
                    assert(false);
                },
            }
        } else {
            assert(state == (LoopState::Updating { current_ip, index: i }));
            assert(next == advance_spec(config, current_ip, i).0);
            lemma_cycle_visits_every_subdomain(
                config,
                current_ip,
                (i + 1) as usize,
                j,
                next,
                events.skip(1),
            );
        }
    }
}

/// A failed resolution loses only its own cycle: the machine goes to sleep
/// without touching any subdomain, and the sleep's end finds it resolving
/// anew, so the loop never terminates on a resolution failure.
pub proof fn lemma_resolve_failure_keeps_loop_alive(config: CycleConfig, message: String)
    ensures
        next_state_spec(config, LoopState::Resolving, Event::ResolveFailed { message })
            == LoopState::Sleeping,
        next_state_spec(config, LoopState::Sleeping, Event::SleepDone) == LoopState::Resolving,
{
}

} // verus!
