//! The application's fetch state machine: the date being shown, whether a
//! fetch for it is pending, and the outcome of the last fetch. Navigation
//! and fetch completion are steps of one transition function; a completed
//! fetch is tagged with the date it was issued for, and a stale tag is
//! discarded.

use vstd::prelude::*;
use crate::date::{
    Date,
    valid_date,
    is_first_date,
    is_last_date,
    next_date_spec,
    prev_date_spec,
    next_day,
    prev_day,
    first_date,
    last_date,
};
use crate::record::SaintApi;

verus! {

/// Why a fetch did not produce records.
pub enum FetchError {
    /// The request could not complete.
    Network,
    /// The response body was not the expected JSON shape.
    Decode,
}

/// The state of the application: which date is shown, and what is known of
/// its records.
pub enum AppState {
    /// Nothing requested yet for this date.
    Idle { date: Date },
    /// A fetch for this date is in flight.
    Fetching { date: Date },
    /// The feed answered for this date.
    Ready { date: Date, saints: Vec<SaintApi> },
    /// The fetch for this date failed.
    Failed { date: Date, error: FetchError },
}

/// What the surrounding program feeds into the machine.
pub enum Event {
    /// Request the records of the current date (initial load, or retry).
    Load,
    /// Move the shown date one day back.
    PrevDay,
    /// Move the shown date one day forward.
    NextDay,
    /// A fetch issued for `date` came back with `outcome`.
    Arrived { date: Date, outcome: Result<Vec<SaintApi>, FetchError> },
}

/// What the surrounding program must do after a step.
pub enum Action {
    /// Nothing to do.
    Stay,
    /// Issue one GET for the records of `date` and feed the outcome back
    /// as an [`Event::Arrived`] tagged with `date`.
    StartFetch { date: Date },
}

/// The date a state shows.
pub open spec fn state_date(s: AppState) -> Date {
    match s {
        AppState::Idle { date } => date,
        AppState::Fetching { date } => date,
        AppState::Ready { date, .. } => date,
        AppState::Failed { date, .. } => date,
    }
}

pub open spec fn wf_state(s: AppState) -> bool {
    valid_date(state_date(s))
}

/// One step of the machine. Navigation moves the date and starts a fetch
/// for it, from any state; at the ends of the representable range it does
/// nothing. An arrived outcome settles the state only if its tag is still
/// the date shown and a fetch is pending; anything else is stale and is
/// discarded.
pub open spec fn step_spec(s: AppState, e: Event) -> (AppState, Action) {
    match e {
        Event::Load => {
            let d = state_date(s);
            (AppState::Fetching { date: d }, Action::StartFetch { date: d })
        },
        Event::PrevDay => {
            if is_first_date(state_date(s)) {
                (s, Action::Stay)
            } else {
                let d = prev_date_spec(state_date(s));
                (AppState::Fetching { date: d }, Action::StartFetch { date: d })
            }
        },
        Event::NextDay => {
            if is_last_date(state_date(s)) {
                (s, Action::Stay)
            } else {
                let d = next_date_spec(state_date(s));
                (AppState::Fetching { date: d }, Action::StartFetch { date: d })
            }
        },
        Event::Arrived { date, outcome } => {
            if s matches AppState::Fetching { date: cur } && cur == date {
                match outcome {
                    Ok(saints) => (AppState::Ready { date, saints }, Action::Stay),
                    Err(error) => (AppState::Failed { date, error }, Action::Stay),
                }
            } else {
                (s, Action::Stay)
            }
        },
    }
}

/// The state a fresh load starts from.
pub fn initial(today: Date) -> (r: AppState)
    requires
        valid_date(today),
    ensures
        r == (AppState::Idle { date: today }),
        wf_state(r),
{
    AppState::Idle { date: today }
}

pub fn current_date(s: &AppState) -> (d: Date)
    ensures
        d == state_date(*s),
{
    match s {
        AppState::Idle { date } => *date,
        AppState::Fetching { date } => *date,
        AppState::Ready { date, .. } => *date,
        AppState::Failed { date, .. } => *date,
    }
}

pub fn step(s: AppState, e: Event) -> (r: (AppState, Action))
    requires
        wf_state(s),
    ensures
        r == step_spec(s, e),
        wf_state(r.0),
{
    match e {
        Event::Load => {
            let d = current_date(&s);
            (AppState::Fetching { date: d }, Action::StartFetch { date: d })
        },
        Event::PrevDay => {
            let cur = current_date(&s);
            if first_date(&cur) {
                (s, Action::Stay)
            } else {
                let d = prev_day(&cur);
                (AppState::Fetching { date: d }, Action::StartFetch { date: d })
            }
        },
        Event::NextDay => {
            let cur = current_date(&s);
            if last_date(&cur) {
                (s, Action::Stay)
            } else {
                let d = next_day(&cur);
                (AppState::Fetching { date: d }, Action::StartFetch { date: d })
            }
        },
        Event::Arrived { date, outcome } => {
            let stale = match &s {
                AppState::Fetching { date: cur } => *cur != date,
                _ => true,
            };
            if stale {
                (s, Action::Stay)
            } else {
                match outcome {
                    Ok(saints) => (AppState::Ready { date, saints }, Action::Stay),
                    Err(error) => (AppState::Failed { date, error }, Action::Stay),
                }
            }
        },
    }
}

} // verus!
