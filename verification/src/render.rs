//! What the views show: one card per saint record, a failure line naming
//! the date that could not be loaded, and the whole-state view the card
//! list is drawn from.

use vstd::prelude::*;
use vstd::string::*;
use crate::date::{
    Date,
    valid_date,
    is_first_date,
    is_last_date,
    next_date_spec,
    prev_date_spec,
};
use crate::date_text::{ymd_seq, format_ymd};
use crate::record::SaintApi;
use crate::state::{Action, AppState, Event, FetchError, step_spec, wf_state};

verus! {

/// The visual unit for one saint record: an optional image source followed
/// by name, category and description.
pub struct Card {
    pub image: Option<String>,
    pub name: String,
    pub category: String,
    pub description: String,
}

/// `c` shows exactly the record `s`: the image source equals the record's
/// image URL and is absent exactly when the record has none, the name and
/// category are the record's, and the description is the record's or empty
/// when the record has none.
pub open spec fn card_shows(c: Card, s: SaintApi) -> bool {
    &&& c.name@ == s.nome@
    &&& c.category@ == s.tipologia@
    &&& match s.urlimmagine {
        Some(u) => c.image matches Some(i) && i@ == u@,
        None => c.image is None,
    }
    &&& match s.descrizione {
        Some(t) => c.description@ == t@,
        None => c.description@ == Seq::<char>::empty(),
    }
}

/// Renders one record as one card.
pub fn render_card(s: &SaintApi) -> (c: Card)
    ensures
        card_shows(c, *s),
{
    let image = match &s.urlimmagine {
        Some(u) => Some(u.clone()),
        None => None,
    };
    let description = match &s.descrizione {
        Some(t) => t.clone(),
        None => String::new(),
    };
    Card { image, name: s.nome.clone(), category: s.tipologia.clone(), description }
}

/// Renders a list of records as a list of cards, one card per record, in
/// the records' order; an empty list yields no cards.
pub fn render_cards(saints: &Vec<SaintApi>) -> (cards: Vec<Card>)
    ensures
        cards@.len() == saints@.len(),
        forall|i: int| 0 <= i < saints@.len() ==> card_shows(#[trigger] cards@[i], saints@[i]),
{
    let mut cards: Vec<Card> = Vec::new();
    let mut k: usize = 0;
    while k < saints.len()
        invariant
            k <= saints@.len(),
            cards@.len() == k,
            forall|i: int| 0 <= i < k ==> card_shows(#[trigger] cards@[i], saints@[i]),
        decreases saints@.len() - k,
    {
        cards.push(render_card(&saints[k]));
        k = k + 1;
    }
    cards
}

/// The failure line for date `d` and error `e`: a fixed message, the date
/// written as `YYYY-MM-DD`, and the reason.
pub open spec fn failure_message_spec(d: Date, e: FetchError) -> Seq<char> {
    "impossibile caricare i santi del "@ + ymd_seq(d) + match e {
        FetchError::Network => " (errore di rete)"@,
        FetchError::Decode => " (risposta non valida)"@,
    }
}

pub fn failure_message(d: &Date, e: &FetchError) -> (r: String)
    requires
        valid_date(*d),
    ensures
        r@ == failure_message_spec(*d, *e),
{
    let mut s = String::from_str("impossibile caricare i santi del ");
    let ymd = format_ymd(d);
    s.append(ymd.as_str());
    match e {
        FetchError::Network => s.append(" (errore di rete)"),
        FetchError::Decode => s.append(" (risposta non valida)"),
    }
    proof {
        assert(s@ =~= failure_message_spec(*d, *e));
    }
    s
}

/// What the card area shows for a state.
pub enum CardAreaView {
    /// A fetch is pending (or nothing was requested yet): show the loading
    /// affordance, no cards.
    Loading,
    /// The records arrived: show their cards.
    Cards { cards: Vec<Card> },
    /// The fetch failed: show the failure line.
    Failure { message: String },
}

/// What the card area shows for state `s`: loading while nothing arrived,
/// one card per record when records arrived, and the failure line naming
/// the state's date when the fetch failed.
pub open spec fn card_area_shows(v: CardAreaView, s: AppState) -> bool {
    match s {
        AppState::Idle { .. } => v is Loading,
        AppState::Fetching { .. } => v is Loading,
        AppState::Ready { date: _, saints } => {
            &&& v matches CardAreaView::Cards { cards }
            &&& cards@.len() == saints@.len()
            &&& forall|i: int| 0 <= i < saints@.len() ==> card_shows(#[trigger] cards@[i], saints@[i])
        },
        AppState::Failed { date, error } => {
            &&& v matches CardAreaView::Failure { message }
            &&& message@ == failure_message_spec(date, error)
        },
    }
}

/// Renders the card area of state `s`.
pub fn render_card_area(s: &AppState) -> (v: CardAreaView)
    requires
        wf_state(*s),
    ensures
        card_area_shows(v, *s),
{
    match s {
        AppState::Idle { .. } => CardAreaView::Loading,
        AppState::Fetching { .. } => CardAreaView::Loading,
        AppState::Ready { date: _, saints } => {
            CardAreaView::Cards { cards: render_cards(saints) }
        },
        AppState::Failed { date, error } => {
            CardAreaView::Failure { message: failure_message(date, error) }
        },
    }
}

/// A failed fetch for the shown date settles the state as failed; the card
/// area then shows the failure line, which carries that date's `YYYY-MM-DD`
/// form; and navigating from the failed state still moves the date and
/// starts a fresh fetch for it.
pub proof fn lemma_failure_shown_and_navigable(d: Date, e: FetchError)
    requires
        valid_date(d),
    ensures
        step_spec(
            AppState::Fetching { date: d },
            Event::Arrived { date: d, outcome: Err(e) },
        ) == (AppState::Failed { date: d, error: e }, Action::Stay),
        forall|v: CardAreaView|
            card_area_shows(v, AppState::Failed { date: d, error: e }) ==> (v matches
            CardAreaView::Failure { message } && message@.subrange(33, 43) == ymd_seq(d)),
        !is_last_date(d) ==> step_spec(
            AppState::Failed { date: d, error: e },
            Event::NextDay,
        ) == (
            AppState::Fetching { date: next_date_spec(d) },
            Action::StartFetch { date: next_date_spec(d) },
        ),
        !is_first_date(d) ==> step_spec(
            AppState::Failed { date: d, error: e },
            Event::PrevDay,
        ) == (
            AppState::Fetching { date: prev_date_spec(d) },
            Action::StartFetch { date: prev_date_spec(d) },
        ),
{
    reveal_strlit("impossibile caricare i santi del ");
    assert forall|v: CardAreaView|
        card_area_shows(v, AppState::Failed { date: d, error: e }) implies (v matches
    CardAreaView::Failure { message } && message@.subrange(33, 43) == ymd_seq(d)) by {
        if let CardAreaView::Failure { message } = v {
            assert(message@.subrange(33, 43) =~= ymd_seq(d));
        }
    };
}

} // verus!
