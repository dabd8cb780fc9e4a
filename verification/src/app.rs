//! The state of the dashboard: the connections of the last refresh with the
//! cursor that browses them, or the error of the last refresh.
//!
//! The two never stand side by side. A refresh that fails replaces the
//! connections by its error, so that nothing is shown that is known to be
//! out of date, and the next refresh that succeeds replaces the error.

use vstd::prelude::*;
use crate::record::{ConnectionRecord, FetchError};
use crate::ui::stateful_list::{ListView, StatefulList};

verus! {

/// The mathematical content of an [`App`].
pub type AppView = Result<ListView<ConnectionRecord>, FetchError>;

/// The mathematical content of what a refresh brought.
pub type FetchedView = Result<Seq<ConnectionRecord>, FetchError>;

/// What a refresh brought, with the records as a sequence.
pub open spec fn fetched_view(fetched: Result<Vec<ConnectionRecord>, FetchError>) -> FetchedView {
    match fetched {
        Ok(records) => Ok(records@),
        Err(error) => Err(error),
    }
}

/// The state in which the dashboard starts: the records of the first
/// refresh with nothing selected, or its error.
pub open spec fn started(fetched: FetchedView) -> AppView {
    match fetched {
        Ok(records) => Ok(ListView::unselected(records)),
        Err(error) => Err(error),
    }
}

/// The state after a refresh. New records replace the old ones under the
/// cursor that was there; after an error they come with nothing selected.
/// An error replaces whatever was there.
pub open spec fn updated(state: AppView, fetched: FetchedView) -> AppView {
    match fetched {
        Ok(records) => match state {
            Ok(list) => Ok(list.replace_items(records)),
            Err(_) => Ok(ListView::unselected(records)),
        },
        Err(error) => Err(error),
    }
}

/// The state after a step down: the list steps, an error stays.
pub open spec fn after_next(state: AppView) -> AppView {
    match state {
        Ok(list) => Ok(list.next()),
        Err(error) => Err(error),
    }
}

/// The state after a step up: the list steps, an error stays.
pub open spec fn after_previous(state: AppView) -> AppView {
    match state {
        Ok(list) => Ok(list.previous()),
        Err(error) => Err(error),
    }
}

/// A state is well formed if its list, where it has one, is.
pub open spec fn well_formed(state: AppView) -> bool {
    state matches Ok(list) ==> list.wf()
}

/// The dashboard's state.
#[derive(Debug)]
pub struct App {
    pub processes: Result<StatefulList<ConnectionRecord>, FetchError>,
}

impl View for App {
    type V = AppView;

    open spec fn view(&self) -> AppView {
        match self.processes {
            Ok(list) => Ok(list@),
            Err(error) => Err(error),
        }
    }
}

impl App {
    /// The list of a state, where it has one, is well formed.
    pub proof fn lemma_well_formed(self)
        ensures
            well_formed(self@),
    {
        if let Ok(list) = self.processes {
            list.lemma_cursor_in_range();
        }
    }

    /// The state at startup, from what the first refresh brought.
    pub fn new(fetched: Result<Vec<ConnectionRecord>, FetchError>) -> (app: App)
        ensures
            app@ == started(fetched_view(fetched)),
            well_formed(app@),
    {
        match fetched {
            Ok(records) => App { processes: Ok(StatefulList::with_items(records)) },
            Err(error) => App { processes: Err(error) },
        }
    }

    /// Takes in what a refresh brought. Records replace the records that
    /// were there and keep the cursor in range; where an error was shown
    /// they come with nothing selected. An error replaces the records.
    pub fn update(&mut self, fetched: Result<Vec<ConnectionRecord>, FetchError>)
        ensures
            final(self)@ == updated(old(self)@, fetched_view(fetched)),
            well_formed(final(self)@),
            fetched matches Err(error) ==> final(self)@ == Err::<
                ListView<ConnectionRecord>,
                FetchError,
            >(error),
            fetched matches Ok(records) ==> (old(self)@ is Err ==> final(self)@ == Ok::<
                ListView<ConnectionRecord>,
                FetchError,
            >(ListView::unselected(records@))),
    {
        match fetched {
            Ok(records) => {
                match &mut self.processes {
                    Ok(list) => {
                        list.replace_items(records);
                    },
                    Err(_) => {
                        self.processes = Ok(StatefulList::with_items(records));
                    },
                }
            },
            Err(error) => {
                self.processes = Err(error);
            },
        }
    }

    /// Moves the cursor one record down. Does nothing while an error is
    /// shown.
    pub fn select_next(&mut self)
        ensures
            final(self)@ == after_next(old(self)@),
            well_formed(final(self)@),
            old(self)@ is Err ==> final(self)@ == old(self)@,
    {
        match &mut self.processes {
            Ok(list) => {
                list.next();
            },
            Err(_) => {},
        }
    }

    /// Moves the cursor one record up. Does nothing while an error is shown.
    pub fn select_previous(&mut self)
        ensures
            final(self)@ == after_previous(old(self)@),
            well_formed(final(self)@),
            old(self)@ is Err ==> final(self)@ == old(self)@,
    {
        match &mut self.processes {
            Ok(list) => {
                list.previous();
            },
            Err(_) => {},
        }
    }
}

/// Every transition takes a well-formed state to a well-formed state.
pub proof fn lemma_transitions_keep_well_formed(state: AppView, fetched: FetchedView)
    requires
        well_formed(state),
    ensures
        well_formed(started(fetched)),
        well_formed(updated(state, fetched)),
        well_formed(after_next(state)),
        well_formed(after_previous(state)),
{
}

/// A refresh that brings what the refresh before it brought changes
/// nothing: not the records, not the cursor, not the error.
pub proof fn lemma_update_idempotent(state: AppView, fetched: FetchedView)
    ensures
        updated(updated(state, fetched), fetched) == updated(state, fetched),
{
}

/// A cursor that the new records still reach stays where it was, however
/// often the same records are brought.
pub proof fn lemma_update_keeps_valid_selection(
    list: ListView<ConnectionRecord>,
    records: Seq<ConnectionRecord>,
    k: nat,
)
    requires
        list.cursor == Some(k),
        k < records.len(),
    ensures
        updated(Ok(list), Ok(records)) == Ok::<ListView<ConnectionRecord>, FetchError>(
            ListView { items: records, cursor: Some(k) },
        ),
        updated(updated(Ok(list), Ok(records)), Ok(records)) == updated(Ok(list), Ok(records)),
{
}

/// While an error is shown, steps change nothing.
pub proof fn lemma_steps_keep_error(error: FetchError)
    ensures
        after_next(Err(error)) == Err::<ListView<ConnectionRecord>, FetchError>(error),
        after_previous(Err(error)) == Err::<ListView<ConnectionRecord>, FetchError>(error),
{
}

} // verus!
