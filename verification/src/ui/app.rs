//! The state of the dashboard and the operations on it.
//!
//! The state is a snapshot of the containers, a cursor into it, a status
//! message that expires, the confirmation mode and the wish to quit. No
//! operation here talks to the runtime or reads a clock: a listing is
//! handed in when it has arrived, a call to the runtime is handed out as a
//! `Request`, and the time is an argument in milliseconds.

use crate::docker::container::{ContainerRecord, ContainerRecordView};
use crate::docker::request::{
    listing_view, outcome_view, Action, Request, RequestView, RuntimeError,
};
use vstd::prelude::*;

verus! {

/// How long a status message stays, in milliseconds.
pub const STATUS_TTL_MS: u64 = 3000;

/// A status message and the time at which it was set.
pub struct StatusView {
    pub text: Seq<char>,
    pub set_at_ms: u64,
}

/// The mathematical value of an `App`.
pub struct AppView {
    pub should_quit: bool,
    pub containers: Seq<ContainerRecordView>,
    pub selection: Option<nat>,
    pub status: Option<StatusView>,
    pub show_delete_confirm: bool,
}

/// Where the cursor stands after a listing of `len` containers: nowhere in
/// an empty list, else where it stood, at the last container if that is now
/// out of range, at the first if it stood nowhere.
pub open spec fn clamped(selection: Option<nat>, len: nat) -> Option<nat> {
    if len == 0 {
        None
    } else {
        match selection {
            Some(i) => if i >= len {
                Some((len - 1) as nat)
            } else {
                Some(i)
            },
            None => Some(0),
        }
    }
}

/// The milliseconds from `since` to `now`; none if `now` is the earlier.
pub open spec fn elapsed(since: u64, now: u64) -> nat {
    if now >= since {
        (now - since) as nat
    } else {
        0
    }
}

impl AppView {
    /// The cursor stands nowhere exactly when the list is empty, and else
    /// on a container of the list.
    pub open spec fn wf(self) -> bool {
        match self.selection {
            None => self.containers.len() == 0,
            Some(i) => i < self.containers.len(),
        }
    }

    /// The identifier of the container under the cursor, if the cursor
    /// stands on one and that one has an identifier.
    pub open spec fn selected_id(self) -> Option<Seq<char>> {
        match self.selection {
            Some(i) => if i < self.containers.len() {
                self.containers[i as int].id
            } else {
                None
            },
            None => None,
        }
    }

    /// The text of the status message, if one is set.
    pub open spec fn status_text(self) -> Option<Seq<char>> {
        match self.status {
            Some(status) => Some(status.text),
            None => None,
        }
    }

    /// The state with `text` as its status message, set at `now`.
    pub open spec fn with_status(self, text: Seq<char>, now: u64) -> AppView {
        AppView { status: Some(StatusView { text, set_at_ms: now }), ..self }
    }

    /// The state after a listing has replaced the containers.
    pub open spec fn refreshed(self, listed: Seq<ContainerRecordView>) -> AppView {
        AppView {
            containers: listed,
            selection: clamped(self.selection, listed.len()),
            ..self
        }
    }

    /// The state after the outcome of a listing that no action asked for
    /// has come in: refreshed, or with the failure as its status message.
    pub open spec fn listed(
        self,
        listed: Result<Seq<ContainerRecordView>, Seq<char>>,
        now: u64,
    ) -> AppView {
        match listed {
            Ok(containers) => self.refreshed(containers),
            Err(description) => self.with_status(description, now),
        }
    }

    /// The state after the cursor has moved down one container, from the
    /// last to the first.
    pub open spec fn select_next(self) -> AppView {
        if self.containers.len() == 0 {
            self
        } else {
            let i = match self.selection {
                Some(i) => i,
                None => 0,
            };
            AppView { selection: Some((i + 1) % self.containers.len()), ..self }
        }
    }

    /// The state after the cursor has moved up one container, from the
    /// first to the last.
    pub open spec fn select_previous(self) -> AppView {
        if self.containers.len() == 0 {
            self
        } else {
            let i = match self.selection {
                Some(i) => i,
                None => 0,
            };
            let previous = if i > 0 {
                (i - 1) as nat
            } else {
                (self.containers.len() - 1) as nat
            };
            AppView { selection: Some(previous), ..self }
        }
    }

    /// The call that `action` on the container under the cursor amounts to,
    /// if there is one to make.
    pub open spec fn request(self, action: Action) -> Option<RequestView> {
        match self.selected_id() {
            Some(id) => Some(RequestView { action, id }),
            None => None,
        }
    }

    /// The state after `action` has been started at `now`: with the
    /// action's progress message where there is a call to make, unchanged
    /// where there is none.
    pub open spec fn begun(self, action: Action, now: u64) -> AppView {
        match self.selected_id() {
            Some(id) => self.with_status(action.progress_text(), now),
            None => self,
        }
    }

    /// The state after the call to the runtime has come back.
    pub open spec fn returned(self, outcome: Result<(), Seq<char>>, now: u64) -> AppView {
        match outcome {
            Ok(_) => self,
            Err(description) => self.with_status(description, now),
        }
    }

    /// The state after the listing that follows a successful call has come
    /// back: refreshed first and then marked done, or with the failure as
    /// its status message.
    pub open spec fn completed(
        self,
        action: Action,
        listed: Result<Seq<ContainerRecordView>, Seq<char>>,
        now: u64,
    ) -> AppView {
        match listed {
            Ok(containers) => self.refreshed(containers).with_status(action.done_text(), now),
            Err(description) => self.with_status(description, now),
        }
    }

    /// The state after a delete has been asked for.
    pub open spec fn delete_requested(self) -> AppView {
        if self.selection is Some {
            AppView { show_delete_confirm: true, ..self }
        } else {
            self
        }
    }

    /// The state after the pending delete has been called off.
    pub open spec fn delete_cancelled(self) -> AppView {
        AppView { show_delete_confirm: false, ..self }
    }

    /// The state after the pending delete has been confirmed at `now`.
    pub open spec fn delete_confirmed(self, now: u64) -> AppView {
        self.delete_cancelled().begun(Action::Remove, now)
    }

    /// Whether the status message has outlived `STATUS_TTL_MS` at `now`.
    pub open spec fn status_expired(self, now: u64) -> bool {
        match self.status {
            Some(status) => elapsed(status.set_at_ms, now) > STATUS_TTL_MS,
            None => false,
        }
    }

    /// The state after expired status has been cleared at `now`.
    pub open spec fn status_cleared(self, now: u64) -> AppView {
        if self.status_expired(now) {
            AppView { status: None, ..self }
        } else {
            self
        }
    }

    /// The state after quitting has been asked for.
    pub open spec fn quit_requested(self) -> AppView {
        AppView { should_quit: true, ..self }
    }
}

/// A status message and the time at which it was set.
struct Status {
    text: String,
    set_at_ms: u64,
}

/// The containers of the last listing and the cursor into them. The two
/// are replaced together, so that the cursor never points outside the list.
struct Listing {
    containers: Vec<ContainerRecord>,
    selection: Option<usize>,
}

/// The state of the dashboard.
pub struct App {
    should_quit: bool,
    listing: Listing,
    status: Option<Status>,
    show_delete_confirm: bool,
}

impl View for App {
    type V = AppView;

    closed spec fn view(&self) -> AppView {
        AppView {
            should_quit: self.should_quit,
            containers: self.listing.containers.deep_view(),
            selection: match self.listing.selection {
                Some(i) => Some(i as nat),
                None => None,
            },
            status: match self.status {
                Some(status) => Some(StatusView { text: status.text@, set_at_ms: status.set_at_ms }),
                None => None,
            },
            show_delete_confirm: self.show_delete_confirm,
        }
    }
}

impl App {
    /// Every `App` is well formed: see `AppView::wf`.
    #[verifier::type_invariant]
    pub open spec fn wf(&self) -> bool {
        self@.wf()
    }

    /// A dashboard that has listed nothing yet.
    pub fn new() -> (app: App)
        ensures
            app@ == (AppView {
                should_quit: false,
                containers: Seq::empty(),
                selection: None,
                status: None,
                show_delete_confirm: false,
            }),
    {
        let app = App {
            should_quit: false,
            listing: Listing { containers: Vec::new(), selection: None },
            status: None,
            show_delete_confirm: false,
        };
        assert(app@.containers =~= Seq::empty());
        app
    }

    /// Whether quitting has been asked for.
    pub fn should_quit(&self) -> (r: bool)
        ensures
            r == self@.should_quit,
    {
        self.should_quit
    }

    /// The containers of the last listing.
    pub fn containers(&self) -> (r: &Vec<ContainerRecord>)
        ensures
            r.deep_view() == self@.containers,
    {
        &self.listing.containers
    }

    /// The position of the cursor.
    pub fn selection(&self) -> (r: Option<usize>)
        ensures
            match r {
                Some(i) => self@.selection == Some(i as nat),
                None => self@.selection is None,
            },
    {
        self.listing.selection
    }

    /// The text of the status message, if one is set.
    pub fn status_message(&self) -> (r: Option<&str>)
        ensures
            r.deep_view() == self@.status_text(),
    {
        match &self.status {
            Some(status) => Some(status.text.as_str()),
            None => None,
        }
    }

    /// Whether a delete waits for confirmation.
    pub fn show_delete_confirm(&self) -> (r: bool)
        ensures
            r == self@.show_delete_confirm,
    {
        self.show_delete_confirm
    }

    /// Takes in the outcome of a listing. A listing that succeeded replaces
    /// the containers as a whole and moves the cursor back into range; the
    /// status message and the confirmation mode stay. A listing that failed
    /// changes nothing and its error is handed back.
    pub fn refresh_containers(
        &mut self,
        listed: Result<Vec<ContainerRecord>, RuntimeError>,
    ) -> (result: Result<(), RuntimeError>)
        ensures
            match listed {
                Ok(containers) => result is Ok
                    && final(self)@ == old(self)@.refreshed(containers.deep_view()),
                Err(error) => result == Err::<(), RuntimeError>(error)
                    && final(self)@ == old(self)@,
            },
            final(self)@.selection is None <==> final(self)@.containers.len() == 0,
            final(self)@.selection matches Some(i) ==> i < final(self)@.containers.len(),
            listed is Ok && 0 < final(self)@.containers.len() < old(self)@.containers.len()
                && old(self)@.selection == Some((old(self)@.containers.len() - 1) as nat)
                ==> final(self)@.selection == Some((final(self)@.containers.len() - 1) as nat),
    {
        proof {
            use_type_invariant(&*self);
        }
        match listed {
            Ok(containers) => {
                let n = containers.len();
                let selection = if n == 0 {
                    None
                } else {
                    match self.listing.selection {
                        Some(i) => if i >= n {
                            Some(n - 1)
                        } else {
                            Some(i)
                        },
                        None => Some(0),
                    }
                };
                self.listing = Listing { containers, selection };
                Ok(())
            },
            Err(error) => Err(error),
        }
    }

    /// Takes in the outcome of a listing that no action asked for, made in
    /// the background or on the refresh key. A listing that succeeded
    /// replaces the containers as `refresh_containers` does. A listing that
    /// failed leaves its description as the status message and changes
    /// nothing else: a failure of the runtime never ends the loop.
    pub fn listing_returned(
        &mut self,
        listed: Result<Vec<ContainerRecord>, RuntimeError>,
        now_ms: u64,
    )
        ensures
            final(self)@ == old(self)@.listed(listing_view(listed), now_ms),
    {
        match self.refresh_containers(listed) {
            Ok(_) => {},
            Err(error) => self.report_error(&error, now_ms),
        }
    }

    /// The identifier of the container under the cursor, if there is one.
    pub fn selected_id(&self) -> (id: Option<String>)
        ensures
            id.deep_view() == self@.selected_id(),
    {
        proof {
            use_type_invariant(self);
        }
        match self.listing.selection {
            Some(i) => match &self.listing.containers[i].id {
                Some(id) => Some(id.clone()),
                None => None,
            },
            None => None,
        }
    }

    /// Sets the status message to `text`, at `now_ms`.
    fn set_status(&mut self, text: &str, now_ms: u64)
        ensures
            final(self)@ == old(self)@.with_status(text@, now_ms),
    {
        proof {
            use_type_invariant(&*self);
        }
        self.status = Some(Status { text: String::from_str(text), set_at_ms: now_ms });
    }

    /// The first of the three phases of a call that changes a container.
    /// Where the cursor stands on a container with an identifier, the
    /// action's progress message is set and the call to make is handed out.
    /// Else nothing changes and nothing is handed out.
    fn begin(&mut self, action: Action, now_ms: u64) -> (request: Option<Request>)
        ensures
            final(self)@ == old(self)@.begun(action, now_ms),
            request.deep_view() == old(self)@.request(action),
    {
        match self.selected_id() {
            Some(id) => {
                self.set_status(action.progress(), now_ms);
                Some(Request { action, id })
            },
            None => None,
        }
    }

    /// Moves the cursor down one container, from the last to the first.
    /// With no containers nothing changes.
    pub fn next_container(&mut self)
        ensures
            final(self)@ == old(self)@.select_next(),
            old(self)@.containers.len() == 0 ==> final(self)@ == old(self)@,
    {
        proof {
            use_type_invariant(&*self);
        }
        let n = self.listing.containers.len();
        if let Some(i) = self.listing.selection {
            self.listing.selection = Some((i + 1) % n);
        }
    }

    /// Moves the cursor up one container, from the first to the last.
    /// With no containers nothing changes.
    pub fn previous_container(&mut self)
        ensures
            final(self)@ == old(self)@.select_previous(),
            old(self)@.containers.len() == 0 ==> final(self)@ == old(self)@,
    {
        proof {
            use_type_invariant(&*self);
        }
        let n = self.listing.containers.len();
        if let Some(i) = self.listing.selection {
            let previous = if i > 0 {
                i - 1
            } else {
                n - 1
            };
            self.listing.selection = Some(previous);
        }
    }

    /// Starts the container under the cursor. Where the cursor stands on a
    /// container with an identifier, "Starting container..." becomes the
    /// status message and the call to make is handed out; the outcome of
    /// the call goes to `action_returned`. Else nothing changes and nothing
    /// is handed out.
    pub fn start_selected(&mut self, now_ms: u64) -> (request: Option<Request>)
        ensures
            final(self)@ == old(self)@.begun(Action::Start, now_ms),
            request.deep_view() == old(self)@.request(Action::Start),
    {
        self.begin(Action::Start, now_ms)
    }

    /// Stops the container under the cursor. Where the cursor stands on a
    /// container with an identifier, "Stopping container..." becomes the
    /// status message and the call to make is handed out; the outcome of
    /// the call goes to `action_returned`. Else nothing changes and nothing
    /// is handed out.
    pub fn stop_selected(&mut self, now_ms: u64) -> (request: Option<Request>)
        ensures
            final(self)@ == old(self)@.begun(Action::Stop, now_ms),
            request.deep_view() == old(self)@.request(Action::Stop),
    {
        self.begin(Action::Stop, now_ms)
    }

    /// Restarts the container under the cursor. Where the cursor stands on a
    /// container with an identifier, "Restarting container..." becomes the
    /// status message and the call to make is handed out; the outcome of
    /// the call goes to `action_returned`. Else nothing changes and nothing
    /// is handed out.
    pub fn restart_selected(&mut self, now_ms: u64) -> (request: Option<Request>)
        ensures
            final(self)@ == old(self)@.begun(Action::Restart, now_ms),
            request.deep_view() == old(self)@.request(Action::Restart),
    {
        self.begin(Action::Restart, now_ms)
    }

    /// Asks for the container under the cursor to be deleted: enters the
    /// confirmation mode if the cursor stands on a container, and changes
    /// nothing if it does not.
    pub fn request_delete_confirm(&mut self)
        ensures
            final(self)@ == old(self)@.delete_requested(),
            old(self)@.selection is None ==> final(self)@ == old(self)@,
    {
        proof {
            use_type_invariant(&*self);
        }
        if self.listing.selection.is_some() {
            self.show_delete_confirm = true;
        }
    }

    /// Calls the pending delete off.
    pub fn cancel_delete(&mut self)
        ensures
            final(self)@ == old(self)@.delete_cancelled(),
    {
        proof {
            use_type_invariant(&*self);
        }
        self.show_delete_confirm = false;
    }

    /// Confirms the pending delete: leaves the confirmation mode, whatever
    /// follows, and begins the removal of the container under the cursor as
    /// `start_selected` begins a start.
    pub fn confirm_delete(&mut self, now_ms: u64) -> (request: Option<Request>)
        ensures
            final(self)@ == old(self)@.delete_confirmed(now_ms),
            request.deep_view() == old(self)@.request(Action::Remove),
            !final(self)@.show_delete_confirm,
    {
        self.cancel_delete();
        self.begin(Action::Remove, now_ms)
    }

    /// The second phase: takes in the outcome of the call to the runtime.
    /// After a call that succeeded a listing is due, and `true` is returned.
    /// A call that failed leaves its description as the status message.
    /// The confirmation mode and the containers are left alone either way.
    pub fn action_returned(
        &mut self,
        outcome: Result<(), RuntimeError>,
        now_ms: u64,
    ) -> (refresh: bool)
        ensures
            final(self)@ == old(self)@.returned(outcome_view(outcome), now_ms),
            refresh == outcome is Ok,
    {
        match outcome {
            Ok(_) => true,
            Err(error) => {
                self.report_error(&error, now_ms);
                false
            },
        }
    }

    /// The third phase: takes in the outcome of the listing that followed
    /// the call. The containers are replaced before the action's success
    /// message is set. A listing that failed leaves its description as the
    /// status message.
    pub fn action_refreshed(
        &mut self,
        action: Action,
        listed: Result<Vec<ContainerRecord>, RuntimeError>,
        now_ms: u64,
    )
        ensures
            final(self)@ == old(self)@.completed(action, listing_view(listed), now_ms),
    {
        match self.refresh_containers(listed) {
            Ok(_) => self.set_status(action.done(), now_ms),
            Err(error) => self.report_error(&error, now_ms),
        }
    }

    /// Shows the description of `error` as the status message.
    pub fn report_error(&mut self, error: &RuntimeError, now_ms: u64)
        ensures
            final(self)@ == old(self)@.with_status(error@, now_ms),
    {
        self.set_status(error.description.as_str(), now_ms);
    }

    /// Clears the status message if it has stood for more than
    /// `STATUS_TTL_MS` at `now_ms`.
    pub fn clear_status(&mut self, now_ms: u64)
        ensures
            final(self)@ == old(self)@.status_cleared(now_ms),
    {
        proof {
            use_type_invariant(&*self);
        }
        let expired = match &self.status {
            Some(status) => now_ms >= status.set_at_ms && now_ms - status.set_at_ms > STATUS_TTL_MS,
            None => false,
        };
        if expired {
            self.status = None;
        }
    }

    /// Asks for the dashboard to quit.
    pub fn quit(&mut self)
        ensures
            final(self)@ == old(self)@.quit_requested(),
    {
        proof {
            use_type_invariant(&*self);
        }
        self.should_quit = true;
    }
}

} // verus!
