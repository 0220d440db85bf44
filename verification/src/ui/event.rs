//! What the control loop decides: what a key means, what it does to the
//! state, what is then asked of the runtime, and when a listing is due.
//!
//! The loop itself, which reads keys, waits, draws and talks to the
//! runtime, is the caller's. It hands each key to `handle_key` and carries
//! out the `Command` that comes back.

use crate::docker::request::{Action, Request, RequestView};
use crate::ui::app::{elapsed, App, AppView};
use vstd::prelude::*;

verus! {

/// The time between two listings in the background, in milliseconds.
pub const REFRESH_INTERVAL_MS: u64 = 500;

/// How long one turn of the loop waits for a key, in milliseconds.
pub const POLL_TIMEOUT_MS: u64 = 16;

/// A key as the dashboard tells keys apart.
#[derive(Clone, Copy, Debug, PartialEq, Eq, Structural)]
pub enum Key {
    Char(char),
    Up,
    Down,
    Esc,
    /// Any other key.
    Other,
}

/// What a key asks for.
#[derive(Clone, Copy, Debug, PartialEq, Eq, Structural)]
pub enum Intent {
    Quit,
    Next,
    Previous,
    Start,
    Stop,
    Restart,
    RequestDelete,
    Refresh,
    ConfirmDelete,
    CancelDelete,
    /// The key has no meaning in the present mode.
    Ignore,
}

/// What the loop is to do once a key has been handled.
#[derive(Clone, Debug, PartialEq, Eq)]
pub enum Command {
    /// Nothing beyond the state.
    Nothing,
    /// Make this call, and hand its outcome to `App::action_returned`.
    Call(Request),
    /// List the containers, and hand the outcome to
    /// `App::refresh_containers`.
    Refresh,
}

/// The mathematical value of a `Command`.
pub enum CommandView {
    Nothing,
    Call(RequestView),
    Refresh,
}

impl View for Command {
    type V = CommandView;

    open spec fn view(&self) -> CommandView {
        match self {
            Command::Nothing => CommandView::Nothing,
            Command::Call(request) => CommandView::Call(request@),
            Command::Refresh => CommandView::Refresh,
        }
    }
}

/// What `key` asks for. While a delete waits for confirmation
/// (`confirming`), `y` and `Y` confirm it, `n`, `N` and escape call it off,
/// and every other key is ignored. Otherwise `q` quits, down and `j` move
/// the cursor down, up and `k` move it up, `s` starts, `x` stops and `r`
/// restarts the container under the cursor, `d` asks for its delete, and
/// `R` lists the containers anew.
pub open spec fn key_intent(confirming: bool, key: Key) -> Intent {
    if confirming {
        match key {
            Key::Char(c) => if c == 'y' || c == 'Y' {
                Intent::ConfirmDelete
            } else if c == 'n' || c == 'N' {
                Intent::CancelDelete
            } else {
                Intent::Ignore
            },
            Key::Esc => Intent::CancelDelete,
            _ => Intent::Ignore,
        }
    } else {
        match key {
            Key::Char(c) => if c == 'q' {
                Intent::Quit
            } else if c == 'j' {
                Intent::Next
            } else if c == 'k' {
                Intent::Previous
            } else if c == 's' {
                Intent::Start
            } else if c == 'x' {
                Intent::Stop
            } else if c == 'r' {
                Intent::Restart
            } else if c == 'd' {
                Intent::RequestDelete
            } else if c == 'R' {
                Intent::Refresh
            } else {
                Intent::Ignore
            },
            Key::Down => Intent::Next,
            Key::Up => Intent::Previous,
            _ => Intent::Ignore,
        }
    }
}

/// The state after `intent` has been followed at `now`.
pub open spec fn applied(v: AppView, intent: Intent, now: u64) -> AppView {
    match intent {
        Intent::Quit => v.quit_requested(),
        Intent::Next => v.select_next(),
        Intent::Previous => v.select_previous(),
        Intent::Start => v.begun(Action::Start, now),
        Intent::Stop => v.begun(Action::Stop, now),
        Intent::Restart => v.begun(Action::Restart, now),
        Intent::RequestDelete => v.delete_requested(),
        Intent::Refresh => v,
        Intent::ConfirmDelete => v.delete_confirmed(now),
        Intent::CancelDelete => v.delete_cancelled(),
        Intent::Ignore => v,
    }
}

/// The command for a call that may or may not be there to make.
pub open spec fn call_or_nothing(request: Option<RequestView>) -> CommandView {
    match request {
        Some(request) => CommandView::Call(request),
        None => CommandView::Nothing,
    }
}

/// What is left for the loop to do when `intent` is followed in the state
/// `v`.
pub open spec fn commanded(v: AppView, intent: Intent) -> CommandView {
    match intent {
        Intent::Start => call_or_nothing(v.request(Action::Start)),
        Intent::Stop => call_or_nothing(v.request(Action::Stop)),
        Intent::Restart => call_or_nothing(v.request(Action::Restart)),
        Intent::ConfirmDelete => call_or_nothing(v.request(Action::Remove)),
        Intent::Refresh => CommandView::Refresh,
        _ => CommandView::Nothing,
    }
}

/// Whether a listing is due at `now`, the last one having been made at
/// `last_refresh`.
pub open spec fn is_refresh_due(last_refresh: u64, now: u64) -> bool {
    elapsed(last_refresh, now) >= REFRESH_INTERVAL_MS
}

/// The time from which the interval to the next listing in the background
/// runs, once `command` has been carried out at `now`: a call to the
/// runtime and a listing start the interval anew, and a key that asked
/// nothing of the loop leaves it running.
pub open spec fn interval_start(last_refresh: u64, command: CommandView, now: u64) -> u64 {
    if command is Nothing {
        last_refresh
    } else {
        now
    }
}

/// What `key` asks for in the mode given by `confirming`.
pub fn read_key(confirming: bool, key: Key) -> (intent: Intent)
    ensures
        intent == key_intent(confirming, key),
{
    if confirming {
        match key {
            Key::Char(c) => if c == 'y' || c == 'Y' {
                Intent::ConfirmDelete
            } else if c == 'n' || c == 'N' {
                Intent::CancelDelete
            } else {
                Intent::Ignore
            },
            Key::Esc => Intent::CancelDelete,
            _ => Intent::Ignore,
        }
    } else {
        match key {
            Key::Char(c) => if c == 'q' {
                Intent::Quit
            } else if c == 'j' {
                Intent::Next
            } else if c == 'k' {
                Intent::Previous
            } else if c == 's' {
                Intent::Start
            } else if c == 'x' {
                Intent::Stop
            } else if c == 'r' {
                Intent::Restart
            } else if c == 'd' {
                Intent::RequestDelete
            } else if c == 'R' {
                Intent::Refresh
            } else {
                Intent::Ignore
            },
            Key::Down => Intent::Next,
            Key::Up => Intent::Previous,
            _ => Intent::Ignore,
        }
    }
}

/// The command for a call that may or may not be there to make.
fn to_command(request: Option<Request>) -> (command: Command)
    ensures
        command@ == call_or_nothing(request.deep_view()),
{
    match request {
        Some(request) => Command::Call(request),
        None => Command::Nothing,
    }
}

/// Follows `intent` at `now_ms`, and says what is left for the loop to do.
pub fn follow(app: &mut App, intent: Intent, now_ms: u64) -> (command: Command)
    ensures
        final(app)@ == applied(old(app)@, intent, now_ms),
        command@ == commanded(old(app)@, intent),
{
    match intent {
        Intent::Quit => {
            app.quit();
            Command::Nothing
        },
        Intent::Next => {
            app.next_container();
            Command::Nothing
        },
        Intent::Previous => {
            app.previous_container();
            Command::Nothing
        },
        Intent::Start => to_command(app.start_selected(now_ms)),
        Intent::Stop => to_command(app.stop_selected(now_ms)),
        Intent::Restart => to_command(app.restart_selected(now_ms)),
        Intent::RequestDelete => {
            app.request_delete_confirm();
            Command::Nothing
        },
        Intent::Refresh => Command::Refresh,
        Intent::ConfirmDelete => to_command(app.confirm_delete(now_ms)),
        Intent::CancelDelete => {
            app.cancel_delete();
            Command::Nothing
        },
        Intent::Ignore => Command::Nothing,
    }
}

/// Handles one key at `now_ms`: reads it in the present mode and follows
/// what it asks for.
pub fn handle_key(app: &mut App, key: Key, now_ms: u64) -> (command: Command)
    ensures
        final(app)@ == applied(
            old(app)@,
            key_intent(old(app)@.show_delete_confirm, key),
            now_ms,
        ),
        command@ == commanded(old(app)@, key_intent(old(app)@.show_delete_confirm, key)),
{
    let intent = read_key(app.show_delete_confirm(), key);
    follow(app, intent, now_ms)
}

/// Whether a listing is due at `now_ms`, the last one having been made at
/// `last_refresh_ms`.
pub fn refresh_due(last_refresh_ms: u64, now_ms: u64) -> (due: bool)
    ensures
        due == is_refresh_due(last_refresh_ms, now_ms),
{
    now_ms >= last_refresh_ms && now_ms - last_refresh_ms >= REFRESH_INTERVAL_MS
}

/// The pace of the listings in the background: the time from which the
/// interval to the next one runs.
pub struct RefreshTimer {
    last_refresh_ms: u64,
}

impl View for RefreshTimer {
    type V = u64;

    closed spec fn view(&self) -> u64 {
        self.last_refresh_ms
    }
}

impl RefreshTimer {
    /// A timer whose interval starts at `now_ms`.
    pub fn new(now_ms: u64) -> (timer: RefreshTimer)
        ensures
            timer@ == now_ms,
    {
        RefreshTimer { last_refresh_ms: now_ms }
    }

    /// Whether a listing in the background is due at `now_ms`.
    pub fn due(&self, now_ms: u64) -> (due: bool)
        ensures
            due == is_refresh_due(self@, now_ms),
    {
        refresh_due(self.last_refresh_ms, now_ms)
    }

    /// Takes note that `command` has been carried out at `now_ms`: see
    /// `interval_start`.
    pub fn carried_out(&mut self, command: &Command, now_ms: u64)
        ensures
            final(self)@ == interval_start(old(self)@, command@, now_ms),
    {
        match command {
            Command::Nothing => {},
            _ => {
                self.last_refresh_ms = now_ms;
            },
        }
    }

    /// Takes note that a listing in the background has been made at
    /// `now_ms`: the interval starts anew.
    pub fn listed(&mut self, now_ms: u64)
        ensures
            final(self)@ == now_ms,
    {
        self.last_refresh_ms = now_ms;
    }
}

} // verus!
