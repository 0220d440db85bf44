//! The calls that change a container, and how the runtime answers.

use crate::docker::container::{ContainerRecord, ContainerRecordView};
use vstd::prelude::*;

verus! {

/// Every listing asks for all containers, the stopped ones included.
pub const LIST_ALL: bool = true;

/// A call that changes one container.
#[derive(Clone, Copy, Debug, PartialEq, Eq, Structural)]
pub enum Action {
    Start,
    Stop,
    Restart,
    Remove,
}

impl Action {
    /// The status shown while the call is under way.
    pub open spec fn progress_text(self) -> Seq<char> {
        match self {
            Action::Start => "Starting container..."@,
            Action::Stop => "Stopping container..."@,
            Action::Restart => "Restarting container..."@,
            Action::Remove => "Removing container..."@,
        }
    }

    /// The status shown once the call and the listing after it have
    /// succeeded.
    pub open spec fn done_text(self) -> Seq<char> {
        match self {
            Action::Start => "Container started successfully"@,
            Action::Stop => "Container stopped successfully"@,
            Action::Restart => "Container restarted successfully"@,
            Action::Remove => "Container removed successfully"@,
        }
    }

    pub fn progress(self) -> (r: &'static str)
        ensures
            r@ == self.progress_text(),
    {
        match self {
            Action::Start => "Starting container...",
            Action::Stop => "Stopping container...",
            Action::Restart => "Restarting container...",
            Action::Remove => "Removing container...",
        }
    }

    pub fn done(self) -> (r: &'static str)
        ensures
            r@ == self.done_text(),
    {
        match self {
            Action::Start => "Container started successfully",
            Action::Stop => "Container stopped successfully",
            Action::Restart => "Container restarted successfully",
            Action::Remove => "Container removed successfully",
        }
    }
}

/// A call to be made to the runtime: `action` on the container `id`.
#[derive(Clone, Debug, PartialEq, Eq)]
pub struct Request {
    pub action: Action,
    pub id: String,
}

/// The mathematical value of a `Request`.
pub struct RequestView {
    pub action: Action,
    pub id: Seq<char>,
}

impl View for Request {
    type V = RequestView;

    open spec fn view(&self) -> RequestView {
        RequestView { action: self.action, id: self.id@ }
    }
}

impl DeepView for Request {
    type V = RequestView;

    open spec fn deep_view(&self) -> RequestView {
        self.view()
    }
}

/// A call to the runtime failed. `description` is what the runtime said.
#[derive(Clone, Debug, PartialEq, Eq)]
pub struct RuntimeError {
    pub description: String,
}

impl View for RuntimeError {
    type V = Seq<char>;

    open spec fn view(&self) -> Seq<char> {
        self.description@
    }
}

impl DeepView for RuntimeError {
    type V = Seq<char>;

    open spec fn deep_view(&self) -> Seq<char> {
        self.view()
    }
}

/// The mathematical value of the outcome of a call that changes a
/// container.
pub open spec fn outcome_view(outcome: Result<(), RuntimeError>) -> Result<(), Seq<char>> {
    match outcome {
        Ok(_) => Ok(()),
        Err(error) => Err(error@),
    }
}

/// The mathematical value of the outcome of a listing.
pub open spec fn listing_view(listed: Result<Vec<ContainerRecord>, RuntimeError>) -> Result<
    Seq<ContainerRecordView>,
    Seq<char>,
> {
    match listed {
        Ok(containers) => Ok(containers.deep_view()),
        Err(error) => Err(error@),
    }
}

} // verus!
