//! One container as the runtime reports it, and the values shown for it.

use crate::text::{contains, occurs, same, trim_leading, truncate, truncated, without_leading};
use vstd::prelude::*;

verus! {

/// How many characters of an identifier are shown.
pub const SHORT_ID_LEN: usize = 12;

/// A snapshot of one container, taken by one listing. A field the runtime
/// left out is `None`; a container without names has an empty `names`.
#[derive(Clone, Debug, PartialEq, Eq)]
pub struct ContainerRecord {
    pub id: Option<String>,
    pub names: Vec<String>,
    pub image: Option<String>,
    pub state: Option<String>,
    pub status: Option<String>,
}

/// The mathematical value of a `ContainerRecord`.
pub struct ContainerRecordView {
    pub id: Option<Seq<char>>,
    pub names: Seq<Seq<char>>,
    pub image: Option<Seq<char>>,
    pub state: Option<Seq<char>>,
    pub status: Option<Seq<char>>,
}

impl View for ContainerRecord {
    type V = ContainerRecordView;

    open spec fn view(&self) -> ContainerRecordView {
        ContainerRecordView {
            id: self.id.deep_view(),
            names: self.names.deep_view(),
            image: self.image.deep_view(),
            state: self.state.deep_view(),
            status: self.status.deep_view(),
        }
    }
}

impl DeepView for ContainerRecord {
    type V = ContainerRecordView;

    open spec fn deep_view(&self) -> ContainerRecordView {
        self.view()
    }
}

/// What the status text of a running container says of its health check.
#[derive(Clone, Copy, Debug, PartialEq, Eq, Structural)]
pub enum Health {
    Healthy,
    Unhealthy,
    Starting,
    /// Not running, or the status text carries no known marker.
    Neutral,
}

/// The text shown where a field is missing.
pub open spec fn or_unknown(field: Option<Seq<char>>) -> Seq<char> {
    match field {
        Some(s) => s,
        None => "unknown"@,
    }
}

impl ContainerRecordView {
    /// The first name without its leading slashes, or "unknown".
    pub open spec fn display_name(self) -> Seq<char> {
        if self.names.len() > 0 {
            without_leading(self.names[0], '/')
        } else {
            "unknown"@
        }
    }

    /// The identifier cut to `SHORT_ID_LEN` characters.
    pub open spec fn short_id(self) -> Seq<char> {
        truncated(or_unknown(self.id), SHORT_ID_LEN as nat)
    }

    pub open spec fn state_text(self) -> Seq<char> {
        or_unknown(self.state)
    }

    pub open spec fn image_text(self) -> Seq<char> {
        or_unknown(self.image)
    }

    /// Whether the state is given and is "running".
    pub open spec fn is_running(self) -> bool {
        self.state == Some("running"@)
    }

    /// A container that is not running is neutral, and so is one whose
    /// state is missing. Of a running one the first marker found in the
    /// status text decides, in the order healthy, unhealthy, starting.
    pub open spec fn health(self) -> Health {
        if !self.is_running() {
            Health::Neutral
        } else {
            match self.status {
                None => Health::Neutral,
                Some(status) => if occurs(status, "(healthy)"@) {
                    Health::Healthy
                } else if occurs(status, "(unhealthy)"@) {
                    Health::Unhealthy
                } else if occurs(status, "(health: starting)"@) || occurs(status, "(starting)"@) {
                    Health::Starting
                } else {
                    Health::Neutral
                },
            }
        }
    }
}

/// The text of a field, or "unknown" where it is missing.
pub fn text_or_unknown(field: &Option<String>) -> (r: &str)
    ensures
        r@ == or_unknown(field.deep_view()),
{
    match field {
        Some(s) => s.as_str(),
        None => "unknown",
    }
}

impl ContainerRecord {
    /// The name shown for the container.
    pub fn display_name(&self) -> (r: &str)
        ensures
            r@ == self@.display_name(),
    {
        if self.names.len() > 0 {
            trim_leading(self.names[0].as_str(), '/')
        } else {
            "unknown"
        }
    }

    /// The identifier shown for the container.
    pub fn short_id(&self) -> (r: &str)
        ensures
            r@ == self@.short_id(),
    {
        truncate(text_or_unknown(&self.id), SHORT_ID_LEN)
    }

    /// The state shown for the container.
    pub fn state_text(&self) -> (r: &str)
        ensures
            r@ == self@.state_text(),
    {
        text_or_unknown(&self.state)
    }

    /// The image shown for the container.
    pub fn image_text(&self) -> (r: &str)
        ensures
            r@ == self@.image_text(),
    {
        text_or_unknown(&self.image)
    }

    /// Whether the container is running.
    pub fn is_running(&self) -> (r: bool)
        ensures
            r == self@.is_running(),
    {
        match &self.state {
            Some(state) => same(state.as_str(), "running"),
            None => false,
        }
    }

    /// Reads the health of the container off its state and status text.
    /// The runtime gives no structured health in a listing, so this goes by
    /// the markers it is known to embed in the status.
    pub fn health(&self) -> (h: Health)
        ensures
            h == self@.health(),
    {
        if !self.is_running() {
            return Health::Neutral;
        }
        match &self.status {
            None => Health::Neutral,
            Some(status) => {
                let s = status.as_str();
                if contains(s, "(healthy)") {
                    Health::Healthy
                } else if contains(s, "(unhealthy)") {
                    Health::Unhealthy
                } else if contains(s, "(health: starting)") || contains(s, "(starting)") {
                    Health::Starting
                } else {
                    Health::Neutral
                }
            },
        }
    }
}

} // verus!
