//! The background service's lifecycle: `Stopped --start--> Running`,
//! `Running --stop--> Stopped`, and notification content that an update
//! replaces field by field.
use vstd::prelude::*;
use crate::models::NotificationUpdate;

verus! {

pub open spec fn opt_view(o: Option<String>) -> Option<Seq<char>> {
    match o {
        Some(s) => Some(s@),
        None => None,
    }
}

/// The new value of one notification field: the update's value where it
/// has one, else the old value.
pub open spec fn merged(old_value: Option<Seq<char>>, new_value: Option<Seq<char>>) -> Option<
    Seq<char>,
> {
    match new_value {
        Some(v) => Some(v),
        None => old_value,
    }
}

/// The service as a value: whether it runs, and its notification content.
pub struct ServiceView {
    pub running: bool,
    pub title: Option<Seq<char>>,
    pub message: Option<Seq<char>>,
}

/// The state of the service that the platform confirmed.
#[derive(Debug)]
pub struct ServiceState {
    pub running: bool,
    pub title: Option<String>,
    pub message: Option<String>,
}

impl View for ServiceState {
    type V = ServiceView;

    open spec fn view(&self) -> ServiceView {
        ServiceView { running: self.running, title: opt_view(self.title), message: opt_view(self.message) }
    }
}

impl ServiceState {
    /// A stopped service with no notification content.
    pub fn new() -> (r: ServiceState)
        ensures
            r@ == (ServiceView { running: false, title: None, message: None }),
    {
        ServiceState { running: false, title: None, message: None }
    }

    pub fn start(&mut self)
        ensures
            final(self)@ == (ServiceView { running: true, ..old(self)@ }),
    {
        self.running = true;
    }

    pub fn stop(&mut self)
        ensures
            final(self)@ == (ServiceView { running: false, ..old(self)@ }),
    {
        self.running = false;
    }

    /// Replaces each notification field that `update` gives.
    pub fn apply(&mut self, update: NotificationUpdate)
        ensures
            final(self)@ == (ServiceView {
                running: old(self)@.running,
                title: merged(old(self)@.title, opt_view(update.title)),
                message: merged(old(self)@.message, opt_view(update.message)),
            }),
    {
        let NotificationUpdate { title, message } = update;
        if let Some(t) = title {
            self.title = Some(t);
        }
        if let Some(m) = message {
            self.message = Some(m);
        }
    }
}

} // verus!
