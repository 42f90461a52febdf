use vstd::prelude::*;

use crate::models::{port_rule, texts, FirewallRules, RuleView};

verus! {

/// How a reconciliation tick ended.
#[derive(Clone, Copy, Debug, PartialEq, Eq, Structural)]
pub enum Outcome {
    /// The observed address is the one last applied: nothing was sent.
    Unchanged,
    /// The firewall now allows the observed address.
    Applied,
    /// The public address could not be observed.
    ObserveFailed,
    /// The current rules could not be fetched.
    FetchFailed,
    /// The stale addresses could not be removed.
    RemoveFailed,
    /// The new address could not be added.
    AddFailed,
}

/// Where the loop stands; the address carried is the one observed in this tick.
pub enum Stage {
    Observing,
    Fetching(String),
    Removing(String),
    Adding(String),
    Resting(Outcome),
    Finished(Outcome),
}

/// What the driver must do next.
pub enum Action {
    /// Ask the discovery service for the public address.
    ObserveIp,
    /// Read the firewall's rules and list the addresses allowed on the port.
    FetchRules,
    /// Send this patch as a deletion request.
    RemoveAddresses(FirewallRules),
    /// Send this patch as an addition request.
    AddAddress(FirewallRules),
    /// The tick is over: wait for the interval, then report `Event::Woke`.
    Sleep(Outcome),
    /// The tick is over and the loop stops.
    Finish(Outcome),
}

/// What the driver reports after doing an action.
pub enum Event {
    Woke,
    Observed(String),
    ObserveFailed,
    Fetched(Vec<String>),
    FetchFailed,
    /// The deletion request was answered with this HTTP status.
    RemoveAnswered(u16),
    RemoveFailed,
    /// The addition request was answered with this HTTP status.
    AddAnswered(u16),
    AddFailed,
}

/// The state of the reconciliation loop: the last address that the firewall
/// confirmed, the stage of the current tick, and the loop's settings.
pub struct Reconciler {
    pub last_applied: Option<String>,
    pub stage: Stage,
    pub port: usize,
    pub once: bool,
}

pub enum StageView {
    Observing,
    Fetching(Seq<char>),
    Removing(Seq<char>),
    Adding(Seq<char>),
    Resting(Outcome),
    Finished(Outcome),
}

pub enum ActionView {
    ObserveIp,
    FetchRules,
    RemoveAddresses(Seq<RuleView>),
    AddAddress(Seq<RuleView>),
    Sleep(Outcome),
    Finish(Outcome),
}

pub enum EventView {
    Woke,
    Observed(Seq<char>),
    ObserveFailed,
    Fetched(Seq<Seq<char>>),
    FetchFailed,
    RemoveAnswered(u16),
    RemoveFailed,
    AddAnswered(u16),
    AddFailed,
}

pub struct ReconcilerView {
    pub last_applied: Option<Seq<char>>,
    pub stage: StageView,
    pub port: nat,
    pub once: bool,
}

impl View for Stage {
    type V = StageView;

    open spec fn view(&self) -> StageView {
        match self {
            Stage::Observing => StageView::Observing,
            Stage::Fetching(o) => StageView::Fetching(o@),
            Stage::Removing(o) => StageView::Removing(o@),
            Stage::Adding(o) => StageView::Adding(o@),
            Stage::Resting(out) => StageView::Resting(*out),
            Stage::Finished(out) => StageView::Finished(*out),
        }
    }
}

impl View for Action {
    type V = ActionView;

    open spec fn view(&self) -> ActionView {
        match self {
            Action::ObserveIp => ActionView::ObserveIp,
            Action::FetchRules => ActionView::FetchRules,
            Action::RemoveAddresses(doc) => ActionView::RemoveAddresses(doc@),
            Action::AddAddress(doc) => ActionView::AddAddress(doc@),
            Action::Sleep(out) => ActionView::Sleep(*out),
            Action::Finish(out) => ActionView::Finish(*out),
        }
    }
}

impl View for Event {
    type V = EventView;

    open spec fn view(&self) -> EventView {
        match self {
            Event::Woke => EventView::Woke,
            Event::Observed(o) => EventView::Observed(o@),
            Event::ObserveFailed => EventView::ObserveFailed,
            Event::Fetched(list) => EventView::Fetched(texts(list@)),
            Event::FetchFailed => EventView::FetchFailed,
            Event::RemoveAnswered(c) => EventView::RemoveAnswered(*c),
            Event::RemoveFailed => EventView::RemoveFailed,
            Event::AddAnswered(c) => EventView::AddAnswered(*c),
            Event::AddFailed => EventView::AddFailed,
        }
    }
}

impl View for Reconciler {
    type V = ReconcilerView;

    open spec fn view(&self) -> ReconcilerView {
        ReconcilerView {
            last_applied: match self.last_applied {
                Some(a) => Some(a@),
                None => None,
            },
            stage: self.stage@,
            port: self.port as nat,
            once: self.once,
        }
    }
}

/// An HTTP status in the success class, 200 to 299.
pub open spec fn spec_success(status: u16) -> bool {
    200 <= status < 300
}

/// Whether the service accepted a request, judged by its HTTP status.
pub fn is_success(status: u16) -> (r: bool)
    ensures
        r == spec_success(status),
{
    200 <= status && status < 300
}

/// Whether `e` answers the action that a loop in state `s` is waiting on.
pub open spec fn accepts(s: ReconcilerView, e: EventView) -> bool {
    match s.stage {
        StageView::Observing => e is Observed || e is ObserveFailed,
        StageView::Fetching(_) => e is Fetched || e is FetchFailed,
        StageView::Removing(_) => e is RemoveAnswered || e is RemoveFailed,
        StageView::Adding(_) => e is AddAnswered || e is AddFailed,
        StageView::Resting(_) => e is Woke,
        StageView::Finished(_) => false,
    }
}

/// The end of a tick: rest until the next one, or stop in single-run mode.
pub open spec fn end_tick(s: ReconcilerView, out: Outcome) -> (ReconcilerView, ActionView) {
    if s.once {
        (ReconcilerView { stage: StageView::Finished(out), ..s }, ActionView::Finish(out))
    } else {
        (ReconcilerView { stage: StageView::Resting(out), ..s }, ActionView::Sleep(out))
    }
}

/// The addition request for `o`, entered once the stale addresses are gone.
pub open spec fn begin_add(s: ReconcilerView, o: Seq<char>) -> (ReconcilerView, ActionView) {
    (
        ReconcilerView { stage: StageView::Adding(o), ..s },
        ActionView::AddAddress(seq![port_rule(seq![o], s.port)]),
    )
}

/// One transition of the loop: the next state and the next action.
pub open spec fn next(s: ReconcilerView, e: EventView) -> (ReconcilerView, ActionView) {
    match s.stage {
        StageView::Observing => match e {
            EventView::Observed(o) => if s.last_applied == Some(o) {
                end_tick(s, Outcome::Unchanged)
            } else {
                (ReconcilerView { stage: StageView::Fetching(o), ..s }, ActionView::FetchRules)
            },
            _ => end_tick(s, Outcome::ObserveFailed),
        },
        StageView::Fetching(o) => match e {
            EventView::Fetched(list) => if list.len() == 0 {
                begin_add(s, o)
            } else {
                (
                    ReconcilerView { stage: StageView::Removing(o), ..s },
                    ActionView::RemoveAddresses(seq![port_rule(list, s.port)]),
                )
            },
            _ => end_tick(s, Outcome::FetchFailed),
        },
        StageView::Removing(o) => match e {
            EventView::RemoveAnswered(c) if spec_success(c) => begin_add(s, o),
            _ => end_tick(s, Outcome::RemoveFailed),
        },
        StageView::Adding(o) => match e {
            EventView::AddAnswered(c) if spec_success(c) => end_tick(
                ReconcilerView { last_applied: Some(o), ..s },
                Outcome::Applied,
            ),
            _ => end_tick(s, Outcome::AddFailed),
        },
        StageView::Resting(_) => (ReconcilerView { stage: StageView::Observing, ..s }, ActionView::ObserveIp),
        StageView::Finished(out) => (s, ActionView::Finish(out)),
    }
}

impl Reconciler {
    /// A loop with no address applied yet, about to observe; its first action
    /// is `Action::ObserveIp`.
    pub fn new(port: usize, once: bool) -> (r: Reconciler)
        ensures
            r@ == (ReconcilerView { last_applied: None, stage: StageView::Observing, port: port as nat, once }),
    {
        Reconciler { last_applied: None, stage: Stage::Observing, port, once }
    }

    /// Whether `event` answers the action that the loop is waiting on.
    pub fn accepts(&self, event: &Event) -> (r: bool)
        ensures
            r == accepts(self@, event@),
    {
        match self.stage {
            Stage::Observing => matches!(event, Event::Observed(_) | Event::ObserveFailed),
            Stage::Fetching(_) => matches!(event, Event::Fetched(_) | Event::FetchFailed),
            Stage::Removing(_) => matches!(event, Event::RemoveAnswered(_) | Event::RemoveFailed),
            Stage::Adding(_) => matches!(event, Event::AddAnswered(_) | Event::AddFailed),
            Stage::Resting(_) => matches!(event, Event::Woke),
            Stage::Finished(_) => false,
        }
    }

    /// Whether the loop has stopped.
    pub fn is_finished(&self) -> (r: bool)
        ensures
            r == (self@.stage is Finished),
    {
        matches!(self.stage, Stage::Finished(_))
    }

    fn end_tick(&mut self, out: Outcome) -> (r: Action)
        ensures
            (final(self)@, r@) == end_tick(old(self)@, out),
    {
        if self.once {
            self.stage = Stage::Finished(out);
            Action::Finish(out)
        } else {
            self.stage = Stage::Resting(out);
            Action::Sleep(out)
        }
    }

    fn begin_add(&mut self, o: String) -> (r: Action)
        ensures
            (final(self)@, r@) == begin_add(old(self)@, o@),
    {
        let doc = FirewallRules::new(o.clone(), self.port);
        self.stage = Stage::Adding(o);
        Action::AddAddress(doc)
    }

    /// Takes the result of the last action and decides the next one. A tick
    /// observes the address; when it differs from the last applied one, it
    /// fetches the addresses allowed on the port, removes them (no request when
    /// there are none), and adds the observed one. Only a confirmed addition records the address, so a tick
    /// that fails at any step is retried whole on the next one.
    pub fn step(&mut self, event: Event) -> (r: Action)
        requires
            accepts(old(self)@, event@),
        ensures
            (final(self)@, r@) == next(old(self)@, event@),
    {
        match &self.stage {
            Stage::Observing => match event {
                Event::Observed(o) => {
                    let same = match &self.last_applied {
                        Some(a) => *a == o,
                        None => false,
                    };
                    if same {
                        self.end_tick(Outcome::Unchanged)
                    } else {
                        self.stage = Stage::Fetching(o);
                        Action::FetchRules
                    }
                },
                _ => self.end_tick(Outcome::ObserveFailed),
            },
            Stage::Fetching(o) => {
                let o = o.clone();
                match event {
                    Event::Fetched(list) => {
                        if list.len() == 0 {
                            self.begin_add(o)
                        } else {
                            let doc = FirewallRules::from_addresses(list, self.port);
                            self.stage = Stage::Removing(o);
                            Action::RemoveAddresses(doc)
                        }
                    },
                    _ => self.end_tick(Outcome::FetchFailed),
                }
            },
            Stage::Removing(o) => {
                let o = o.clone();
                match event {
                    Event::RemoveAnswered(c) if is_success(c) => self.begin_add(o),
                    _ => self.end_tick(Outcome::RemoveFailed),
                }
            },
            Stage::Adding(o) => {
                let o = o.clone();
                match event {
                    Event::AddAnswered(c) if is_success(c) => {
                        self.last_applied = Some(o);
                        self.end_tick(Outcome::Applied)
                    },
                    _ => self.end_tick(Outcome::AddFailed),
                }
            },
            Stage::Resting(_) => {
                self.stage = Stage::Observing;
                Action::ObserveIp
            },
            Stage::Finished(out) => Action::Finish(*out),
        }
    }
}

} // verus!
