use vstd::prelude::*;

use core::time::Duration;

use crate::reconcile::{Reconciler, ReconcilerView, StageView};

verus! {

/// The service that reports the caller's public address as plain text.
pub const GET_IP_ENDPOINT: &'static str = "https://status-api.dokku-ray.app/ip?format=text";

/// The firewall resources of the cloud API; a firewall's identifier follows.
pub const FIREWALLS_ENDPOINT: &'static str = "https://api.digitalocean.com/v2/firewalls/";

/// The header that carries the bearer token.
pub const HEADER_AUTH: &'static str = "Authorization";

/// The settings of one run: where to observe the address, which firewall and
/// port to keep up to date, with which token, how often, and whether to stop
/// after one tick.
pub struct Updater {
    pub get_ip: String,
    pub firewall_endpoint: String,
    pub token: String,
    pub freq: Duration,
    pub port: usize,
    pub once: bool,
}

impl Updater {
    /// The settings for keeping firewall `id` up to date on `port`, checking every
    /// `freq`, authorised by the bearer `token`.
    pub fn new(id: String, token: String, freq: Duration, port: usize, once: bool) -> (r: Updater)
        ensures
            r.get_ip@ == GET_IP_ENDPOINT@,
            r.firewall_endpoint@ == FIREWALLS_ENDPOINT@ + id@,
            r.token@ == token@,
            r.freq == freq,
            r.port == port,
            r.once == once,
    {
        Updater {
            get_ip: String::from_str(GET_IP_ENDPOINT),
            firewall_endpoint: String::from_str(FIREWALLS_ENDPOINT).concat(id.as_str()),
            token,
            freq,
            port,
            once,
        }
    }

    /// Where additions and deletions of rules are sent.
    pub fn rules_endpoint(&self) -> (r: String)
        ensures
            r@ == self.firewall_endpoint@ + "/rules"@,
    {
        self.firewall_endpoint.clone().concat("/rules")
    }

    /// The value of the authorization header.
    pub fn authorization(&self) -> (r: String)
        ensures
            r@ == "Bearer "@ + self.token@,
    {
        String::from_str("Bearer ").concat(self.token.as_str())
    }

    /// A fresh reconciliation loop for this run's port and mode.
    pub fn reconciler(&self) -> (r: Reconciler)
        ensures
            r@ == (ReconcilerView {
                last_applied: None,
                stage: StageView::Observing,
                port: self.port as nat,
                once: self.once,
            }),
    {
        Reconciler::new(self.port, self.once)
    }
}

} // verus!
