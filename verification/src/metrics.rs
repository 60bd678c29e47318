//! The health-score metric: registration, periodic update and export.
//!
//! `Metrics` wires the pieces together. It registers the health gauge under
//! its stable, externally documented name, recomputes the score from a fresh
//! reading of the service's status on every update, and renders the whole
//! registry on every scrape. The registry is an explicitly constructed
//! value handed in by the caller, so independent registries can live side by
//! side.

use vstd::prelude::*;

use crate::export::contains_line;
use crate::export::lemma_export_round_trip;
use crate::export::render_metrics;
use crate::export::render_metrics_text;
use crate::export::sample_line_content;
use crate::registry::contains_name;
use crate::registry::GaugeHandle;
use crate::registry::GaugeView;
use crate::registry::MetricsError;
use crate::registry::Registry;
use crate::score::health_score;

verus! {

/// The stable name of the health gauge. The name is part of the external
/// contract with scrapers: renaming it is a breaking change.
pub fn health_gauge_name() -> (name: &'static str)
    ensures
        name@ == spec_health_gauge_name(),
{
    "ldk_health_score"
}

/// The name of the health gauge, as a specification value.
pub open spec fn spec_health_gauge_name() -> Seq<char> {
    "ldk_health_score"@
}

/// The fixed help text of the health gauge.
pub fn health_gauge_help() -> (help: &'static str)
    ensures
        help@ == spec_health_gauge_help(),
{
    "Current health score (0-100)"
}

/// The help text of the health gauge, as a specification value.
pub open spec fn spec_health_gauge_help() -> Seq<char> {
    "Current health score (0-100)"@
}

/// A fresh reading of the service collaborator's state: whether it is
/// running, how many peers it is connected to, and when its lightning
/// wallet last synced, if ever. Derived anew on each evaluation and
/// discarded afterwards.
pub struct ServiceStatus {
    pub is_running: bool,
    pub connected_peer_count: u64,
    pub latest_lightning_wallet_sync_timestamp: Option<u64>,
}

impl ServiceStatus {
    /// The health signals this reading stands for: running, connected to at
    /// least one peer, synced at least once.
    pub open spec fn spec_score(self) -> int {
        health_score(
            self.is_running,
            self.connected_peer_count > 0,
            self.latest_lightning_wallet_sync_timestamp is Some,
        )
    }
}

/// The metrics of the service: a handle to the health gauge inside the
/// registry it was registered in.
#[derive(Debug)]
pub struct Metrics {
    pub service_health_score: GaugeHandle,
}

impl Metrics {
    /// The handle points at a gauge of `registry` that carries the health
    /// gauge's name.
    pub open spec fn valid_for(self, registry: Registry) -> bool {
        self.service_health_score.index < registry@.len()
            && registry@[self.service_health_score.index as int].name
            == spec_health_gauge_name()
    }

    /// Registers the health gauge, at value 0 until the first update cycle
    /// runs.
    ///
    /// Succeeds exactly when the health gauge's name is still free.
    /// Registering it twice is a configuration error that must surface at
    /// startup: it is reported with the same error every time and the
    /// registry is left unchanged.
    pub fn new(registry: &mut Registry) -> (result: Result<Metrics, MetricsError>)
        ensures
            match result {
                Ok(metrics) => !contains_name(old(registry)@, spec_health_gauge_name())
                    && final(registry)@ == old(registry)@.push(
                    (GaugeView {
                        name: spec_health_gauge_name(),
                        help: spec_health_gauge_help(),
                        value: 0,
                    }),
                ) && metrics.service_health_score.index == old(registry)@.len()
                    && metrics.valid_for(*final(registry)),
                Err(err) => contains_name(old(registry)@, spec_health_gauge_name()) && err
                    == MetricsError::DuplicateRegistration && final(registry)@ == old(registry)@,
            },
    {
        match registry.register_gauge(health_gauge_name(), health_gauge_help()) {
            Ok(handle) => Ok(Metrics { service_health_score: handle }),
            Err(err) => Err(err),
        }
    }

    /// Whether this handle is usable against `registry`: it points at the
    /// health gauge. Callers outside the verified world can test this
    /// before updating.
    pub fn is_valid_for(&self, registry: &Registry) -> (valid: bool)
        ensures
            valid == self.valid_for(*registry),
    {
        if self.service_health_score.index >= registry.metric_count() {
            return false;
        }
        let gauge = registry.gauge_at(self.service_health_score.index);
        let name: String = health_gauge_name().to_owned();
        *gauge.name() == name
    }

    /// The health score computation.
    ///
    /// Severity weights: a service that is not running is a critical
    /// failure and scores 0 outright, before any subtraction logic runs.
    /// Otherwise the score starts from the maximum of 100 and loses 35 for
    /// having no peers (major) and 25 for an unsynced wallet (minor).
    pub fn compute_health_score(is_running: bool, has_peers: bool, is_wallet_synced: bool) -> (score:
        i64)
        ensures
            score as int == health_score(is_running, has_peers, is_wallet_synced),
    {
        if !is_running {
            return 0;
        }
        let mut score: i64 = 100;
        if !has_peers {
            score -= 35;
        }
        if !is_wallet_synced {
            score -= 25;
        }
        score
    }

    /// The health score of a fresh status reading: running or not, peer
    /// list non-empty or not, wallet synced at least once or not.
    pub fn calculate_ldk_server_health_score(&self, status: &ServiceStatus) -> (score: i64)
        ensures
            score as int == status.spec_score(),
    {
        Metrics::compute_health_score(
            status.is_running,
            status.connected_peer_count > 0,
            status.latest_lightning_wallet_sync_timestamp.is_some(),
        )
    }

    /// One update cycle: computes the score from the status reading and
    /// writes it into the health gauge. Every other gauge is untouched, so
    /// the cycle is idempotent for identical readings and safe to run on
    /// any schedule, back-to-back included.
    pub fn update_service_health_score(&self, registry: &mut Registry, status: &ServiceStatus)
        requires
            self.valid_for(*old(registry)),
        ensures
            final(registry)@ == old(registry)@.update(
                self.service_health_score.index as int,
                (GaugeView {
                    name: old(registry)@[self.service_health_score.index as int].name,
                    help: old(registry)@[self.service_health_score.index as int].help,
                    value: status.spec_score(),
                }),
            ),
            self.valid_for(*final(registry)),
    {
        let score = self.calculate_ldk_server_health_score(status);
        registry.set_gauge(&self.service_health_score, score);
    }

    /// Update cycles are idempotent per reading: the registry state one
    /// cycle leaves behind is exactly the state a second, back-to-back
    /// cycle with the same reading leaves behind, on any schedule.
    pub proof fn lemma_update_idempotent(self, gauges: Seq<GaugeView>, status: ServiceStatus)
        requires
            self.service_health_score.index < gauges.len(),
        ensures
            ({
                let index = self.service_health_score.index as int;
                let once = gauges.update(
                    index,
                    (GaugeView {
                        name: gauges[index].name,
                        help: gauges[index].help,
                        value: status.spec_score(),
                    }),
                );
                let twice = once.update(
                    index,
                    (GaugeView {
                        name: once[index].name,
                        help: once[index].help,
                        value: status.spec_score(),
                    }),
                );
                twice == once
            }),
    {
        let index = self.service_health_score.index as int;
        let once = gauges.update(
            index,
            GaugeView {
                name: gauges[index].name,
                help: gauges[index].help,
                value: status.spec_score(),
            },
        );
        let twice = once.update(
            index,
            GaugeView { name: once[index].name, help: once[index].help, value: status.spec_score() },
        );
        assert(twice =~= once);
    }

    /// What one update cycle makes visible to the next scrape: in the
    /// registry state that `update_service_health_score` leaves behind, the
    /// exposition text contains, as a whole line, the health gauge's name
    /// paired with exactly the score computed from that status reading —
    /// a scrape never sees a value nobody wrote.
    pub proof fn lemma_update_visible_in_export(self, gauges: Seq<GaugeView>, status: ServiceStatus)
        requires
            self.service_health_score.index < gauges.len(),
            gauges[self.service_health_score.index as int].name == spec_health_gauge_name(),
        ensures
            contains_line(
                render_metrics(
                    gauges.update(
                        self.service_health_score.index as int,
                        (GaugeView {
                            name: gauges[self.service_health_score.index as int].name,
                            help: gauges[self.service_health_score.index as int].help,
                            value: status.spec_score(),
                        }),
                    ),
                ),
                sample_line_content(spec_health_gauge_name(), status.spec_score()),
            ),
    {
        let index = self.service_health_score.index as int;
        let updated = gauges.update(
            index,
            GaugeView {
                name: gauges[index].name,
                help: gauges[index].help,
                value: status.spec_score(),
            },
        );
        lemma_export_round_trip(updated, index);
    }

    /// Serializes every registered metric — not only the health gauge —
    /// into the text exposition format. A pure read: the registry is not
    /// changed, and the render always succeeds; the error case is reserved
    /// for an encoding that cannot be produced, which the verified renderer
    /// rules out.
    pub fn gather_metrics(&self, registry: &Registry) -> (result: Result<String, MetricsError>)
        ensures
            match result {
                Ok(text) => text@ == render_metrics(registry@),
                Err(_) => false,
            },
    {
        Ok(render_metrics_text(registry))
    }
}

} // verus!
