//! The health-score computation: a pure function from three boolean signals
//! to an integer score in the closed range `[0, 100]`.

use vstd::prelude::*;

verus! {

/// The health score of the service, computed from three signals.
///
/// A service that is not running scores 0 outright: the critical failure
/// dominates and no partial credit is given. Otherwise the score starts at
/// 100 and loses 35 points when the service has no peers (major severity:
/// up but isolated) and 25 points when its wallet is not yet synced (minor
/// severity: up and connected but stale).
pub open spec fn health_score(is_running: bool, has_peers: bool, is_wallet_synced: bool) -> int {
    if !is_running {
        0
    } else {
        100 - (if !has_peers {
            35int
        } else {
            0
        }) - (if !is_wallet_synced {
            25int
        } else {
            0
        })
    }
}

/// Exactly five scores are reachable, one per class of signal triple:
/// not running scores 0 whatever the other signals say, and a running
/// service scores 100, 75, 65 or 40 depending on which of the two
/// remaining signals hold.
pub proof fn lemma_health_score_values(is_running: bool, has_peers: bool, is_wallet_synced: bool)
    ensures
        0 <= health_score(is_running, has_peers, is_wallet_synced) <= 100,
        health_score(is_running, has_peers, is_wallet_synced) == 0
            || health_score(is_running, has_peers, is_wallet_synced) == 40
            || health_score(is_running, has_peers, is_wallet_synced) == 65
            || health_score(is_running, has_peers, is_wallet_synced) == 75
            || health_score(is_running, has_peers, is_wallet_synced) == 100,
        !is_running ==> health_score(is_running, has_peers, is_wallet_synced) == 0,
        is_running && has_peers && is_wallet_synced ==> health_score(
            is_running,
            has_peers,
            is_wallet_synced,
        ) == 100,
        is_running && !has_peers && is_wallet_synced ==> health_score(
            is_running,
            has_peers,
            is_wallet_synced,
        ) == 65,
        is_running && has_peers && !is_wallet_synced ==> health_score(
            is_running,
            has_peers,
            is_wallet_synced,
        ) == 75,
        is_running && !has_peers && !is_wallet_synced ==> health_score(
            is_running,
            has_peers,
            is_wallet_synced,
        ) == 40,
{
}

/// The score is a function of the signals alone: two evaluations on
/// identical inputs agree, however far apart they happen.
pub proof fn lemma_health_score_deterministic(
    is_running: bool,
    has_peers: bool,
    is_wallet_synced: bool,
    first: int,
    second: int,
)
    requires
        first == health_score(is_running, has_peers, is_wallet_synced),
        second == health_score(is_running, has_peers, is_wallet_synced),
    ensures
        first == second,
{
}

} // verus!
