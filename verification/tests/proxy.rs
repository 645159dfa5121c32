//! The control plane: configuration, tracked connections, requests and sessions.

use rand::rngs::SmallRng;
use rand::{RngCore, SeedableRng};
use std::collections::HashSet;
use std::time::Duration;
use tokio::sync::oneshot;
use trixter::proxy::api;
use trixter::proxy::config::{Config, ConfigError};
use trixter::proxy::connections::{ApiError, ApiState, ConnectionStatus};
use trixter::proxy::session::{
    close_connection, initial_knobs, open_connection, register, unused_id, ProxyOutcome,
    TimeoutError,
};

fn config() -> Config {
    Config {
        delay_ms: 25,
        throttle_rate_bytes: 1024,
        slice_size_bytes: 16,
        terminate_probability_rate: 0.25f64.to_bits(),
        corrupt_probability_rate: 0.5f64.to_bits(),
        connection_duration_ms: 0,
        random_seed: None,
    }
}

fn track(state: &mut ApiState, id: &str) -> oneshot::Receiver<String> {
    let (tx, rx) = oneshot::channel();
    register(
        state,
        &config(),
        id.to_string(),
        "10.0.0.1:1000".to_string(),
        "10.0.0.2:2000".to_string(),
        tx,
    )
    .expect("valid probabilities");
    rx
}

fn status_of(state: &ApiState, id: &str) -> ConnectionStatus {
    api::list_connections(state)
        .unwrap()
        .into_iter()
        .find(|status| status.conn_info.id == id)
        .expect("tracked")
}

#[test]
fn config_with_good_probabilities_is_valid() {
    assert_eq!(config().validate(), Ok(()));
}

#[test]
fn config_reports_the_first_bad_probability() {
    let mut cfg = config();
    cfg.corrupt_probability_rate = 1.5f64.to_bits();
    let error = cfg.validate().unwrap_err();
    assert_eq!(error, ConfigError::CorruptProbability(1.5f64.to_bits()));
    assert_eq!(error.flag(), "--corrupt-probability-rate");
    assert_eq!(error.requirement(), "must be between 0.0 and 1.0");
    assert_eq!(f64::from_bits(error.value()), 1.5);

    cfg.terminate_probability_rate = (-0.1f64).to_bits();
    let error = cfg.validate().unwrap_err();
    assert_eq!(error, ConfigError::TerminateProbability((-0.1f64).to_bits()));
    assert_eq!(error.flag(), "--terminate-probability-rate");
    assert_eq!(f64::from_bits(error.value()), -0.1);
}

#[test]
fn seed_is_drawn_only_if_none_is_set() {
    let mut cfg = config();
    assert!(cfg.base_rng().is_none());
    let seed = cfg.ensure_seed();
    assert_eq!(cfg.random_seed, Some(seed));
    assert_eq!(cfg.ensure_seed(), seed);

    let mut cfg = config();
    assert_eq!(cfg.seed_with(7), 7);
    assert_eq!(cfg.seed_with(8), 7);
    assert_eq!(cfg.random_seed, Some(7));
}

#[test]
fn drawn_seeds_differ() {
    let seeds: HashSet<u64> = (0..16).map(|_| config().ensure_seed()).collect();
    assert!(seeds.len() > 1);
}

#[test]
fn seed_fixes_the_generator() {
    let mut cfg = config();
    cfg.seed_with(42);
    let first: Vec<u64> = {
        let mut rng = cfg.base_rng().unwrap();
        (0..4).map(|_| rng.next_u64()).collect()
    };
    assert_eq!(cfg.base_rng(), Some(SmallRng::seed_from_u64(42)));
    let mut again = cfg.base_rng().unwrap();
    let second: Vec<u64> = (0..4).map(|_| again.next_u64()).collect();
    assert_eq!(first, second);

    cfg.random_seed = Some(43);
    assert_ne!(cfg.base_rng().unwrap().next_u64(), first[0]);
}

#[test]
fn injectors_get_generators_of_their_own() {
    let mut cfg = config();
    assert!(cfg.injector_rngs().is_none());
    cfg.seed_with(42);
    let rngs = cfg.injector_rngs().unwrap();
    let mut base = SmallRng::seed_from_u64(42);
    assert_eq!(rngs.downstream_termination, SmallRng::from_rng(&mut base));
    assert_eq!(rngs.downstream_corruption, SmallRng::from_rng(&mut base));
    assert_eq!(rngs.upstream_termination, SmallRng::from_rng(&mut base));
    assert_eq!(rngs.upstream_corruption, SmallRng::from_rng(&mut base));
    assert_ne!(rngs.downstream_termination, rngs.upstream_termination);
}

#[test]
fn drawn_identifier_in_use_is_lengthened() {
    let mut state = ApiState::new();
    assert_eq!(unused_id(&state, "a".to_string()), "a");
    let _first = track(&mut state, "a");
    assert!(state.is_tracked("a"));
    assert!(!state.is_tracked("a_"));
    assert_eq!(unused_id(&state, "a".to_string()), "a_");
    let _second = track(&mut state, "a_");
    let _third = track(&mut state, "a___");
    assert_eq!(unused_id(&state, "a".to_string()), "a__");
    assert_eq!(unused_id(&state, "b".to_string()), "b");
}

#[test]
fn timeout_is_off_at_zero() {
    let mut cfg = config();
    assert_eq!(cfg.timeout(), None);
    cfg.connection_duration_ms = 1500;
    assert_eq!(cfg.timeout(), Some(Duration::from_millis(1500)));
}

#[test]
fn listing_shows_every_connection_with_its_settings() {
    let mut state = ApiState::default();
    assert!(api::list_connections(&state).unwrap().is_empty());
    let _a = track(&mut state, "a");
    let _b = track(&mut state, "b");
    let mut ids: Vec<String> = state.all().into_iter().map(|s| s.conn_info.id).collect();
    ids.sort();
    assert_eq!(ids, ["a", "b"]);

    let status = status_of(&state, "a");
    assert_eq!(status.conn_info.downstream, "10.0.0.1:1000");
    assert_eq!(status.conn_info.upstream, "10.0.0.2:2000");
    assert_eq!(status.delay, Duration::from_millis(25));
    assert_eq!(status.throttle_rate, 1024);
    assert_eq!(status.slice_size, 16);
    assert_eq!(f64::from_bits(status.terminate_probability_rate), 0.25);
    assert_eq!(f64::from_bits(status.corrupt_probability_rate), 0.5);
}

#[test]
fn settings_are_changed_one_connection_at_a_time() {
    let mut state = ApiState::new();
    let _a = track(&mut state, "a");
    let _b = track(&mut state, "b");

    let req = api::DelayReq { delay_ms: 100 };
    assert_eq!(api::set_delay(&state, "a", req), Ok(202));
    let req = api::ThrottleReq { rate_bytes: 7 };
    assert_eq!(api::set_throttle(&state, "a", req), Ok(202));
    let req = api::SliceReq { size_bytes: 3 };
    assert_eq!(api::set_slice(&state, "a", req), Ok(202));
    let req = api::TerminationReq {
        probability_rate: 1.0f64.to_bits(),
    };
    assert_eq!(api::set_termination(&state, "a", req), Ok(202));
    let req = api::CorruptionReq {
        probability_rate: 0.0f64.to_bits(),
    };
    assert_eq!(api::set_corruption(&state, "a", req), Ok(202));

    let status = status_of(&state, "a");
    assert_eq!(status.delay, Duration::from_millis(100));
    assert_eq!(status.throttle_rate, 7);
    assert_eq!(status.slice_size, 3);
    assert_eq!(f64::from_bits(status.terminate_probability_rate), 1.0);
    assert_eq!(f64::from_bits(status.corrupt_probability_rate), 0.0);

    let untouched = status_of(&state, "b");
    assert_eq!(untouched.delay, Duration::from_millis(25));
    assert_eq!(untouched.throttle_rate, 1024);
    assert_eq!(untouched.slice_size, 16);
}

#[test]
fn unknown_connection_is_not_found() {
    let mut state = ApiState::new();
    let _a = track(&mut state, "a");
    let req = api::DelayReq { delay_ms: 1 };
    assert_eq!(api::set_delay(&state, "x", req), Err(ApiError::NotFound));
    let req = api::ThrottleReq { rate_bytes: 1 };
    assert_eq!(api::set_throttle(&state, "x", req), Err(ApiError::NotFound));
    let req = api::SliceReq { size_bytes: 1 };
    assert_eq!(api::set_slice(&state, "x", req), Err(ApiError::NotFound));
    let req = api::TerminationReq {
        probability_rate: 2.0f64.to_bits(),
    };
    assert_eq!(api::set_termination(&state, "x", req), Err(ApiError::NotFound));
    let req = api::CorruptionReq {
        probability_rate: 0.5f64.to_bits(),
    };
    assert_eq!(api::set_corruption(&state, "x", req), Err(ApiError::NotFound));
    let req = api::ShutdownReq {
        reason: "test".to_string(),
    };
    assert_eq!(
        api::shutdown_connection(&mut state, "x", req),
        Err(ApiError::NotFound)
    );
    assert_eq!(state.all().len(), 1);
}

#[test]
fn bad_probability_is_refused_and_changes_nothing() {
    let mut state = ApiState::new();
    let _a = track(&mut state, "a");
    for bad in [-0.1, 1.1, f64::NAN, f64::INFINITY] {
        let req = api::TerminationReq {
            probability_rate: bad.to_bits(),
        };
        assert_eq!(
            api::set_termination(&state, "a", req),
            Err(ApiError::BadProbability)
        );
        let req = api::CorruptionReq {
            probability_rate: bad.to_bits(),
        };
        assert_eq!(
            api::set_corruption(&state, "a", req),
            Err(ApiError::BadProbability)
        );
    }
    let status = status_of(&state, "a");
    assert_eq!(f64::from_bits(status.terminate_probability_rate), 0.25);
    assert_eq!(f64::from_bits(status.corrupt_probability_rate), 0.5);
}

#[test]
fn shutdown_tells_the_connection_why() {
    let mut state = ApiState::new();
    let mut rx = track(&mut state, "a");
    let _b = track(&mut state, "b");
    let req = api::ShutdownReq {
        reason: "maintenance".to_string(),
    };
    assert_eq!(api::shutdown_connection(&mut state, "a", req), Ok(202));
    assert_eq!(rx.try_recv(), Ok("maintenance".to_string()));
    assert_eq!(state.all().len(), 1);

    let req = api::ShutdownReq {
        reason: "again".to_string(),
    };
    assert_eq!(
        api::shutdown_connection(&mut state, "a", req),
        Err(ApiError::NotFound)
    );
}

#[test]
fn shutdown_of_a_connection_that_hung_up_is_an_internal_error() {
    let mut state = ApiState::new();
    drop(track(&mut state, "a"));
    let req = api::ShutdownReq {
        reason: "late".to_string(),
    };
    assert_eq!(
        api::shutdown_connection(&mut state, "a", req),
        Err(ApiError::Internal)
    );
    assert!(state.all().is_empty(), "removed all the same");
}

#[test]
fn full_shutdown_tells_every_connection() {
    let mut state = ApiState::new();
    let mut receivers: Vec<oneshot::Receiver<String>> = (0..20)
        .map(|i| track(&mut state, &format!("conn-{i}")))
        .collect();
    let req = api::ShutdownReq {
        reason: "bye".to_string(),
    };
    assert_eq!(api::shutdown_all_connections(&mut state, req), Ok(202));
    for rx in &mut receivers {
        assert_eq!(rx.try_recv(), Ok("bye".to_string()));
    }
    assert!(state.all().is_empty());
}

#[test]
fn full_shutdown_goes_on_past_a_failure() {
    let mut state = ApiState::new();
    let mut first = track(&mut state, "a");
    drop(track(&mut state, "b"));
    let mut last = track(&mut state, "c");
    let req = api::ShutdownReq {
        reason: "bye".to_string(),
    };
    assert_eq!(
        api::shutdown_all_connections(&mut state, req),
        Err(ApiError::Internal)
    );
    assert_eq!(first.try_recv(), Ok("bye".to_string()));
    assert_eq!(last.try_recv(), Ok("bye".to_string()));
    assert!(state.all().is_empty());
}

#[test]
fn full_shutdown_of_nothing_is_accepted() {
    let mut state = ApiState::new();
    let req = api::ShutdownReq {
        reason: "bye".to_string(),
    };
    assert_eq!(api::shutdown_all_connections(&mut state, req), Ok(202));
}

#[test]
fn shutdown_is_answered_by_what_was_sent() {
    assert_eq!(api::shutdown_answer(&[]), Ok(202));
    assert_eq!(api::shutdown_answer(&[true, true]), Ok(202));
    assert_eq!(
        api::shutdown_answer(&[true, false, true]),
        Err(ApiError::Internal)
    );
}

#[test]
fn errors_have_a_status_and_a_text() {
    assert_eq!(ApiError::NotFound.status(), 404);
    assert_eq!(ApiError::BadProbability.status(), 400);
    assert_eq!(ApiError::Internal.status(), 500);
    assert_eq!(ApiError::NotFound.message(), "connection not found");
    assert_eq!(
        ApiError::BadProbability.message(),
        "invalid probability; must be between 0.0 and 1.0"
    );
    assert_eq!(ApiError::Internal.message(), "internal error");
    assert_eq!(TimeoutError.message(), "TimeoutError");
}

#[test]
fn opened_connections_have_identifiers_of_their_own() {
    let mut state = ApiState::new();
    let mut ids = HashSet::new();
    let mut receivers = Vec::new();
    for _ in 0..50 {
        let (tx, rx) = oneshot::channel();
        receivers.push(rx);
        let knobs = open_connection(
            &mut state,
            &config(),
            "10.0.0.1:1000".to_string(),
            "10.0.0.2:2000".to_string(),
            tx,
        )
        .expect("valid probabilities");
        let id = knobs.conn_info.id.clone();
        assert_eq!(id.len(), 21);
        assert!(id
            .chars()
            .all(|c| c.is_ascii_alphanumeric() || c == '_' || c == '-'));
        ids.insert(id);
    }
    assert_eq!(ids.len(), 50);
    assert_eq!(state.all().len(), 50);
}

#[test]
fn connection_with_a_bad_probability_is_not_tracked() {
    let mut state = ApiState::new();
    let mut cfg = config();
    cfg.terminate_probability_rate = 2.0f64.to_bits();
    let (tx, _rx) = oneshot::channel();
    let opened = open_connection(&mut state, &cfg, "a".to_string(), "b".to_string(), tx);
    assert!(opened.is_none());
    assert!(state.all().is_empty());

    let mut cfg = config();
    cfg.corrupt_probability_rate = f64::NAN.to_bits();
    let (_tx, _rx) = oneshot::channel::<String>();
    let info = trixter::proxy::connections::ConnectionInfo {
        id: "i".to_string(),
        downstream: "a".to_string(),
        upstream: "b".to_string(),
    };
    assert!(initial_knobs(&cfg, info).is_none());
}

#[test]
fn knobs_are_shared_with_the_table() {
    let mut state = ApiState::new();
    let (tx, _rx) = oneshot::channel();
    let knobs = open_connection(
        &mut state,
        &config(),
        "a".to_string(),
        "b".to_string(),
        tx,
    )
    .unwrap();
    knobs.throttle_rate.set(99);
    assert_eq!(status_of(&state, &knobs.conn_info.id).throttle_rate, 99);
}

#[test]
fn registering_again_replaces_the_connection() {
    let mut state = ApiState::new();
    let mut first = track(&mut state, "a");
    let mut second = track(&mut state, "a");
    assert_eq!(state.all().len(), 1);
    let req = api::ShutdownReq {
        reason: "bye".to_string(),
    };
    assert_eq!(api::shutdown_connection(&mut state, "a", req), Ok(202));
    assert!(first.try_recv().is_err());
    assert_eq!(second.try_recv(), Ok("bye".to_string()));
}

#[test]
fn closing_removes_the_connection_and_resets_on_chaos() {
    let mut state = ApiState::new();
    for (outcome, reset) in [
        (ProxyOutcome::Completed, false),
        (ProxyOutcome::Terminated, true),
        (ProxyOutcome::TimedOut, true),
        (ProxyOutcome::Failed, false),
    ] {
        let _other = track(&mut state, "other");
        let _rx = track(&mut state, "a");
        assert_eq!(close_connection(&mut state, "a", outcome), reset);
        assert_eq!(state.all().len(), 1);
        assert_eq!(close_connection(&mut state, "a", outcome), reset);
        assert_eq!(state.all().len(), 1);
    }
}

#[test]
fn removed_connection_is_handed_out() {
    let mut state = ApiState::new();
    let _a = track(&mut state, "a");
    let connection = state.remove_connection("a").expect("tracked");
    assert_eq!(connection.knobs.conn_info.id, "a");
    assert_eq!(connection.knobs.conn_info.clone().upstream, "10.0.0.2:2000");
    assert!(matches!(
        state.remove_connection("a"),
        Err(ApiError::NotFound)
    ));
    let _b = track(&mut state, "b");
    let _c = track(&mut state, "c");
    let mut ids: Vec<String> = state
        .remove_all()
        .into_iter()
        .map(|c| c.knobs.conn_info.id.clone())
        .collect();
    ids.sort();
    assert_eq!(ids, ["b", "c"]);
    assert!(state.all().is_empty());
}
