use extauthz_cfzt::health::HealthState;
use extauthz_cfzt::schema::{StaticTeamValidatorConfiguration, ValidatorConfiguration};
use extauthz_cfzt::sync::{record_sync, start_up, SyncActions};

#[test]
fn readiness_follows_synchronization() {
    let mut state = HealthState::new();
    let a = record_sync(&mut state, false);
    assert_eq!(a, SyncActions { count_attempt: true, count_failure: true, report_ready: false });
    assert!(!state.is_validator_ready());
    let a = record_sync(&mut state, true);
    assert_eq!(a, SyncActions { count_attempt: true, count_failure: false, report_ready: true });
    assert!(state.is_validator_ready());
    // a later failure does not make it unready
    record_sync(&mut state, false);
    assert!(state.is_validator_ready());
}

#[test]
fn start_up_with_fetched_keys_waits_for_sync() {
    let config = ValidatorConfiguration::Team(StaticTeamValidatorConfiguration {
        team_name: "molten".to_string(),
        static_keys: None,
    });
    let mut state = HealthState::new();
    assert!(start_up(&mut state, &config));
    assert!(!state.is_validator_ready());
}
