use vero_core_contracts::contract::VeroContract;

const ADMIN: u64 = 1;
const TOKEN: u64 = 2;
const STRANGER: u64 = 99;
const CONTRACT: u64 = 1000;

#[test]
fn test_registry_starts_clean() {
    let client = VeroContract::new(CONTRACT);

    assert!(client.get_task(1u64).is_none());
    assert!(client.get_reward_stream(1u64).is_none());
    assert_eq!(client.get_weight_threshold(), 300);

    assert_eq!(client.calculate_voting_power(STRANGER), None);
    assert_eq!(client.get_reputation(STRANGER), None);
}

#[test]
fn test_reinitialize_reverts() {
    let mut client = VeroContract::new(CONTRACT);

    client.initialize(ADMIN, TOKEN, 100i128).unwrap();

    let result = client.initialize(ADMIN, TOKEN, 100i128);
    assert!(result.is_err(), "second initialize() must revert");
}

#[test]
fn test_admin_stored_on_initialize() {
    let mut client = VeroContract::new(CONTRACT);

    client.initialize(ADMIN, TOKEN, 100i128).unwrap();

    assert_eq!(client.get_admin(), Some(ADMIN));
}
