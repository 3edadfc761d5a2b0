use vero_core_contracts::contract::VeroContract;
use vero_core_contracts::types::Effect;

fn setup() -> (u64, VeroContract) {
    let mut client = VeroContract::new(1000);
    let admin = 1u64;
    let token = 2u64;
    client.initialize(admin, token, 100).unwrap();
    (admin, client)
}

#[test]
fn test_upgrade_logic_successful() {
    let (admin, mut client) = setup();

    // Register a task so that some state is present.
    client.register_task(admin, 1u64).unwrap();
    assert!(client.get_task(1u64).is_some());

    let hash = [0u8; 32];
    let effects = client.upgrade_contract(admin, hash);
    assert_eq!(effects, vec![Effect::UpdateWasm { wasm_hash: hash }]);

    // State remains unaffected
    assert!(client.get_task(1u64).is_some());
}
