use scavngr::contract::{ContractError, Incentive, ScavengerContract};
use scavngr::types::{ParticipantRole, WasteType};

fn ok<T>(r: Result<T, ContractError>) -> T {
    match r {
        Ok(v) => v,
        Err(e) => panic!("{}", e.message()),
    }
}

fn register(client: &mut ScavengerContract, address: u64, role: ParticipantRole) {
    ok(client.register_participant(address, role, String::new(), 0, 0, 0));
}

fn create(
    client: &mut ScavengerContract,
    manufacturer: u64,
    waste_type: WasteType,
    reward: u128,
    max_waste_amount: u128,
) -> Incentive {
    ok(client.create_incentive(waste_type, reward, max_waste_amount, manufacturer, 0))
}

fn setup() -> (ScavengerContract, u64) {
    let mut client = ScavengerContract::new();
    let manufacturer: u64 = 7;
    register(&mut client, manufacturer, ParticipantRole::Manufacturer);
    (client, manufacturer)
}

#[test]
fn test_get_active_incentive_returns_highest_reward() {
    let (mut client, manufacturer) = setup();
    create(&mut client, manufacturer, WasteType::Plastic, 50, 10000);
    create(&mut client, manufacturer, WasteType::Plastic, 30, 5000);
    create(&mut client, manufacturer, WasteType::Plastic, 70, 15000);
    let result = client.get_active_incentive_for_manufacturer(manufacturer, WasteType::Plastic);
    assert!(result.is_some());
    let incentive = result.unwrap();
    assert_eq!(incentive.reward, 70);
    assert_eq!(incentive.waste_type, WasteType::Plastic);
    assert_eq!(incentive.rewarder, manufacturer);
    assert!(incentive.is_active);
}

#[test]
fn test_get_active_incentive_filters_by_waste_type() {
    let (mut client, manufacturer) = setup();
    create(&mut client, manufacturer, WasteType::Plastic, 50, 10000);
    create(&mut client, manufacturer, WasteType::Metal, 80, 12000);
    create(&mut client, manufacturer, WasteType::Plastic, 60, 8000);
    let result = client.get_active_incentive_for_manufacturer(manufacturer, WasteType::Plastic);
    assert!(result.is_some());
    let incentive = result.unwrap();
    assert_eq!(incentive.reward, 60);
    assert_eq!(incentive.waste_type, WasteType::Plastic);
}

#[test]
fn test_get_active_incentive_filters_by_manufacturer() {
    let mut client = ScavengerContract::new();
    let manufacturer1: u64 = 1;
    let manufacturer2: u64 = 2;
    register(&mut client, manufacturer1, ParticipantRole::Manufacturer);
    register(&mut client, manufacturer2, ParticipantRole::Manufacturer);
    create(&mut client, manufacturer1, WasteType::Paper, 40, 8000);
    create(&mut client, manufacturer2, WasteType::Paper, 90, 15000);
    create(&mut client, manufacturer1, WasteType::Paper, 50, 10000);
    let result = client.get_active_incentive_for_manufacturer(manufacturer1, WasteType::Paper);
    assert!(result.is_some());
    let incentive = result.unwrap();
    assert_eq!(incentive.reward, 50);
    assert_eq!(incentive.rewarder, manufacturer1);
}

#[test]
fn test_get_active_incentive_excludes_inactive() {
    let (mut client, manufacturer) = setup();
    let incentive1 = create(&mut client, manufacturer, WasteType::Metal, 80, 10000);
    create(&mut client, manufacturer, WasteType::Metal, 50, 8000);
    ok(client.deactivate_incentive(incentive1.id, manufacturer));
    let result = client.get_active_incentive_for_manufacturer(manufacturer, WasteType::Metal);
    assert!(result.is_some());
    let incentive = result.unwrap();
    assert_eq!(incentive.reward, 50);
    assert!(incentive.is_active);
}

#[test]
fn test_get_active_incentive_returns_none_when_no_incentives() {
    let (client, manufacturer) = setup();
    let result = client.get_active_incentive_for_manufacturer(manufacturer, WasteType::Glass);
    assert!(result.is_none());
}

#[test]
fn test_get_active_incentive_returns_none_when_all_inactive() {
    let (mut client, manufacturer) = setup();
    let incentive1 = create(&mut client, manufacturer, WasteType::PetPlastic, 50, 10000);
    let incentive2 = create(&mut client, manufacturer, WasteType::PetPlastic, 60, 12000);
    ok(client.deactivate_incentive(incentive1.id, manufacturer));
    ok(client.deactivate_incentive(incentive2.id, manufacturer));
    let result = client.get_active_incentive_for_manufacturer(manufacturer, WasteType::PetPlastic);
    assert!(result.is_none());
}

#[test]
fn test_get_active_incentive_returns_none_for_wrong_waste_type() {
    let (mut client, manufacturer) = setup();
    create(&mut client, manufacturer, WasteType::Plastic, 50, 10000);
    create(&mut client, manufacturer, WasteType::Plastic, 60, 12000);
    let result = client.get_active_incentive_for_manufacturer(manufacturer, WasteType::Metal);
    assert!(result.is_none());
}

#[test]
fn test_get_active_incentive_single_incentive() {
    let (mut client, manufacturer) = setup();
    let created = create(&mut client, manufacturer, WasteType::Glass, 45, 9000);
    let result = client.get_active_incentive_for_manufacturer(manufacturer, WasteType::Glass);
    assert!(result.is_some());
    let incentive = result.unwrap();
    assert_eq!(incentive.id, created.id);
    assert_eq!(incentive.reward, 45);
}

#[test]
fn test_get_active_incentive_with_equal_rewards() {
    let (mut client, manufacturer) = setup();
    let first = create(&mut client, manufacturer, WasteType::Paper, 50, 10000);
    create(&mut client, manufacturer, WasteType::Paper, 50, 8000);
    create(&mut client, manufacturer, WasteType::Paper, 50, 12000);
    let result = client.get_active_incentive_for_manufacturer(manufacturer, WasteType::Paper);
    assert!(result.is_some());
    let incentive = result.unwrap();
    assert_eq!(incentive.reward, 50);
    assert_eq!(incentive.waste_type, WasteType::Paper);
    // the earliest of equally rewarding incentives is the one kept
    assert_eq!(incentive.id, first.id);
}

#[test]
fn test_get_active_incentive_all_waste_types() {
    let (mut client, manufacturer) = setup();
    create(&mut client, manufacturer, WasteType::Paper, 30, 5000);
    create(&mut client, manufacturer, WasteType::PetPlastic, 50, 8000);
    create(&mut client, manufacturer, WasteType::Plastic, 40, 7000);
    create(&mut client, manufacturer, WasteType::Metal, 70, 12000);
    create(&mut client, manufacturer, WasteType::Glass, 35, 6000);
    let paper = client.get_active_incentive_for_manufacturer(manufacturer, WasteType::Paper);
    let pet = client.get_active_incentive_for_manufacturer(manufacturer, WasteType::PetPlastic);
    let plastic = client.get_active_incentive_for_manufacturer(manufacturer, WasteType::Plastic);
    let metal = client.get_active_incentive_for_manufacturer(manufacturer, WasteType::Metal);
    let glass = client.get_active_incentive_for_manufacturer(manufacturer, WasteType::Glass);
    assert_eq!(paper.unwrap().reward, 30);
    assert_eq!(pet.unwrap().reward, 50);
    assert_eq!(plastic.unwrap().reward, 40);
    assert_eq!(metal.unwrap().reward, 70);
    assert_eq!(glass.unwrap().reward, 35);
}

#[test]
fn test_get_active_incentive_returns_complete_data() {
    let (mut client, manufacturer) = setup();
    let created = create(&mut client, manufacturer, WasteType::Plastic, 55, 11000);
    let retrieved = client
        .get_active_incentive_for_manufacturer(manufacturer, WasteType::Plastic)
        .unwrap();
    assert_eq!(retrieved.id, created.id);
    assert_eq!(retrieved.rewarder, manufacturer);
    assert_eq!(retrieved.waste_type, WasteType::Plastic);
    assert_eq!(retrieved.reward, 55);
    assert_eq!(retrieved.max_waste_amount, 11000);
    assert_eq!(retrieved, created);
    assert!(retrieved.is_active);
}

#[test]
fn test_get_active_incentive_no_side_effects() {
    let (mut client, manufacturer) = setup();
    create(&mut client, manufacturer, WasteType::Metal, 50, 10000);
    create(&mut client, manufacturer, WasteType::Metal, 70, 12000);
    let result1 = client.get_active_incentive_for_manufacturer(manufacturer, WasteType::Metal);
    let result2 = client.get_active_incentive_for_manufacturer(manufacturer, WasteType::Metal);
    let result3 = client.get_active_incentive_for_manufacturer(manufacturer, WasteType::Metal);
    assert!(result1.is_some());
    assert!(result2.is_some());
    assert!(result3.is_some());
    let incentive1 = result1.unwrap();
    let incentive2 = result2.unwrap();
    let incentive3 = result3.unwrap();
    assert_eq!(incentive1.id, incentive2.id);
    assert_eq!(incentive2.id, incentive3.id);
    assert_eq!(incentive1.reward, 70);
}

#[test]
fn test_get_active_incentive_mixed_active_inactive() {
    let (mut client, manufacturer) = setup();
    let incentive1 = create(&mut client, manufacturer, WasteType::Glass, 90, 15000);
    create(&mut client, manufacturer, WasteType::Glass, 60, 10000);
    let incentive3 = create(&mut client, manufacturer, WasteType::Glass, 75, 12000);
    create(&mut client, manufacturer, WasteType::Glass, 50, 8000);
    ok(client.deactivate_incentive(incentive1.id, manufacturer));
    ok(client.deactivate_incentive(incentive3.id, manufacturer));
    let result = client.get_active_incentive_for_manufacturer(manufacturer, WasteType::Glass);
    assert!(result.is_some());
    let incentive = result.unwrap();
    assert_eq!(incentive.reward, 60);
    assert!(incentive.is_active);
}

#[test]
fn test_get_active_incentive_multiple_manufacturers_isolation() {
    let mut client = ScavengerContract::new();
    let manufacturer1: u64 = 1;
    let manufacturer2: u64 = 2;
    let manufacturer3: u64 = 3;
    register(&mut client, manufacturer1, ParticipantRole::Manufacturer);
    register(&mut client, manufacturer2, ParticipantRole::Manufacturer);
    register(&mut client, manufacturer3, ParticipantRole::Manufacturer);
    create(&mut client, manufacturer1, WasteType::Plastic, 40, 8000);
    create(&mut client, manufacturer2, WasteType::Plastic, 90, 15000);
    create(&mut client, manufacturer3, WasteType::Plastic, 60, 12000);
    create(&mut client, manufacturer1, WasteType::Plastic, 50, 10000);
    let result1 = client.get_active_incentive_for_manufacturer(manufacturer1, WasteType::Plastic);
    let result2 = client.get_active_incentive_for_manufacturer(manufacturer2, WasteType::Plastic);
    let result3 = client.get_active_incentive_for_manufacturer(manufacturer3, WasteType::Plastic);
    assert_eq!(result1.unwrap().reward, 50);
    assert_eq!(result1.unwrap().rewarder, manufacturer1);
    assert_eq!(result2.unwrap().reward, 90);
    assert_eq!(result2.unwrap().rewarder, manufacturer2);
    assert_eq!(result3.unwrap().reward, 60);
    assert_eq!(result3.unwrap().rewarder, manufacturer3);
}

#[test]
fn test_get_active_incentive_large_number_of_incentives() {
    let (mut client, manufacturer) = setup();
    for i in 1..=10u128 {
        create(&mut client, manufacturer, WasteType::Paper, i * 10, i * 1000);
    }
    let result = client.get_active_incentive_for_manufacturer(manufacturer, WasteType::Paper);
    assert!(result.is_some());
    let incentive = result.unwrap();
    assert_eq!(incentive.reward, 100);
}

// ----- creation, lookup and updates -----

#[test]
fn test_create_incentive_assigns_sequential_ids() {
    let (mut client, manufacturer) = setup();
    let a = create(&mut client, manufacturer, WasteType::Paper, 10, 100);
    let b = create(&mut client, manufacturer, WasteType::Glass, 20, 200);
    assert_eq!(a.id, 1);
    assert_eq!(b.id, 2);
    assert_eq!(client.get_incentive_count(), 2);
    assert!(client.incentive_exists(1));
    assert!(!client.incentive_exists(3));
    assert_eq!(client.get_incentive_by_id(2), Some(b));
    assert_eq!(client.get_incentives_by_rewarder(manufacturer), vec![1, 2]);
}

#[test]
fn test_create_incentive_unregistered_rewarder() {
    let mut client = ScavengerContract::new();
    let r = client.create_incentive(WasteType::Paper, 10, 100, 99, 0);
    assert_eq!(r, Err(ContractError::RewarderNotRegistered));
    assert_eq!(r.unwrap_err().message(), "Rewarder not registered");
}

#[test]
fn test_create_incentive_by_collector() {
    let mut client = ScavengerContract::new();
    register(&mut client, 5, ParticipantRole::Collector);
    let r = client.create_incentive(WasteType::Paper, 10, 100, 5, 0);
    assert_eq!(r, Err(ContractError::OnlyManufacturers));
    assert_eq!(client.get_incentive_count(), 0);
}

#[test]
fn test_create_incentive_zero_values_refused() {
    let (mut client, manufacturer) = setup();
    assert_eq!(
        client.create_incentive(WasteType::Paper, 0, 100, manufacturer, 0),
        Err(ContractError::ZeroReward)
    );
    assert_eq!(
        client.create_incentive(WasteType::Paper, 10, 0, manufacturer, 0),
        Err(ContractError::ZeroMaxWasteAmount)
    );
    assert_eq!(client.get_incentive_count(), 0);
}

#[test]
fn test_calculate_incentive_reward_examples() {
    let (mut client, manufacturer) = setup();
    // 100 per kg, at most 10 kg
    let inc = create(&mut client, manufacturer, WasteType::Metal, 100, 10000);
    assert_eq!(client.calculate_incentive_reward(inc.id, 5000), Ok(500));
    assert_eq!(client.calculate_incentive_reward(inc.id, 15000), Ok(1000));
    assert_eq!(client.calculate_incentive_reward(inc.id, 1), Ok(0));
    ok(client.update_incentive_status(inc.id, false));
    assert_eq!(client.calculate_incentive_reward(inc.id, 5000), Ok(0));
    assert_eq!(
        client.calculate_incentive_reward(42, 5000),
        Err(ContractError::IncentiveNotFound)
    );
}

#[test]
fn test_update_incentive_changes_terms() {
    let (mut client, manufacturer) = setup();
    let inc = create(&mut client, manufacturer, WasteType::Metal, 100, 5000);
    let updated = ok(client.update_incentive(inc.id, 200, 10000));
    assert_eq!(updated.reward, 200);
    assert_eq!(updated.max_waste_amount, 10000);
    assert_eq!(updated.rewarder, manufacturer);
    assert_eq!(client.get_incentive_by_id(inc.id), Some(updated));
    assert_eq!(
        client.update_incentive(inc.id, 0, 10),
        Err(ContractError::ZeroReward)
    );
    assert_eq!(
        client.update_incentive(inc.id, 10, 0),
        Err(ContractError::ZeroMaxWasteAmount)
    );
    assert_eq!(
        client.update_incentive(77, 10, 10),
        Err(ContractError::IncentiveNotFound)
    );
    ok(client.deactivate_incentive(inc.id, manufacturer));
    assert_eq!(
        client.update_incentive(inc.id, 10, 10),
        Err(ContractError::IncentiveNotActive)
    );
}

#[test]
fn test_deactivate_incentive_only_by_creator() {
    let (mut client, manufacturer) = setup();
    let inc = create(&mut client, manufacturer, WasteType::Metal, 100, 5000);
    assert_eq!(
        client.deactivate_incentive(inc.id, 1234),
        Err(ContractError::NotIncentiveCreator)
    );
    assert_eq!(
        client.deactivate_incentive(999, manufacturer),
        Err(ContractError::IncentiveNotFound)
    );
    let d = ok(client.deactivate_incentive(inc.id, manufacturer));
    assert!(!d.is_active);
}

#[test]
fn test_incentive_queries_by_type_and_activity() {
    let (mut client, manufacturer) = setup();
    let a = create(&mut client, manufacturer, WasteType::Plastic, 50, 10000);
    let b = create(&mut client, manufacturer, WasteType::Metal, 60, 12000);
    let c = create(&mut client, manufacturer, WasteType::Plastic, 40, 8000);
    ok(client.deactivate_incentive(c.id, manufacturer));
    let plastic = client.get_incentives_by_waste_type(WasteType::Plastic);
    assert_eq!(plastic.len(), 2);
    assert_eq!(plastic[0].id, a.id);
    assert_eq!(plastic[1].id, c.id);
    let active = client.get_active_incentives();
    assert_eq!(active.len(), 2);
    assert_eq!(active[0].id, a.id);
    assert_eq!(active[1].id, b.id);
}
