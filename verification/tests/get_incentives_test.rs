use scavngr::contract::{ContractError, Incentive, ScavengerContract};
use scavngr::types::{ParticipantRole, WasteType};

fn ok<T>(r: Result<T, ContractError>) -> T {
    match r {
        Ok(v) => v,
        Err(e) => panic!("{}", e.message()),
    }
}

fn register(client: &mut ScavengerContract, address: u64, role: ParticipantRole) {
    ok(client.register_participant(address, role, String::new(), 0, 0, 0));
}

fn create(client: &mut ScavengerContract, manufacturer: u64, t: WasteType, reward: u128, max: u128) -> Incentive {
    ok(client.create_incentive(t, reward, max, manufacturer, 0))
}

fn setup() -> (ScavengerContract, u64) {
    let mut client = ScavengerContract::new();
    let manufacturer: u64 = 7;
    register(&mut client, manufacturer, ParticipantRole::Manufacturer);
    (client, manufacturer)
}

#[test]
fn test_get_incentives_returns_active_only() {
    let (mut client, manufacturer) = setup();
    create(&mut client, manufacturer, WasteType::Plastic, 50, 10000);
    let incentive2 = create(&mut client, manufacturer, WasteType::Plastic, 30, 5000);
    create(&mut client, manufacturer, WasteType::Plastic, 70, 15000);
    ok(client.deactivate_incentive(incentive2.id, manufacturer));
    let incentives = client.get_incentives(WasteType::Plastic);
    assert_eq!(incentives.len(), 2);
    for incentive in incentives.iter() {
        assert!(incentive.is_active);
    }
    assert!(!incentives.iter().any(|i| i.id == incentive2.id));
}

#[test]
fn test_get_incentives_filters_by_waste_type() {
    let (mut client, manufacturer) = setup();
    create(&mut client, manufacturer, WasteType::Plastic, 50, 10000);
    create(&mut client, manufacturer, WasteType::Metal, 60, 12000);
    create(&mut client, manufacturer, WasteType::Plastic, 40, 8000);
    create(&mut client, manufacturer, WasteType::Glass, 30, 6000);
    let plastic_incentives = client.get_incentives(WasteType::Plastic);
    assert_eq!(plastic_incentives.len(), 2);
    for incentive in plastic_incentives.iter() {
        assert_eq!(incentive.waste_type, WasteType::Plastic);
    }
}

#[test]
fn test_get_incentives_sorted_by_reward_descending() {
    let (mut client, manufacturer) = setup();
    create(&mut client, manufacturer, WasteType::Paper, 30, 5000);
    create(&mut client, manufacturer, WasteType::Paper, 70, 10000);
    create(&mut client, manufacturer, WasteType::Paper, 50, 8000);
    create(&mut client, manufacturer, WasteType::Paper, 90, 15000);
    create(&mut client, manufacturer, WasteType::Paper, 20, 3000);
    let incentives = client.get_incentives(WasteType::Paper);
    assert_eq!(incentives.len(), 5);
    assert_eq!(incentives[0].reward, 90);
    assert_eq!(incentives[1].reward, 70);
    assert_eq!(incentives[2].reward, 50);
    assert_eq!(incentives[3].reward, 30);
    assert_eq!(incentives[4].reward, 20);
}

#[test]
fn test_get_incentives_empty_for_no_incentives() {
    let client = ScavengerContract::new();
    let incentives = client.get_incentives(WasteType::Metal);
    assert_eq!(incentives.len(), 0);
}

#[test]
fn test_get_incentives_empty_when_all_deactivated() {
    let (mut client, manufacturer) = setup();
    let incentive1 = create(&mut client, manufacturer, WasteType::Glass, 40, 8000);
    let incentive2 = create(&mut client, manufacturer, WasteType::Glass, 50, 10000);
    ok(client.deactivate_incentive(incentive1.id, manufacturer));
    ok(client.deactivate_incentive(incentive2.id, manufacturer));
    let incentives = client.get_incentives(WasteType::Glass);
    assert_eq!(incentives.len(), 0);
}

#[test]
fn test_get_incentives_single_incentive() {
    let (mut client, manufacturer) = setup();
    let created = create(&mut client, manufacturer, WasteType::PetPlastic, 60, 12000);
    let incentives = client.get_incentives(WasteType::PetPlastic);
    assert_eq!(incentives.len(), 1);
    assert_eq!(incentives[0].id, created.id);
    assert_eq!(incentives[0].reward, 60);
}

#[test]
fn test_get_incentives_sorting_with_equal_rewards() {
    let (mut client, manufacturer) = setup();
    let first = create(&mut client, manufacturer, WasteType::Metal, 50, 10000);
    let second = create(&mut client, manufacturer, WasteType::Metal, 50, 8000);
    create(&mut client, manufacturer, WasteType::Metal, 70, 12000);
    create(&mut client, manufacturer, WasteType::Metal, 30, 6000);
    let incentives = client.get_incentives(WasteType::Metal);
    assert_eq!(incentives.len(), 4);
    assert_eq!(incentives[0].reward, 70);
    assert_eq!(incentives[1].reward, 50);
    assert_eq!(incentives[2].reward, 50);
    assert_eq!(incentives[3].reward, 30);
    // equal rewards keep the order in which they were created
    assert_eq!(incentives[1].id, first.id);
    assert_eq!(incentives[2].id, second.id);
}

#[test]
fn test_get_incentives_already_sorted() {
    let (mut client, manufacturer) = setup();
    create(&mut client, manufacturer, WasteType::Paper, 90, 15000);
    create(&mut client, manufacturer, WasteType::Paper, 70, 12000);
    create(&mut client, manufacturer, WasteType::Paper, 50, 10000);
    let incentives = client.get_incentives(WasteType::Paper);
    assert_eq!(incentives.len(), 3);
    assert_eq!(incentives[0].reward, 90);
    assert_eq!(incentives[1].reward, 70);
    assert_eq!(incentives[2].reward, 50);
}

#[test]
fn test_get_incentives_independent_per_waste_type() {
    let (mut client, manufacturer) = setup();
    create(&mut client, manufacturer, WasteType::Plastic, 50, 10000);
    create(&mut client, manufacturer, WasteType::Metal, 60, 12000);
    create(&mut client, manufacturer, WasteType::Plastic, 40, 8000);
    let plastic = client.get_incentives(WasteType::Plastic);
    let metal = client.get_incentives(WasteType::Metal);
    let glass = client.get_incentives(WasteType::Glass);
    assert_eq!(plastic.len(), 2);
    assert_eq!(metal.len(), 1);
    assert_eq!(glass.len(), 0);
}

#[test]
fn test_get_incentives_returns_complete_data() {
    let (mut client, manufacturer) = setup();
    let created = create(&mut client, manufacturer, WasteType::Plastic, 50, 10000);
    let incentives = client.get_incentives(WasteType::Plastic);
    let retrieved = incentives[0];
    assert_eq!(retrieved.id, created.id);
    assert_eq!(retrieved.rewarder, manufacturer);
    assert_eq!(retrieved.waste_type, WasteType::Plastic);
    assert_eq!(retrieved.reward, 50);
    assert_eq!(retrieved.max_waste_amount, 10000);
    assert_eq!(retrieved, created);
    assert!(retrieved.is_active);
}

#[test]
fn test_get_incentives_all_waste_types() {
    let (mut client, manufacturer) = setup();
    create(&mut client, manufacturer, WasteType::Paper, 30, 5000);
    create(&mut client, manufacturer, WasteType::PetPlastic, 50, 8000);
    create(&mut client, manufacturer, WasteType::Plastic, 40, 7000);
    create(&mut client, manufacturer, WasteType::Metal, 70, 12000);
    create(&mut client, manufacturer, WasteType::Glass, 35, 6000);
    assert_eq!(client.get_incentives(WasteType::Paper).len(), 1);
    assert_eq!(client.get_incentives(WasteType::PetPlastic).len(), 1);
    assert_eq!(client.get_incentives(WasteType::Plastic).len(), 1);
    assert_eq!(client.get_incentives(WasteType::Metal).len(), 1);
    assert_eq!(client.get_incentives(WasteType::Glass).len(), 1);
}

#[test]
fn test_get_incentives_multiple_manufacturers() {
    let mut client = ScavengerContract::new();
    let manufacturer1: u64 = 1;
    let manufacturer2: u64 = 2;
    register(&mut client, manufacturer1, ParticipantRole::Manufacturer);
    register(&mut client, manufacturer2, ParticipantRole::Manufacturer);
    create(&mut client, manufacturer1, WasteType::Plastic, 50, 10000);
    create(&mut client, manufacturer2, WasteType::Plastic, 60, 12000);
    create(&mut client, manufacturer1, WasteType::Plastic, 40, 8000);
    let incentives = client.get_incentives(WasteType::Plastic);
    assert_eq!(incentives.len(), 3);
    assert_eq!(incentives[0].reward, 60);
    assert_eq!(incentives[1].reward, 50);
    assert_eq!(incentives[2].reward, 40);
}

#[test]
fn test_get_incentives_no_side_effects() {
    let (mut client, manufacturer) = setup();
    create(&mut client, manufacturer, WasteType::Metal, 50, 10000);
    create(&mut client, manufacturer, WasteType::Metal, 70, 12000);
    let incentives1 = client.get_incentives(WasteType::Metal);
    let incentives2 = client.get_incentives(WasteType::Metal);
    let incentives3 = client.get_incentives(WasteType::Metal);
    assert_eq!(incentives1.len(), incentives2.len());
    assert_eq!(incentives2.len(), incentives3.len());
    for i in 0..incentives1.len() {
        assert_eq!(incentives1[i].id, incentives2[i].id);
        assert_eq!(incentives2[i].id, incentives3[i].id);
    }
}

#[test]
fn test_get_incentives_large_list() {
    let (mut client, manufacturer) = setup();
    for i in 1..=10u128 {
        create(&mut client, manufacturer, WasteType::Glass, i * 10, i * 1000);
    }
    let incentives = client.get_incentives(WasteType::Glass);
    assert_eq!(incentives.len(), 10);
    for i in 0..9 {
        let curr = incentives[i];
        let next = incentives[i + 1];
        assert!(curr.reward >= next.reward);
    }
}
