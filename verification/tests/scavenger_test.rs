use scavngr::scavenger::{
    Incentive, Participant, Role, ScavengerContract, ScavengerError, Storage, WasteType,
};

fn ok<T>(r: Result<T, ScavengerError>) -> T {
    match r {
        Ok(v) => v,
        Err(e) => panic!("{}", e.message()),
    }
}

fn create_test_contract() -> (Storage, u64, u64, u64) {
    let storage = Storage::new();
    let admin: u64 = 1;
    let token_address: u64 = 2;
    let charity_address: u64 = 3;
    (storage, admin, token_address, charity_address)
}

fn construct(storage: &mut Storage, admin: u64, token: u64, charity: u64, c: u32, o: u32) {
    ok(ScavengerContract::__constructor(storage, admin, token, charity, c, o));
}

fn register(storage: &mut Storage, address: u64, role: Role, name: &str, lat: i64, lon: i64) -> Participant {
    ok(ScavengerContract::register_participant(storage, address, role, String::from(name), lat, lon, 0))
}

fn incentive(storage: &mut Storage, rewarder: u64, t: WasteType, points: u64, budget: u64) -> Incentive {
    ok(ScavengerContract::create_incentive(storage, rewarder, t, points, budget, 0))
}

#[test]
fn test_initialization() {
    let (mut storage, admin, token_address, charity_address) = create_test_contract();
    construct(&mut storage, admin, token_address, charity_address, 30, 20);
    assert_eq!(ScavengerContract::get_admin(&storage), Ok(admin));
    assert_eq!(ScavengerContract::get_token_address(&storage), Ok(token_address));
    assert_eq!(ScavengerContract::get_charity_address(&storage), Ok(charity_address));
    assert_eq!(ScavengerContract::get_collector_percentage(&storage), Ok(30));
    assert_eq!(ScavengerContract::get_owner_percentage(&storage), Ok(20));
    assert_eq!(ScavengerContract::get_total_earned(&storage), 0);
}

#[test]
#[should_panic(expected = "Total percentages cannot exceed 100")]
fn test_initialization_invalid_percentages() {
    let (mut storage, admin, token_address, charity_address) = create_test_contract();
    // 60 + 50 = 110 > 100
    construct(&mut storage, admin, token_address, charity_address, 60, 50);
}

#[test]
fn test_update_token_address() {
    let (mut storage, admin, token_address, charity_address) = create_test_contract();
    construct(&mut storage, admin, token_address, charity_address, 30, 20);
    let new_token_address: u64 = 10;
    ok(ScavengerContract::update_token_address(&mut storage, admin, new_token_address));
    assert_eq!(ScavengerContract::get_token_address(&storage), Ok(new_token_address));
}

#[test]
fn test_update_charity_address() {
    let (mut storage, admin, token_address, charity_address) = create_test_contract();
    construct(&mut storage, admin, token_address, charity_address, 30, 20);
    let new_charity_address: u64 = 11;
    ok(ScavengerContract::update_charity_address(&mut storage, admin, new_charity_address));
    assert_eq!(ScavengerContract::get_charity_address(&storage), Ok(new_charity_address));
}

#[test]
fn test_update_collector_percentage() {
    let (mut storage, admin, token_address, charity_address) = create_test_contract();
    construct(&mut storage, admin, token_address, charity_address, 30, 20);
    ok(ScavengerContract::update_collector_percentage(&mut storage, admin, 40));
    assert_eq!(ScavengerContract::get_collector_percentage(&storage), Ok(40));
}

#[test]
#[should_panic(expected = "Total percentages cannot exceed 100")]
fn test_update_collector_percentage_invalid() {
    let (mut storage, admin, token_address, charity_address) = create_test_contract();
    construct(&mut storage, admin, token_address, charity_address, 30, 20);
    // 85 + 20 = 105 > 100
    ok(ScavengerContract::update_collector_percentage(&mut storage, admin, 85));
}

#[test]
fn test_update_owner_percentage() {
    let (mut storage, admin, token_address, charity_address) = create_test_contract();
    construct(&mut storage, admin, token_address, charity_address, 30, 20);
    ok(ScavengerContract::update_owner_percentage(&mut storage, admin, 25));
    assert_eq!(ScavengerContract::get_owner_percentage(&storage), Ok(25));
}

#[test]
#[should_panic(expected = "Total percentages cannot exceed 100")]
fn test_update_owner_percentage_invalid() {
    let (mut storage, admin, token_address, charity_address) = create_test_contract();
    construct(&mut storage, admin, token_address, charity_address, 30, 20);
    // 30 + 75 = 105 > 100
    ok(ScavengerContract::update_owner_percentage(&mut storage, admin, 75));
}

#[test]
fn test_update_percentages() {
    let (mut storage, admin, token_address, charity_address) = create_test_contract();
    construct(&mut storage, admin, token_address, charity_address, 30, 20);
    ok(ScavengerContract::update_percentages(&mut storage, admin, 35, 25));
    assert_eq!(ScavengerContract::get_collector_percentage(&storage), Ok(35));
    assert_eq!(ScavengerContract::get_owner_percentage(&storage), Ok(25));
}

#[test]
#[should_panic(expected = "Total percentages cannot exceed 100")]
fn test_update_percentages_invalid() {
    let (mut storage, admin, token_address, charity_address) = create_test_contract();
    construct(&mut storage, admin, token_address, charity_address, 30, 20);
    ok(ScavengerContract::update_percentages(&mut storage, admin, 60, 50));
}

#[test]
fn test_transfer_admin() {
    let (mut storage, admin, token_address, charity_address) = create_test_contract();
    construct(&mut storage, admin, token_address, charity_address, 30, 20);
    let new_admin: u64 = 12;
    ok(ScavengerContract::transfer_admin(&mut storage, admin, new_admin));
    assert_eq!(ScavengerContract::get_admin(&storage), Ok(new_admin));
}

#[test]
fn test_configuration_persistence() {
    let (mut storage, admin, token_address, charity_address) = create_test_contract();
    construct(&mut storage, admin, token_address, charity_address, 30, 20);
    assert_eq!(ScavengerContract::get_admin(&storage), Ok(admin));
    assert_eq!(ScavengerContract::get_token_address(&storage), Ok(token_address));
    assert_eq!(ScavengerContract::get_charity_address(&storage), Ok(charity_address));
    assert_eq!(ScavengerContract::get_collector_percentage(&storage), Ok(30));
    assert_eq!(ScavengerContract::get_owner_percentage(&storage), Ok(20));
    assert_eq!(ScavengerContract::get_total_earned(&storage), 0);
    let new_token: u64 = 20;
    let new_charity: u64 = 21;
    ok(ScavengerContract::update_token_address(&mut storage, admin, new_token));
    ok(ScavengerContract::update_charity_address(&mut storage, admin, new_charity));
    ok(ScavengerContract::update_percentages(&mut storage, admin, 40, 30));
    assert_eq!(ScavengerContract::get_token_address(&storage), Ok(new_token));
    assert_eq!(ScavengerContract::get_charity_address(&storage), Ok(new_charity));
    assert_eq!(ScavengerContract::get_collector_percentage(&storage), Ok(40));
    assert_eq!(ScavengerContract::get_owner_percentage(&storage), Ok(30));
}

#[test]
fn test_register_participant() {
    let (mut storage, admin, token_address, charity_address) = create_test_contract();
    construct(&mut storage, admin, token_address, charity_address, 30, 20);
    let manufacturer: u64 = 100;
    let participant = register(&mut storage, manufacturer, Role::Manufacturer, "Test Manufacturer", 100, 200);
    assert_eq!(participant.address, manufacturer);
    assert_eq!(participant.role, Role::Manufacturer);
    assert_eq!(participant.name, "Test Manufacturer");
    assert_eq!(participant.latitude, 100);
    assert_eq!(participant.longitude, 200);
}

#[test]
fn test_create_incentive() {
    let (mut storage, admin, token_address, charity_address) = create_test_contract();
    construct(&mut storage, admin, token_address, charity_address, 30, 20);
    let manufacturer: u64 = 100;
    register(&mut storage, manufacturer, Role::Manufacturer, "Test Manufacturer", 100, 200);
    let inc = incentive(&mut storage, manufacturer, WasteType::PetPlastic, 50, 10000);
    assert_eq!(inc.id, 1);
    assert_eq!(inc.rewarder, manufacturer);
    assert_eq!(inc.waste_type, WasteType::PetPlastic);
    assert_eq!(inc.reward_points, 50);
    assert_eq!(inc.total_budget, 10000);
    assert_eq!(inc.remaining_budget, 10000);
    assert!(inc.active);
}

#[test]
#[should_panic(expected = "Rewarder not registered")]
fn test_create_incentive_unregistered() {
    let (mut storage, admin, token_address, charity_address) = create_test_contract();
    construct(&mut storage, admin, token_address, charity_address, 30, 20);
    let manufacturer: u64 = 100;
    incentive(&mut storage, manufacturer, WasteType::Metal, 100, 5000);
}

#[test]
#[should_panic(expected = "Only manufacturers can create incentives")]
fn test_create_incentive_wrong_role() {
    let (mut storage, admin, token_address, charity_address) = create_test_contract();
    construct(&mut storage, admin, token_address, charity_address, 30, 20);
    let recycler: u64 = 100;
    register(&mut storage, recycler, Role::Recycler, "Test Recycler", 100, 200);
    incentive(&mut storage, recycler, WasteType::Plastic, 30, 8000);
}

#[test]
fn test_get_incentive_by_id() {
    let (mut storage, admin, token_address, charity_address) = create_test_contract();
    construct(&mut storage, admin, token_address, charity_address, 30, 20);
    let manufacturer: u64 = 100;
    register(&mut storage, manufacturer, Role::Manufacturer, "Test Manufacturer", 100, 200);
    let created = incentive(&mut storage, manufacturer, WasteType::Glass, 40, 7000);
    let retrieved = ScavengerContract::get_incentive_by_id(&storage, created.id);
    assert!(retrieved.is_some());
    let retrieved = retrieved.unwrap();
    assert_eq!(retrieved.id, created.id);
    assert_eq!(retrieved.waste_type, WasteType::Glass);
    assert_eq!(retrieved.reward_points, 40);
}

#[test]
fn test_incentive_exists() {
    let (mut storage, admin, token_address, charity_address) = create_test_contract();
    construct(&mut storage, admin, token_address, charity_address, 30, 20);
    let manufacturer: u64 = 100;
    register(&mut storage, manufacturer, Role::Manufacturer, "Test Manufacturer", 100, 200);
    assert!(!ScavengerContract::incentive_exists(&storage, 1));
    incentive(&mut storage, manufacturer, WasteType::Paper, 20, 5000);
    assert!(ScavengerContract::incentive_exists(&storage, 1));
    assert!(!ScavengerContract::incentive_exists(&storage, 2));
}

#[test]
fn test_multiple_incentives_per_manufacturer() {
    let (mut storage, admin, token_address, charity_address) = create_test_contract();
    construct(&mut storage, admin, token_address, charity_address, 30, 20);
    let manufacturer: u64 = 100;
    register(&mut storage, manufacturer, Role::Manufacturer, "Test Manufacturer", 100, 200);
    let i1 = incentive(&mut storage, manufacturer, WasteType::PetPlastic, 50, 10000);
    let i2 = incentive(&mut storage, manufacturer, WasteType::Metal, 100, 15000);
    let i3 = incentive(&mut storage, manufacturer, WasteType::Glass, 30, 8000);
    assert_eq!(i1.id, 1);
    assert_eq!(i2.id, 2);
    assert_eq!(i3.id, 3);
    assert!(ScavengerContract::incentive_exists(&storage, 1));
    assert!(ScavengerContract::incentive_exists(&storage, 2));
    assert!(ScavengerContract::incentive_exists(&storage, 3));
}

#[test]
fn test_get_incentives_by_rewarder() {
    let (mut storage, admin, token_address, charity_address) = create_test_contract();
    construct(&mut storage, admin, token_address, charity_address, 30, 20);
    let manufacturer1: u64 = 100;
    let manufacturer2: u64 = 101;
    register(&mut storage, manufacturer1, Role::Manufacturer, "Manufacturer 1", 100, 200);
    register(&mut storage, manufacturer2, Role::Manufacturer, "Manufacturer 2", 300, 400);
    incentive(&mut storage, manufacturer1, WasteType::Paper, 20, 5000);
    incentive(&mut storage, manufacturer1, WasteType::Plastic, 30, 6000);
    incentive(&mut storage, manufacturer1, WasteType::Metal, 50, 8000);
    incentive(&mut storage, manufacturer2, WasteType::Glass, 40, 7000);
    incentive(&mut storage, manufacturer2, WasteType::PetPlastic, 60, 9000);
    let m1_incentives = ScavengerContract::get_incentives_by_rewarder(&storage, manufacturer1);
    assert_eq!(m1_incentives.len(), 3);
    assert_eq!(m1_incentives[0], 1);
    assert_eq!(m1_incentives[1], 2);
    assert_eq!(m1_incentives[2], 3);
    let m2_incentives = ScavengerContract::get_incentives_by_rewarder(&storage, manufacturer2);
    assert_eq!(m2_incentives.len(), 2);
    assert_eq!(m2_incentives[0], 4);
    assert_eq!(m2_incentives[1], 5);
}

#[test]
fn test_get_incentives_by_waste_type() {
    let (mut storage, admin, token_address, charity_address) = create_test_contract();
    construct(&mut storage, admin, token_address, charity_address, 30, 20);
    let manufacturer1: u64 = 100;
    let manufacturer2: u64 = 101;
    register(&mut storage, manufacturer1, Role::Manufacturer, "Manufacturer 1", 100, 200);
    register(&mut storage, manufacturer2, Role::Manufacturer, "Manufacturer 2", 300, 400);
    incentive(&mut storage, manufacturer1, WasteType::PetPlastic, 50, 10000);
    incentive(&mut storage, manufacturer2, WasteType::PetPlastic, 60, 12000);
    incentive(&mut storage, manufacturer1, WasteType::Metal, 100, 15000);
    incentive(&mut storage, manufacturer2, WasteType::Glass, 40, 8000);
    let pet_incentives = ScavengerContract::get_incentives_by_waste_type(&storage, WasteType::PetPlastic);
    assert_eq!(pet_incentives.len(), 2);
    assert_eq!(pet_incentives[0], 1);
    assert_eq!(pet_incentives[1], 2);
    let metal_incentives = ScavengerContract::get_incentives_by_waste_type(&storage, WasteType::Metal);
    assert_eq!(metal_incentives.len(), 1);
    assert_eq!(metal_incentives[0], 3);
    let glass_incentives = ScavengerContract::get_incentives_by_waste_type(&storage, WasteType::Glass);
    assert_eq!(glass_incentives.len(), 1);
    assert_eq!(glass_incentives[0], 4);
    let paper_incentives = ScavengerContract::get_incentives_by_waste_type(&storage, WasteType::Paper);
    assert_eq!(paper_incentives.len(), 0);
}

#[test]
fn test_incentive_id_counter_increments() {
    let (mut storage, admin, token_address, charity_address) = create_test_contract();
    construct(&mut storage, admin, token_address, charity_address, 30, 20);
    let manufacturer: u64 = 100;
    register(&mut storage, manufacturer, Role::Manufacturer, "Test Manufacturer", 100, 200);
    let i1 = incentive(&mut storage, manufacturer, WasteType::Paper, 20, 5000);
    let i2 = incentive(&mut storage, manufacturer, WasteType::Plastic, 30, 6000);
    let i3 = incentive(&mut storage, manufacturer, WasteType::Metal, 50, 8000);
    assert_eq!(i1.id, 1);
    assert_eq!(i2.id, 2);
    assert_eq!(i3.id, 3);
}

#[test]
fn test_test_all_waste_types() {
    let (mut storage, admin, token_address, charity_address) = create_test_contract();
    construct(&mut storage, admin, token_address, charity_address, 30, 20);
    let manufacturer: u64 = 100;
    register(&mut storage, manufacturer, Role::Manufacturer, "Test Manufacturer", 100, 200);
    let paper = incentive(&mut storage, manufacturer, WasteType::Paper, 20, 5000);
    let pet = incentive(&mut storage, manufacturer, WasteType::PetPlastic, 50, 10000);
    let plastic = incentive(&mut storage, manufacturer, WasteType::Plastic, 30, 7000);
    let metal = incentive(&mut storage, manufacturer, WasteType::Metal, 100, 15000);
    let glass = incentive(&mut storage, manufacturer, WasteType::Glass, 40, 8000);
    assert_eq!(paper.waste_type, WasteType::Paper);
    assert_eq!(pet.waste_type, WasteType::PetPlastic);
    assert_eq!(plastic.waste_type, WasteType::Plastic);
    assert_eq!(metal.waste_type, WasteType::Metal);
    assert_eq!(glass.waste_type, WasteType::Glass);
}

#[test]
fn test_all_role_types() {
    let (mut storage, admin, token_address, charity_address) = create_test_contract();
    construct(&mut storage, admin, token_address, charity_address, 30, 20);
    let p1 = register(&mut storage, 100, Role::Recycler, "Recycler", 100, 200);
    let p2 = register(&mut storage, 101, Role::Collector, "Collector", 300, 400);
    let p3 = register(&mut storage, 102, Role::Manufacturer, "Manufacturer", 500, 600);
    assert_eq!(p1.role, Role::Recycler);
    assert_eq!(p2.role, Role::Collector);
    assert_eq!(p3.role, Role::Manufacturer);
}

// ----- supply chain and reward distribution -----

fn verify(storage: &mut Storage, id: u64) {
    let mut m = storage.get_material(id).unwrap();
    m.verified = true;
    storage.set_material(id, m);
}

#[test]
fn test_getters_before_initialization_fail() {
    let (storage, _, _, _) = create_test_contract();
    assert_eq!(ScavengerContract::get_admin(&storage), Err(ScavengerError::AdminNotSet));
    assert_eq!(
        ScavengerContract::get_token_address(&storage),
        Err(ScavengerError::TokenAddressNotSet)
    );
    assert_eq!(
        ScavengerContract::get_collector_percentage(&storage),
        Err(ScavengerError::CollectorPercentageNotSet)
    );
}

#[test]
fn test_only_admin_updates_configuration() {
    let (mut storage, admin, token_address, charity_address) = create_test_contract();
    construct(&mut storage, admin, token_address, charity_address, 30, 20);
    assert_eq!(
        ScavengerContract::update_token_address(&mut storage, 99, 5),
        Err(ScavengerError::NotAdmin)
    );
    assert_eq!(ScavengerContract::get_token_address(&storage), Ok(token_address));
}

#[test]
fn test_register_twice_refused() {
    let (mut storage, admin, token_address, charity_address) = create_test_contract();
    construct(&mut storage, admin, token_address, charity_address, 30, 20);
    register(&mut storage, 100, Role::Collector, "C", 0, 0);
    assert!(ScavengerContract::is_participant_registered(&storage, 100));
    assert!(matches!(
        ScavengerContract::register_participant(&mut storage, 100, Role::Recycler, String::new(), 0, 0, 0),
        Err(ScavengerError::ParticipantAlreadyRegistered)
    ));
}

#[test]
fn test_submit_and_transfer_material() {
    let (mut storage, admin, token_address, charity_address) = create_test_contract();
    construct(&mut storage, admin, token_address, charity_address, 30, 20);
    register(&mut storage, 100, Role::Recycler, "R", 0, 0);
    register(&mut storage, 101, Role::Collector, "C", 0, 0);
    let m = ok(ScavengerContract::submit_material(&mut storage, 100, WasteType::Metal, 5000, 7));
    assert_eq!(m.id, 1);
    assert_eq!(m.current_owner, 100);
    assert!(!m.verified);
    assert_eq!(ScavengerContract::get_supply_chain_stats(&storage), (1, 5000, 0));
    ok(ScavengerContract::transfer_waste(&mut storage, m.id, 100, 101, 9));
    let history = ScavengerContract::get_transfer_history(&storage, m.id);
    assert_eq!(history.len(), 1);
    assert_eq!(history[0].from, 100);
    assert_eq!(history[0].to, 101);
    assert_eq!(history[0].transferred_at, 9);
    assert_eq!(storage.get_material(m.id).unwrap().current_owner, 101);
    assert_eq!(
        ScavengerContract::transfer_waste(&mut storage, m.id, 100, 101, 9),
        Err(ScavengerError::NotCurrentOwner)
    );
    assert_eq!(
        ScavengerContract::transfer_waste(&mut storage, 42, 101, 100, 9),
        Err(ScavengerError::MaterialNotFound)
    );
}

#[test]
fn test_distribute_rewards_single_collector() {
    let (mut storage, admin, token_address, charity_address) = create_test_contract();
    // collectors 5%, owner 50%
    construct(&mut storage, admin, token_address, charity_address, 5, 50);
    let submitter: u64 = 100;
    let collector: u64 = 101;
    let recycler: u64 = 102;
    let manufacturer: u64 = 103;
    register(&mut storage, submitter, Role::Recycler, "S", 0, 0);
    register(&mut storage, collector, Role::Collector, "C", 0, 0);
    register(&mut storage, recycler, Role::Recycler, "R", 0, 0);
    register(&mut storage, manufacturer, Role::Manufacturer, "M", 0, 0);
    let m = ok(ScavengerContract::submit_material(&mut storage, submitter, WasteType::Metal, 5000, 0));
    ok(ScavengerContract::transfer_waste(&mut storage, m.id, submitter, collector, 1));
    ok(ScavengerContract::transfer_waste(&mut storage, m.id, collector, recycler, 2));
    let inc = incentive(&mut storage, manufacturer, WasteType::Metal, 100, 1000);
    verify(&mut storage, m.id);
    let d = ok(ScavengerContract::distribute_rewards(&mut storage, m.id, inc.id, manufacturer));
    // 5 kg * 100 = 500: collector 25, submitter 250, current owner 225
    assert_eq!(d.total_reward, 500);
    assert_eq!(d.token, token_address);
    assert_eq!(d.payouts, vec![(collector, 25), (submitter, 250), (recycler, 225)]);
    assert_eq!(ScavengerContract::get_participant_stats(&storage, collector).total_earned, 25);
    assert_eq!(ScavengerContract::get_participant_stats(&storage, submitter).total_earned, 250);
    assert_eq!(ScavengerContract::get_participant_stats(&storage, recycler).total_earned, 225);
    assert_eq!(ScavengerContract::get_total_earned(&storage), 500);
    let after = ScavengerContract::get_incentive_by_id(&storage, inc.id).unwrap();
    assert_eq!(after.remaining_budget, 500);
    assert!(after.active);
    assert_eq!(ScavengerContract::get_metrics(&storage).total_tokens_earned, 500);
}

#[test]
fn test_distribute_rewards_two_collectors_exhausts_budget() {
    let (mut storage, admin, token_address, charity_address) = create_test_contract();
    construct(&mut storage, admin, token_address, charity_address, 5, 50);
    let submitter: u64 = 100;
    let c1: u64 = 101;
    let c2: u64 = 102;
    let manufacturer: u64 = 103;
    register(&mut storage, submitter, Role::Recycler, "S", 0, 0);
    register(&mut storage, c1, Role::Collector, "C1", 0, 0);
    register(&mut storage, c2, Role::Collector, "C2", 0, 0);
    register(&mut storage, manufacturer, Role::Manufacturer, "M", 0, 0);
    let m = ok(ScavengerContract::submit_material(&mut storage, submitter, WasteType::Paper, 10000, 0));
    ok(ScavengerContract::transfer_waste(&mut storage, m.id, submitter, c1, 1));
    ok(ScavengerContract::transfer_waste(&mut storage, m.id, c1, c2, 2));
    let inc = incentive(&mut storage, manufacturer, WasteType::Paper, 100, 1000);
    verify(&mut storage, m.id);
    let d = ok(ScavengerContract::distribute_rewards(&mut storage, m.id, inc.id, manufacturer));
    // 10 kg * 100 = 1000: 50 + 50 + 500, the holder (c2) gets the rest 400
    assert_eq!(d.total_reward, 1000);
    assert_eq!(d.payouts, vec![(c1, 50), (c2, 50), (submitter, 500), (c2, 400)]);
    assert_eq!(ScavengerContract::get_participant_stats(&storage, c2).total_earned, 450);
    let after = ScavengerContract::get_incentive_by_id(&storage, inc.id).unwrap();
    assert_eq!(after.remaining_budget, 0);
    assert!(!after.active);
    // the exhausted incentive is no longer offered
    assert_eq!(
        ScavengerContract::get_active_incentive_for_manufacturer(&storage, manufacturer, WasteType::Paper),
        None
    );
    assert_eq!(
        ScavengerContract::distribute_rewards(&mut storage, m.id, inc.id, manufacturer),
        Err(ScavengerError::IncentiveNotActive)
    );
}

#[test]
fn test_distribute_rewards_refusals() {
    let (mut storage, admin, token_address, charity_address) = create_test_contract();
    construct(&mut storage, admin, token_address, charity_address, 5, 50);
    register(&mut storage, 100, Role::Recycler, "S", 0, 0);
    register(&mut storage, 103, Role::Manufacturer, "M", 0, 0);
    register(&mut storage, 104, Role::Manufacturer, "M2", 0, 0);
    let m = ok(ScavengerContract::submit_material(&mut storage, 100, WasteType::Metal, 5000, 0));
    let inc = incentive(&mut storage, 103, WasteType::Metal, 100, 100);
    let other = incentive(&mut storage, 103, WasteType::Glass, 100, 10000);
    assert_eq!(
        ScavengerContract::distribute_rewards(&mut storage, 9, inc.id, 103),
        Err(ScavengerError::MaterialNotFound)
    );
    assert_eq!(
        ScavengerContract::distribute_rewards(&mut storage, m.id, inc.id, 103),
        Err(ScavengerError::MaterialNotVerified)
    );
    verify(&mut storage, m.id);
    assert_eq!(
        ScavengerContract::distribute_rewards(&mut storage, m.id, 77, 103),
        Err(ScavengerError::IncentiveNotFound)
    );
    assert_eq!(
        ScavengerContract::distribute_rewards(&mut storage, m.id, inc.id, 104),
        Err(ScavengerError::NotIncentiveCreator)
    );
    assert_eq!(
        ScavengerContract::distribute_rewards(&mut storage, m.id, other.id, 103),
        Err(ScavengerError::WasteTypeMismatch)
    );
    // 500 points needed, 100 left
    assert_eq!(
        ScavengerContract::distribute_rewards(&mut storage, m.id, inc.id, 103),
        Err(ScavengerError::InsufficientBudget)
    );
    assert_eq!(ScavengerContract::get_total_earned(&storage), 0);
}

#[test]
fn test_best_active_incentive_by_points() {
    let (mut storage, admin, token_address, charity_address) = create_test_contract();
    construct(&mut storage, admin, token_address, charity_address, 30, 20);
    register(&mut storage, 103, Role::Manufacturer, "M", 0, 0);
    incentive(&mut storage, 103, WasteType::Plastic, 50, 10000);
    let best = incentive(&mut storage, 103, WasteType::Plastic, 70, 10000);
    incentive(&mut storage, 103, WasteType::Metal, 90, 10000);
    assert_eq!(
        ScavengerContract::get_active_incentive_for_manufacturer(&storage, 103, WasteType::Plastic),
        Some(best)
    );
}

#[test]
fn test_zero_point_incentive_is_still_offered() {
    let (mut storage, admin, token_address, charity_address) = create_test_contract();
    construct(&mut storage, admin, token_address, charity_address, 30, 20);
    register(&mut storage, 103, Role::Manufacturer, "M", 0, 0);
    let only = incentive(&mut storage, 103, WasteType::Glass, 0, 1000);
    assert_eq!(
        ScavengerContract::get_active_incentive_for_manufacturer(&storage, 103, WasteType::Glass),
        Some(only)
    );
    assert_eq!(
        ScavengerContract::get_active_incentive_for_manufacturer(&storage, 103, WasteType::Metal),
        None
    );
}

#[test]
fn test_reward_beyond_u64_budget_is_refused() {
    let (mut storage, admin, token_address, charity_address) = create_test_contract();
    construct(&mut storage, admin, token_address, charity_address, 5, 50);
    register(&mut storage, 100, Role::Recycler, "S", 0, 0);
    register(&mut storage, 103, Role::Manufacturer, "M", 0, 0);
    // 2^32 points per kg times 2^32 kg is 2^64 points, more than any u64 budget
    let m = ok(ScavengerContract::submit_material(&mut storage, 100, WasteType::Metal, (1u64 << 32) * 1000, 0));
    let inc = incentive(&mut storage, 103, WasteType::Metal, 1u64 << 32, u64::MAX);
    verify(&mut storage, m.id);
    assert_eq!(
        ScavengerContract::distribute_rewards(&mut storage, m.id, inc.id, 103),
        Err(ScavengerError::InsufficientBudget)
    );
    assert_eq!(ScavengerContract::get_incentive_by_id(&storage, inc.id).unwrap().remaining_budget, u64::MAX);
    assert_eq!(ScavengerContract::get_total_earned(&storage), 0);
}

// ----- updating incentives -----

fn update_setup() -> (Storage, u64) {
    let (mut storage, admin, token_address, charity_address) = create_test_contract();
    construct(&mut storage, admin, token_address, charity_address, 5, 50);
    let manufacturer: u64 = 100;
    register(&mut storage, manufacturer, Role::Manufacturer, "Test Manufacturer", 1000000, 2000000);
    (storage, manufacturer)
}

#[test]
fn test_update_incentive_success() {
    let (mut storage, manufacturer) = update_setup();
    let inc = incentive(&mut storage, manufacturer, WasteType::Paper, 100, 5000);
    assert_eq!(inc.reward_points, 100);
    assert_eq!(inc.total_budget, 5000);
    assert_eq!(inc.remaining_budget, 5000);
    let updated = ok(ScavengerContract::update_incentive(&mut storage, inc.id, 200, 10000));
    assert_eq!(updated.reward_points, 200);
    assert_eq!(updated.total_budget, 10000);
    assert_eq!(updated.remaining_budget, 10000);
    assert_eq!(updated.id, inc.id);
    assert_eq!(updated.waste_type, inc.waste_type);
    assert_eq!(updated.rewarder, inc.rewarder);
    assert_eq!(updated.active, inc.active);
    assert_eq!(updated.created_at, inc.created_at);
    let retrieved = ScavengerContract::get_incentive_by_id(&storage, inc.id).unwrap();
    assert_eq!(retrieved.reward_points, 200);
    assert_eq!(retrieved.total_budget, 10000);
}

#[test]
#[should_panic(expected = "Incentive not found")]
fn test_update_incentive_not_found() {
    let (mut storage, _manufacturer) = update_setup();
    ok(ScavengerContract::update_incentive(&mut storage, 999, 100, 5000));
}

#[test]
#[should_panic(expected = "Reward must be greater than zero")]
fn test_update_incentive_zero_reward() {
    let (mut storage, manufacturer) = update_setup();
    let inc = incentive(&mut storage, manufacturer, WasteType::Paper, 100, 5000);
    ok(ScavengerContract::update_incentive(&mut storage, inc.id, 0, 5000));
}

#[test]
#[should_panic(expected = "Total budget must be greater than zero")]
fn test_update_incentive_zero_budget() {
    let (mut storage, manufacturer) = update_setup();
    let inc = incentive(&mut storage, manufacturer, WasteType::Paper, 100, 5000);
    ok(ScavengerContract::update_incentive(&mut storage, inc.id, 100, 0));
}

#[test]
fn test_update_incentive_minimum_values() {
    let (mut storage, manufacturer) = update_setup();
    let inc = incentive(&mut storage, manufacturer, WasteType::Paper, 100, 5000);
    let updated = ok(ScavengerContract::update_incentive(&mut storage, inc.id, 1, 1));
    assert_eq!(updated.reward_points, 1);
    assert_eq!(updated.total_budget, 1);
}

#[test]
fn test_update_incentive_multiple_times() {
    let (mut storage, manufacturer) = update_setup();
    let inc = incentive(&mut storage, manufacturer, WasteType::Paper, 100, 5000);
    let updated1 = ok(ScavengerContract::update_incentive(&mut storage, inc.id, 200, 10000));
    assert_eq!(updated1.reward_points, 200);
    assert_eq!(updated1.total_budget, 10000);
    let updated2 = ok(ScavengerContract::update_incentive(&mut storage, inc.id, 300, 15000));
    assert_eq!(updated2.reward_points, 300);
    assert_eq!(updated2.total_budget, 15000);
    let updated3 = ok(ScavengerContract::update_incentive(&mut storage, inc.id, 400, 20000));
    assert_eq!(updated3.reward_points, 400);
    assert_eq!(updated3.total_budget, 20000);
}

#[test]
fn test_update_incentive_with_partial_budget_used() {
    let (mut storage, manufacturer) = update_setup();
    let inc = incentive(&mut storage, manufacturer, WasteType::Paper, 100, 5000);
    let updated = ok(ScavengerContract::update_incentive(&mut storage, inc.id, 150, 8000));
    assert_eq!(updated.reward_points, 150);
    assert_eq!(updated.total_budget, 8000);
    assert_eq!(updated.remaining_budget, 8000);
}

#[test]
fn update_after_spending_keeps_what_was_spent() {
    let (mut storage, manufacturer) = update_setup();
    register(&mut storage, 200, Role::Recycler, "S", 0, 0);
    let m = ok(ScavengerContract::submit_material(&mut storage, 200, WasteType::Paper, 5000, 0));
    let inc = incentive(&mut storage, manufacturer, WasteType::Paper, 100, 1000);
    verify(&mut storage, m.id);
    ok(ScavengerContract::distribute_rewards(&mut storage, m.id, inc.id, manufacturer));
    // 500 of 1000 spent
    let raised = ok(ScavengerContract::update_incentive(&mut storage, inc.id, 100, 2000));
    assert_eq!(raised.remaining_budget, 1500);
    assert!(raised.active);
    // a total equal to what was spent leaves nothing but keeps the incentive active
    let exact = ok(ScavengerContract::update_incentive(&mut storage, inc.id, 100, 500));
    assert_eq!(exact.remaining_budget, 0);
    assert!(exact.active);
    // a total below what was spent leaves nothing and deactivates
    let lowered = ok(ScavengerContract::update_incentive(&mut storage, inc.id, 100, 400));
    assert_eq!(lowered.remaining_budget, 0);
    assert!(!lowered.active);
    assert_eq!(
        ScavengerContract::update_incentive(&mut storage, inc.id, 100, 9000),
        Err(ScavengerError::UpdateInactiveIncentive)
    );
}
