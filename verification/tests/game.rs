use ac_trainer::attach::{starts_worker, DLL_PROCESS_ATTACH};
use ac_trainer::trainer::{
    entity_list_pointer_address, entity_name, entity_slot_addresses, field_offset,
    local_player_field, name_address, other_players, plan_health_tick, plan_lift, plan_refill,
    player_count_address, player_name, PlayerAddresses,
    PlayerField, TickStep, WriteValue, HEALTH_VALUE, LIFTED_POSITION_X_BITS,
    LIFTED_POSITION_Y_BITS,
};

fn addresses() -> PlayerAddresses {
    PlayerAddresses {
        health: 0x100,
        rifle_ammo: 0x200,
        pistol_ammo: 0x300,
        grenades: 0x400,
        position_x: 0x500,
        position_y: 0x600,
        on_floor: 0x700,
        lift_field: 0x800,
    }
}

#[test]
fn other_players_excludes_the_local_player() {
    assert_eq!(other_players(5), 4);
    assert_eq!(other_players(1), 0);
    assert_eq!(other_players(0), 0);
    assert_eq!(other_players(-7), 0);
    assert_eq!(other_players(i32::MAX), (i32::MAX - 1) as usize);
}

#[test]
fn entity_slots_skip_slot_zero() {
    assert_eq!(entity_slot_addresses(0x1000, 3), vec![0x1004, 0x1008, 0x100C]);
    assert_eq!(entity_slot_addresses(0x1000, 0), Vec::<usize>::new());
}

#[test]
fn module_relative_addresses() {
    assert_eq!(player_count_address(0x400000), 0x400000 + 0x18AC0C);
    assert_eq!(entity_list_pointer_address(0x400000), 0x400000 + 0x18AC04);
}

#[test]
fn field_offsets() {
    assert_eq!(field_offset(PlayerField::Health), 0xEC);
    assert_eq!(field_offset(PlayerField::RifleAmmo), 0x140);
    assert_eq!(field_offset(PlayerField::PistolAmmo), 0x12C);
    assert_eq!(field_offset(PlayerField::Grenades), 0x144);
    assert_eq!(field_offset(PlayerField::PositionX), 0x4);
    assert_eq!(field_offset(PlayerField::PositionY), 0xC);
    assert_eq!(field_offset(PlayerField::OnFloor), 0x5D);
    assert_eq!(field_offset(PlayerField::Something), 0x150);
    assert_eq!(field_offset(PlayerField::Something2), 0x164);
    assert_eq!(field_offset(PlayerField::LiftField), 0x24);
}

#[test]
fn local_player_health_chain() {
    let mut walk = local_player_field(0x400000, PlayerField::Health);
    assert_eq!(walk.next_read(), Some(0x400000 + 0x0017E0A8));
    walk.supply(0x901D70);
    assert_eq!(walk.next_read(), None);
    assert_eq!(walk.current(), 0x901D70 + 0xEC);
}

#[test]
fn entity_name_chain() {
    let mut walk = entity_name(0x1004);
    assert_eq!(walk.next_read(), Some(0x1004));
    walk.supply(0x7000);
    assert_eq!(walk.current(), 0x7205);
}

#[test]
fn tick_without_ctrl_only_refills() {
    let mut steps = plan_refill(&addresses());
    steps.extend(plan_lift(&addresses(), 0));
    assert_eq!(
        steps,
        vec![
            TickStep::Write { address: 0x100, value: WriteValue::Int(HEALTH_VALUE) },
            TickStep::Write { address: 0x200, value: WriteValue::Int(123) },
            TickStep::Write { address: 0x300, value: WriteValue::Int(123) },
            TickStep::Write { address: 0x400, value: WriteValue::Int(100) },
        ]
    );
    assert_eq!(HEALTH_VALUE, 69696969);
    assert_eq!(plan_lift(&addresses(), 1), Vec::new());
}

#[test]
fn tick_with_ctrl_lifts_the_player() {
    // GetKeyState reports a held key with the high bit set.
    let mut steps = plan_refill(&addresses());
    steps.extend(plan_lift(&addresses(), i16::MIN | 1));
    assert_eq!(steps.len(), 9);
    assert_eq!(steps[4], TickStep::ReportFloat { address: 0x600 });
    assert_eq!(steps[5], TickStep::Write { address: 0x700, value: WriteValue::Int(0) });
    assert_eq!(
        steps[6],
        TickStep::Write { address: 0x600, value: WriteValue::FloatBits(LIFTED_POSITION_Y_BITS) }
    );
    assert_eq!(
        steps[7],
        TickStep::Write { address: 0x500, value: WriteValue::FloatBits(LIFTED_POSITION_X_BITS) }
    );
    assert_eq!(steps[8], TickStep::Write { address: 0x800, value: WriteValue::Int(1000000) });
}

#[test]
fn lifted_positions_are_the_float_values() {
    assert_eq!(f32::from_bits(LIFTED_POSITION_Y_BITS), 10.0_f32);
    assert_eq!(f32::from_bits(LIFTED_POSITION_X_BITS), 200.0_f32);
}

#[test]
fn worker_starts_only_on_process_attach() {
    assert!(starts_worker(DLL_PROCESS_ATTACH));
    assert!(!starts_worker(0));
    assert!(!starts_worker(2));
    assert!(!starts_worker(3));
}

#[test]
fn name_address_keeps_the_low_32_bits() {
    let mut walk = entity_name(0x1004);
    walk.supply(0x7000);
    assert_eq!(name_address(&walk), 0x7205);
    if usize::BITS == 64 {
        let mut walk = entity_name(0x1004);
        walk.supply((0x1_2345_0000u64) as usize);
        assert_eq!(name_address(&walk), 0x2345_0205);
    }
}

#[test]
fn player_name_stops_at_nul_and_decodes() {
    let mut buffer = [0u8; 256];
    buffer[..5].copy_from_slice(b"Alice");
    buffer[6] = b'x';
    assert_eq!(player_name(&buffer), "Alice");
    let mut buffer = [0u8; 256];
    buffer[..3].copy_from_slice(&[b'B', 0xFF, b'b']);
    assert_eq!(player_name(&buffer), "B\u{FFFD}b");
}

#[test]
fn health_only_tick() {
    assert_eq!(
        plan_health_tick(0x901E5C),
        vec![TickStep::Write { address: 0x901E5C, value: WriteValue::Int(69696969) }]
    );
}
