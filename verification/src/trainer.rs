//! The game's memory layout and the decisions the tool makes on it: where
//! each field of the local player lives, how many other players a match
//! has, where their entity slots are, and what is written on every tick.
use vstd::prelude::*;
use vstd::utf8::{decode_utf8, valid_utf8};
use crate::chain::{address_after, answers_from, lemma_walk_follows_chain, PointerWalk, WalkStyle};
use crate::cstr::{c_str, until_nul};

verus! {

/// Offset from the module base of the pointer to the local player.
pub const LOCAL_PLAYER_OFFSET: usize = 0x0017E0A8;
/// Offset of the X position from the local player.
pub const POSITION_X_FROM_LOCAL_PLAYER: usize = 0x4;
/// Offset of the Y position from the local player.
pub const POSITION_Y_FROM_LOCAL_PLAYER: usize = 0xC;
/// Offset of an unnamed field of the local player.
pub const SOMETHING_FROM_LOCAL_PLAYER: usize = 0x150;
/// Offset of a second unnamed field of the local player.
pub const SOMETHING_FROM_LOCAL_PLAYER_2: usize = 0x164;
/// Offset of a third unnamed field of the local player.
pub const SOMETHING_FROM_LOCAL_PLAYER_3: usize = 0x64;
/// Offset of the field that is overwritten along with the position.
pub const LIFT_FIELD_FROM_LOCAL_PLAYER: usize = 0x24;
/// Offset of the "standing on the floor" flag from the local player.
pub const IS_PLAYER_ON_THE_FLOOR_FROM_LOCAL_PLAYER: usize = 0x5D;
/// Offset of the health from the local player.
pub const HEALTH_OFFSET_FROM_LOCAL_PLAYER: usize = 0xEC;
/// Offset of the rifle ammunition from the local player.
pub const RIFFLE_AMMO_OFFSET_FROM_LOCAL_PLAYER: usize = 0x140;
/// Offset of the pistol ammunition from the local player.
pub const PISTOL_AMMO_OFFSET_FROM_LOCAL_PLAYER: usize = 0x12C;
/// Offset of the grenade count from the local player.
pub const GRENADE_OFFSET_FROM_LOCAL_PLAYER: usize = 0x144;
/// Offset from the module base of the pointer to the entity list.
pub const ENTITY_LIST_OFFSET: usize = 0x18AC04;
/// Offset of the name from an entity.
pub const NAME_OFFSET: usize = 0x205;
/// Offset from the module base of the number of players in the match.
pub const NUMBER_OF_PLAYERS_IN_MATCH_OFFSET: usize = 0x18AC0C;
/// Size of one entity slot (a 32-bit pointer).
pub const ENTITY_SLOT_SIZE: usize = 0x4;

/// Virtual-key code of the Ctrl key.
pub const CTRL_KEY: i32 = 0x11;
/// Pause between two ticks, in milliseconds.
pub const TICK_INTERVAL_MS: u64 = 100;
/// Health written on every tick.
pub const HEALTH_VALUE: i32 = 69696969;
/// Rifle and pistol ammunition written on every tick.
pub const AMMO_VALUE: i32 = 123;
/// Grenade count written on every tick.
pub const GRENADE_VALUE: i32 = 100;
/// "Standing on the floor" flag written while Ctrl is held.
pub const ON_FLOOR_VALUE: i32 = 0;
/// Y position written while Ctrl is held: the IEEE-754 bits of 10.0.
pub const LIFTED_POSITION_Y_BITS: u32 = 0x4120_0000;
/// X position written while Ctrl is held: the IEEE-754 bits of 200.0.
pub const LIFTED_POSITION_X_BITS: u32 = 0x4348_0000;
/// Value written to the lift field while Ctrl is held.
pub const LIFT_FIELD_VALUE: i32 = 1000000;

/// A field of the local player.
#[derive(Clone, Copy, PartialEq, Eq, Structural, Debug)]
pub enum PlayerField {
    Health,
    RifleAmmo,
    PistolAmmo,
    Grenades,
    PositionX,
    PositionY,
    OnFloor,
    Something,
    Something2,
    LiftField,
}

/// Offset of `field` from the local player.
pub open spec fn field_offset_of(field: PlayerField) -> usize {
    match field {
        PlayerField::Health => HEALTH_OFFSET_FROM_LOCAL_PLAYER,
        PlayerField::RifleAmmo => RIFFLE_AMMO_OFFSET_FROM_LOCAL_PLAYER,
        PlayerField::PistolAmmo => PISTOL_AMMO_OFFSET_FROM_LOCAL_PLAYER,
        PlayerField::Grenades => GRENADE_OFFSET_FROM_LOCAL_PLAYER,
        PlayerField::PositionX => POSITION_X_FROM_LOCAL_PLAYER,
        PlayerField::PositionY => POSITION_Y_FROM_LOCAL_PLAYER,
        PlayerField::OnFloor => IS_PLAYER_ON_THE_FLOOR_FROM_LOCAL_PLAYER,
        PlayerField::Something => SOMETHING_FROM_LOCAL_PLAYER,
        PlayerField::Something2 => SOMETHING_FROM_LOCAL_PLAYER_2,
        PlayerField::LiftField => LIFT_FIELD_FROM_LOCAL_PLAYER,
    }
}

/// Offset of `field` from the local player.
pub fn field_offset(field: PlayerField) -> (r: usize)
    ensures
        r == field_offset_of(field),
{
    match field {
        PlayerField::Health => HEALTH_OFFSET_FROM_LOCAL_PLAYER,
        PlayerField::RifleAmmo => RIFFLE_AMMO_OFFSET_FROM_LOCAL_PLAYER,
        PlayerField::PistolAmmo => PISTOL_AMMO_OFFSET_FROM_LOCAL_PLAYER,
        PlayerField::Grenades => GRENADE_OFFSET_FROM_LOCAL_PLAYER,
        PlayerField::PositionX => POSITION_X_FROM_LOCAL_PLAYER,
        PlayerField::PositionY => POSITION_Y_FROM_LOCAL_PLAYER,
        PlayerField::OnFloor => IS_PLAYER_ON_THE_FLOOR_FROM_LOCAL_PLAYER,
        PlayerField::Something => SOMETHING_FROM_LOCAL_PLAYER,
        PlayerField::Something2 => SOMETHING_FROM_LOCAL_PLAYER_2,
        PlayerField::LiftField => LIFT_FIELD_FROM_LOCAL_PLAYER,
    }
}

/// The chain to the address of `field`: read the local player pointer
/// stored at `module_base + LOCAL_PLAYER_OFFSET`, then add the field's
/// offset.
pub fn local_player_field(module_base: usize, field: PlayerField) -> (walk: PointerWalk)
    requires
        module_base + LOCAL_PLAYER_OFFSET <= usize::MAX,
    ensures
        walk.wf(),
        walk.walk_style() == WalkStyle::ReadThenAdd,
        walk.origin() == module_base + LOCAL_PLAYER_OFFSET,
        walk.offset_list() == seq![field_offset_of(field)],
        walk.values() == Seq::<usize>::empty(),
{
    let mut offsets: Vec<usize> = Vec::new();
    offsets.push(field_offset(field));
    assert(offsets@ =~= seq![field_offset_of(field)]);
    PointerWalk::read_then_add(module_base + LOCAL_PLAYER_OFFSET, offsets)
}

/// Address of the number of players in the match.
pub fn player_count_address(module_base: usize) -> (r: usize)
    requires
        module_base + NUMBER_OF_PLAYERS_IN_MATCH_OFFSET <= usize::MAX,
    ensures
        r == module_base + NUMBER_OF_PLAYERS_IN_MATCH_OFFSET,
{
    module_base + NUMBER_OF_PLAYERS_IN_MATCH_OFFSET
}

/// Address of the pointer to the entity list.
pub fn entity_list_pointer_address(module_base: usize) -> (r: usize)
    requires
        module_base + ENTITY_LIST_OFFSET <= usize::MAX,
    ensures
        r == module_base + ENTITY_LIST_OFFSET,
{
    module_base + ENTITY_LIST_OFFSET
}

/// Players in the match besides the local one: the count read from the
/// game less one, and none when the count is not positive.
pub fn other_players(count: i32) -> (r: usize)
    ensures
        r == (if count > 0 { count - 1 } else { 0 }),
{
    if count > 0 {
        (count - 1) as usize
    } else {
        0
    }
}

/// Address of entity slot `slot` of the list at `list_address` (read from
/// the game as a 32-bit value and widened as an `i32` is cast to `usize`).
pub open spec fn slot_address(list_address: i32, slot: int) -> int {
    (list_address as usize) + slot * (ENTITY_SLOT_SIZE as int)
}

/// The slot addresses of a list are the whole list address, widened as an
/// `i32` is cast to `usize`, plus 4 bytes per slot: slot 0 is the list
/// address itself (a non-negative list address unchanged), and each slot
/// lies 4 bytes past the one before.
pub proof fn lemma_slot_address(list_address: i32, slot: int)
    ensures
        slot_address(list_address, 0) == list_address as usize,
        list_address >= 0 ==> slot_address(list_address, slot) == list_address + 4 * slot,
        slot_address(list_address, slot + 1) == slot_address(list_address, slot) + 4,
        slot_address(list_address, slot) == (list_address as usize) + 4 * slot,
{
}

/// Addresses of the entity slots of the other players: slots 1 to
/// `players`, slot 0 being always empty.
pub fn entity_slot_addresses(list_address: i32, players: usize) -> (slots: Vec<usize>)
    requires
        slot_address(list_address, players as int) <= usize::MAX,
    ensures
        slots@.len() == players,
        forall|i: int| 0 <= i < players ==> #[trigger] slots@[i] == slot_address(list_address, i + 1),
        forall|i: int| 0 <= i < players ==> #[trigger] slots@[i] == (list_address as usize) + (i + 1) * 4,
        players > 0 ==> slots@[0] == (list_address as usize) + 4,
        players > 0 && list_address >= 0 ==> slots@[0] == list_address + 4,
        forall|i: int| 0 < i < players ==> #[trigger] slots@[i] == slots@[i - 1] + 4,
{
    let base = list_address as usize;
    let mut slots: Vec<usize> = Vec::new();
    let mut i: usize = 1;
    while i <= players
        invariant
            1 <= i <= players + 1,
            base == list_address as usize,
            slot_address(list_address, players as int) <= usize::MAX,
            slots@.len() == i - 1,
            forall|j: int| 0 <= j < i - 1 ==> #[trigger] slots@[j] == slot_address(list_address, j + 1),
        decreases players + 1 - i,
    {
        slots.push(base + i * ENTITY_SLOT_SIZE);
        i = i + 1;
    }
    slots
}

/// The chain to the name of the entity in the slot at `slot_address`: read
/// the entity pointer stored in the slot, then add `NAME_OFFSET`.
pub fn entity_name(slot_address: usize) -> (walk: PointerWalk)
    ensures
        walk.wf(),
        walk.walk_style() == WalkStyle::ReadThenAdd,
        walk.origin() == slot_address,
        walk.offset_list() == seq![NAME_OFFSET],
        walk.values() == Seq::<usize>::empty(),
{
    let mut offsets: Vec<usize> = Vec::new();
    offsets.push(NAME_OFFSET);
    assert(offsets@ =~= seq![NAME_OFFSET]);
    PointerWalk::read_then_add(slot_address, offsets)
}

/// Where the name of an entity is read: the end of its name chain (see
/// `entity_name`), cut to its low 32 bits.
pub fn name_address(walk: &PointerWalk) -> (r: u32)
    requires
        walk.wf(),
    ensures
        r == walk.address() as u32,
{
    walk.current() as u32
}

/// The address a name is read from when memory holds `mem`: the pointer in
/// the slot plus `NAME_OFFSET`, cut to 32 bits.
pub open spec fn entity_name_address(mem: spec_fn(int) -> usize, slot_address: int) -> u32 {
    (mem(slot_address) + NAME_OFFSET) as u32
}

/// The name chain of a slot, each read answered from `mem`, makes exactly one
/// read, of the slot itself, and ends at the slot's pointer plus
/// `NAME_OFFSET`; cut to 32 bits that is `entity_name_address`.
pub proof fn lemma_entity_name_chain(mem: spec_fn(int) -> usize, slot_address: usize)
    ensures
        ({
            let offsets = seq![NAME_OFFSET];
            let values = answers_from(WalkStyle::ReadThenAdd, mem, slot_address as int, offsets, 1);
            let end = address_after(WalkStyle::ReadThenAdd, slot_address as int, offsets, values);
            &&& values == seq![mem(slot_address as int)]
            &&& end == mem(slot_address as int) + NAME_OFFSET
            &&& end as u32 == entity_name_address(mem, slot_address as int)
        }),
{
    let offsets = seq![NAME_OFFSET];
    lemma_walk_follows_chain(WalkStyle::ReadThenAdd, mem, slot_address as int, offsets);
    let values = answers_from(WalkStyle::ReadThenAdd, mem, slot_address as int, offsets, 1);
    let none = answers_from(WalkStyle::ReadThenAdd, mem, slot_address as int, offsets, 0);
    assert(none =~= Seq::<usize>::empty());
    assert(values =~= seq![mem(slot_address as int)]);
}

/// The text `String::from_utf8_lossy` makes of `bytes`: the characters the
/// bytes encode, each invalid sequence replaced by U+FFFD.
pub uninterp spec fn lossy_decode(bytes: Seq<u8>) -> Seq<char>;

/// Decodes `bytes` with `String::from_utf8_lossy`.
/// Trusted: the result is `lossy_decode` of the bytes, which depends on them
/// alone, and valid UTF-8 comes back as the characters it encodes.
#[verifier::external_body]
fn lossy_utf8(bytes: Vec<u8>) -> (r: String)
    ensures
        r@ == lossy_decode(bytes@),
        valid_utf8(bytes@) ==> r@ == decode_utf8(bytes@),
{
    String::from_utf8_lossy(&bytes).into_owned()
}

/// The name held in an entity's name buffer, up to its first NUL byte, as
/// text (invalid UTF-8 sequences shown as U+FFFD).
pub fn player_name(buffer: &[u8]) -> (name: String)
    ensures
        name@ == lossy_decode(c_str(buffer@)),
        valid_utf8(c_str(buffer@)) ==> name@ == decode_utf8(c_str(buffer@)),
{
    lossy_utf8(until_nul(buffer))
}

/// The addresses of the local player's fields that a tick touches.
#[derive(Clone, Copy, PartialEq, Eq, Structural, Debug)]
pub struct PlayerAddresses {
    pub health: usize,
    pub rifle_ammo: usize,
    pub pistol_ammo: usize,
    pub grenades: usize,
    pub position_x: usize,
    pub position_y: usize,
    pub on_floor: usize,
    pub lift_field: usize,
}

/// A 32-bit value to write.
#[derive(Clone, Copy, PartialEq, Eq, Structural, Debug)]
pub enum WriteValue {
    /// A signed integer.
    Int(i32),
    /// A single-precision float, by its IEEE-754 bits.
    FloatBits(u32),
}

/// One memory operation of a tick, in the order they are made.
#[derive(Clone, Copy, PartialEq, Eq, Structural, Debug)]
pub enum TickStep {
    /// Write `value` at `address`.
    Write { address: usize, value: WriteValue },
    /// Read the float at `address` and report it.
    ReportFloat { address: usize },
}

/// The writes that start every tick: health, rifle and pistol ammunition,
/// and grenades are refilled, in that order.
pub open spec fn refill_steps(a: PlayerAddresses) -> Seq<TickStep> {
    seq![
        TickStep::Write { address: a.health, value: WriteValue::Int(HEALTH_VALUE) },
        TickStep::Write { address: a.rifle_ammo, value: WriteValue::Int(AMMO_VALUE) },
        TickStep::Write { address: a.pistol_ammo, value: WriteValue::Int(AMMO_VALUE) },
        TickStep::Write { address: a.grenades, value: WriteValue::Int(GRENADE_VALUE) },
    ]
}

/// What follows the refill, with `key_state` the state the Ctrl key reports
/// once the refill is written (held when negative): while Ctrl is held the
/// current Y position is reported, then the player is lifted and moved;
/// otherwise nothing.
pub open spec fn lift_steps(a: PlayerAddresses, key_state: i16) -> Seq<TickStep> {
    if key_state < 0 {
        seq![
            TickStep::ReportFloat { address: a.position_y },
            TickStep::Write { address: a.on_floor, value: WriteValue::Int(ON_FLOOR_VALUE) },
            TickStep::Write {
                address: a.position_y,
                value: WriteValue::FloatBits(LIFTED_POSITION_Y_BITS),
            },
            TickStep::Write {
                address: a.position_x,
                value: WriteValue::FloatBits(LIFTED_POSITION_X_BITS),
            },
            TickStep::Write { address: a.lift_field, value: WriteValue::Int(LIFT_FIELD_VALUE) },
        ]
    } else {
        Seq::empty()
    }
}

/// The steps of one whole tick for the player at `a`.
pub open spec fn tick_steps(a: PlayerAddresses, key_state: i16) -> Seq<TickStep> {
    refill_steps(a) + lift_steps(a, key_state)
}

/// The refill writes that start a tick; the Ctrl key is looked at only
/// after they are made.
pub fn plan_refill(a: &PlayerAddresses) -> (steps: Vec<TickStep>)
    ensures
        steps@ == refill_steps(*a),
        steps@.len() == 4,
        steps@[0] == (TickStep::Write { address: a.health, value: WriteValue::Int(69696969) }),
        steps@[1] == (TickStep::Write { address: a.rifle_ammo, value: WriteValue::Int(123) }),
        steps@[2] == (TickStep::Write { address: a.pistol_ammo, value: WriteValue::Int(123) }),
        steps@[3] == (TickStep::Write { address: a.grenades, value: WriteValue::Int(100) }),
{
    let mut steps: Vec<TickStep> = Vec::new();
    steps.push(TickStep::Write { address: a.health, value: WriteValue::Int(HEALTH_VALUE) });
    steps.push(TickStep::Write { address: a.rifle_ammo, value: WriteValue::Int(AMMO_VALUE) });
    steps.push(TickStep::Write { address: a.pistol_ammo, value: WriteValue::Int(AMMO_VALUE) });
    steps.push(TickStep::Write { address: a.grenades, value: WriteValue::Int(GRENADE_VALUE) });
    assert(steps@ =~= refill_steps(*a));
    steps
}

/// The rest of a tick, given the state the Ctrl key reports after the
/// refill.
pub fn plan_lift(a: &PlayerAddresses, key_state: i16) -> (steps: Vec<TickStep>)
    ensures
        steps@ == lift_steps(*a, key_state),
        key_state >= 0 ==> steps@.len() == 0,
        key_state < 0 ==> {
            &&& steps@.len() == 5
            &&& steps@[0] == (TickStep::ReportFloat { address: a.position_y })
            &&& steps@[1] == (TickStep::Write { address: a.on_floor, value: WriteValue::Int(0) })
            &&& steps@[2] == (TickStep::Write {
                address: a.position_y,
                value: WriteValue::FloatBits(0x4120_0000),
            })
            &&& steps@[3] == (TickStep::Write {
                address: a.position_x,
                value: WriteValue::FloatBits(0x4348_0000),
            })
            &&& steps@[4] == (TickStep::Write {
                address: a.lift_field,
                value: WriteValue::Int(1000000),
            })
        },
{
    let mut steps: Vec<TickStep> = Vec::new();
    if key_state < 0 {
        steps.push(TickStep::ReportFloat { address: a.position_y });
        steps.push(TickStep::Write { address: a.on_floor, value: WriteValue::Int(ON_FLOOR_VALUE) });
        steps.push(
            TickStep::Write {
                address: a.position_y,
                value: WriteValue::FloatBits(LIFTED_POSITION_Y_BITS),
            },
        );
        steps.push(
            TickStep::Write {
                address: a.position_x,
                value: WriteValue::FloatBits(LIFTED_POSITION_X_BITS),
            },
        );
        steps.push(TickStep::Write { address: a.lift_field, value: WriteValue::Int(LIFT_FIELD_VALUE) });
    }
    assert(steps@ =~= lift_steps(*a, key_state));
    steps
}

/// The memory operations of one tick of the health-only loop: the health
/// at `health` is refilled, nothing else.
pub fn plan_health_tick(health: usize) -> (steps: Vec<TickStep>)
    ensures
        steps@ == seq![TickStep::Write { address: health, value: WriteValue::Int(HEALTH_VALUE) }],
{
    let mut steps: Vec<TickStep> = Vec::new();
    steps.push(TickStep::Write { address: health, value: WriteValue::Int(HEALTH_VALUE) });
    assert(steps@ =~= seq![TickStep::Write { address: health, value: WriteValue::Int(HEALTH_VALUE) }]);
    steps
}

/// While Ctrl is held, a tick after its refill reports the Y position, then
/// clears the on-floor flag, writes 10.0 (IEEE-754 0x4120_0000) to the Y
/// position and 200.0 (0x4348_0000) to the X position, whatever the
/// addresses, then sets the lift field; each write goes to the address of
/// the field it is named for. Without Ctrl nothing follows the refill.
pub proof fn lemma_lift_writes_each_field(a: PlayerAddresses, key_state: i16)
    ensures
        key_state >= 0 ==> lift_steps(a, key_state).len() == 0,
        key_state < 0 ==> {
            let s = lift_steps(a, key_state);
            &&& s.len() == 5
            &&& s[0] == (TickStep::ReportFloat { address: a.position_y })
            &&& s[1] == (TickStep::Write { address: a.on_floor, value: WriteValue::Int(0) })
            &&& s[2] == (TickStep::Write {
                address: a.position_y,
                value: WriteValue::FloatBits(0x4120_0000),
            })
            &&& s[3] == (TickStep::Write {
                address: a.position_x,
                value: WriteValue::FloatBits(0x4348_0000),
            })
            &&& s[4] == (TickStep::Write { address: a.lift_field, value: WriteValue::Int(1000000) })
        },
        forall|i: int|
            0 <= i < lift_steps(a, key_state).len() ==> match #[trigger] lift_steps(a, key_state)[i] {
                TickStep::Write { address, value: WriteValue::FloatBits(bits) } => (address
                    == a.position_y && bits == 0x4120_0000) || (address == a.position_x && bits
                    == 0x4348_0000),
                _ => true,
            },
{
}

/// Every tick starts by refilling health, both ammunitions and grenades, in
/// that order; without Ctrl held that is all it does, and with Ctrl held it
/// reports the Y position before any write that moves the player.
pub proof fn lemma_tick_refills_first(a: PlayerAddresses, key_state: i16)
    ensures
        tick_steps(a, key_state).len() >= 4,
        tick_steps(a, key_state)[0] == (TickStep::Write {
            address: a.health,
            value: WriteValue::Int(HEALTH_VALUE),
        }),
        tick_steps(a, key_state)[1] == (TickStep::Write {
            address: a.rifle_ammo,
            value: WriteValue::Int(AMMO_VALUE),
        }),
        tick_steps(a, key_state)[2] == (TickStep::Write {
            address: a.pistol_ammo,
            value: WriteValue::Int(AMMO_VALUE),
        }),
        tick_steps(a, key_state)[3] == (TickStep::Write {
            address: a.grenades,
            value: WriteValue::Int(GRENADE_VALUE),
        }),
        key_state >= 0 ==> tick_steps(a, key_state).len() == 4,
        key_state < 0 ==> tick_steps(a, key_state).len() == 9 && tick_steps(a, key_state)[4]
            == (TickStep::ReportFloat { address: a.position_y }),
{
}

} // verus!
