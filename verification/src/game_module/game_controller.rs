use vstd::prelude::*;
use crate::game_module::actors::items::api::ItemDataType;
use crate::game_module::text::str_equals;

verus! {

/// The way the quick slot selection moves.
#[derive(Clone, Copy, Debug, PartialEq, Eq, Structural)]
pub enum QuickSlotNavDirection {
    Previous,
    Next,
}

/// The actions a key or button can be bound to, as the controls help lists
/// them.
#[derive(Clone, Copy, Debug, PartialEq, Eq, Hash, Structural)]
pub enum KeyBindingType {
    Nothing,
    Help,
    Attack,
    PowerAttack,
    Interaction,
    Request,
    EnterGate,
    Gathering,
    Taming,
    Farming,
    CameraRotation,
    Zoom,
    Move,
    Sprint,
    Jump,
    Roll,
    SelectPrevItem,
    SelectNextItem,
    SelectItem01,
    SelectItem02,
    SelectItem03,
    SelectItem04,
    SelectItem05,
    SelectItem06,
    SelectItem07,
    SelectItem08,
    SelectItem09,
    SelectItem10,
}

/// How many key bindings there are.
pub const KEY_BINDING_COUNT: usize = 28;

/// The name of a key binding: the name of its variant, with `None` for no
/// binding.
pub open spec fn key_binding_name(k: KeyBindingType) -> Seq<char> {
    match k {
        KeyBindingType::Nothing => "None"@,
        KeyBindingType::Help => "Help"@,
        KeyBindingType::Attack => "Attack"@,
        KeyBindingType::PowerAttack => "PowerAttack"@,
        KeyBindingType::Interaction => "Interaction"@,
        KeyBindingType::Request => "Request"@,
        KeyBindingType::EnterGate => "EnterGate"@,
        KeyBindingType::Gathering => "Gathering"@,
        KeyBindingType::Taming => "Taming"@,
        KeyBindingType::Farming => "Farming"@,
        KeyBindingType::CameraRotation => "CameraRotation"@,
        KeyBindingType::Zoom => "Zoom"@,
        KeyBindingType::Move => "Move"@,
        KeyBindingType::Sprint => "Sprint"@,
        KeyBindingType::Jump => "Jump"@,
        KeyBindingType::Roll => "Roll"@,
        KeyBindingType::SelectPrevItem => "SelectPrevItem"@,
        KeyBindingType::SelectNextItem => "SelectNextItem"@,
        KeyBindingType::SelectItem01 => "SelectItem01"@,
        KeyBindingType::SelectItem02 => "SelectItem02"@,
        KeyBindingType::SelectItem03 => "SelectItem03"@,
        KeyBindingType::SelectItem04 => "SelectItem04"@,
        KeyBindingType::SelectItem05 => "SelectItem05"@,
        KeyBindingType::SelectItem06 => "SelectItem06"@,
        KeyBindingType::SelectItem07 => "SelectItem07"@,
        KeyBindingType::SelectItem08 => "SelectItem08"@,
        KeyBindingType::SelectItem09 => "SelectItem09"@,
        KeyBindingType::SelectItem10 => "SelectItem10"@,
    }
}

/// The key binding at a position of the list, in declaration order.
pub open spec fn key_binding_at(i: int) -> KeyBindingType {
    if i == 0 {
        KeyBindingType::Nothing
    } else if i == 1 {
        KeyBindingType::Help
    } else if i == 2 {
        KeyBindingType::Attack
    } else if i == 3 {
        KeyBindingType::PowerAttack
    } else if i == 4 {
        KeyBindingType::Interaction
    } else if i == 5 {
        KeyBindingType::Request
    } else if i == 6 {
        KeyBindingType::EnterGate
    } else if i == 7 {
        KeyBindingType::Gathering
    } else if i == 8 {
        KeyBindingType::Taming
    } else if i == 9 {
        KeyBindingType::Farming
    } else if i == 10 {
        KeyBindingType::CameraRotation
    } else if i == 11 {
        KeyBindingType::Zoom
    } else if i == 12 {
        KeyBindingType::Move
    } else if i == 13 {
        KeyBindingType::Sprint
    } else if i == 14 {
        KeyBindingType::Jump
    } else if i == 15 {
        KeyBindingType::Roll
    } else if i == 16 {
        KeyBindingType::SelectPrevItem
    } else if i == 17 {
        KeyBindingType::SelectNextItem
    } else if i == 18 {
        KeyBindingType::SelectItem01
    } else if i == 19 {
        KeyBindingType::SelectItem02
    } else if i == 20 {
        KeyBindingType::SelectItem03
    } else if i == 21 {
        KeyBindingType::SelectItem04
    } else if i == 22 {
        KeyBindingType::SelectItem05
    } else if i == 23 {
        KeyBindingType::SelectItem06
    } else if i == 24 {
        KeyBindingType::SelectItem07
    } else if i == 25 {
        KeyBindingType::SelectItem08
    } else if i == 26 {
        KeyBindingType::SelectItem09
    } else {
        KeyBindingType::SelectItem10
    }
}

impl KeyBindingType {
    pub fn get_key_binding_name(&self) -> (r: &'static str)
        ensures
            r@ == key_binding_name(*self),
    {
        match *self {
            KeyBindingType::Nothing => "None",
            KeyBindingType::Help => "Help",
            KeyBindingType::Attack => "Attack",
            KeyBindingType::PowerAttack => "PowerAttack",
            KeyBindingType::Interaction => "Interaction",
            KeyBindingType::Request => "Request",
            KeyBindingType::EnterGate => "EnterGate",
            KeyBindingType::Gathering => "Gathering",
            KeyBindingType::Taming => "Taming",
            KeyBindingType::Farming => "Farming",
            KeyBindingType::CameraRotation => "CameraRotation",
            KeyBindingType::Zoom => "Zoom",
            KeyBindingType::Move => "Move",
            KeyBindingType::Sprint => "Sprint",
            KeyBindingType::Jump => "Jump",
            KeyBindingType::Roll => "Roll",
            KeyBindingType::SelectPrevItem => "SelectPrevItem",
            KeyBindingType::SelectNextItem => "SelectNextItem",
            KeyBindingType::SelectItem01 => "SelectItem01",
            KeyBindingType::SelectItem02 => "SelectItem02",
            KeyBindingType::SelectItem03 => "SelectItem03",
            KeyBindingType::SelectItem04 => "SelectItem04",
            KeyBindingType::SelectItem05 => "SelectItem05",
            KeyBindingType::SelectItem06 => "SelectItem06",
            KeyBindingType::SelectItem07 => "SelectItem07",
            KeyBindingType::SelectItem08 => "SelectItem08",
            KeyBindingType::SelectItem09 => "SelectItem09",
            KeyBindingType::SelectItem10 => "SelectItem10",
        }
    }

    /// All key bindings, in declaration order.
    pub fn all_key_bindings() -> (r: Vec<KeyBindingType>)
        ensures
            r@.len() == KEY_BINDING_COUNT,
            forall|i: int| 0 <= i < KEY_BINDING_COUNT ==> r@[i] == key_binding_at(i),
    {
        let mut r: Vec<KeyBindingType> = Vec::new();
        r.push(KeyBindingType::Nothing);
        r.push(KeyBindingType::Help);
        r.push(KeyBindingType::Attack);
        r.push(KeyBindingType::PowerAttack);
        r.push(KeyBindingType::Interaction);
        r.push(KeyBindingType::Request);
        r.push(KeyBindingType::EnterGate);
        r.push(KeyBindingType::Gathering);
        r.push(KeyBindingType::Taming);
        r.push(KeyBindingType::Farming);
        r.push(KeyBindingType::CameraRotation);
        r.push(KeyBindingType::Zoom);
        r.push(KeyBindingType::Move);
        r.push(KeyBindingType::Sprint);
        r.push(KeyBindingType::Jump);
        r.push(KeyBindingType::Roll);
        r.push(KeyBindingType::SelectPrevItem);
        r.push(KeyBindingType::SelectNextItem);
        r.push(KeyBindingType::SelectItem01);
        r.push(KeyBindingType::SelectItem02);
        r.push(KeyBindingType::SelectItem03);
        r.push(KeyBindingType::SelectItem04);
        r.push(KeyBindingType::SelectItem05);
        r.push(KeyBindingType::SelectItem06);
        r.push(KeyBindingType::SelectItem07);
        r.push(KeyBindingType::SelectItem08);
        r.push(KeyBindingType::SelectItem09);
        r.push(KeyBindingType::SelectItem10);
        r
    }

    /// The key binding of the given name, if there is one.
    pub fn from_key_binding_name(name: &str) -> (r: Option<KeyBindingType>)
        ensures
            r matches Some(k) ==> key_binding_name(k) == name@,
            r is None ==> forall|k: KeyBindingType| key_binding_name(k) != name@,
    {
        let all = KeyBindingType::all_key_bindings();
        let mut i: usize = 0;
        while i < all.len()
            invariant
                i <= all@.len(),
                all@.len() == KEY_BINDING_COUNT,
                forall|j: int| 0 <= j < KEY_BINDING_COUNT ==> all@[j] == key_binding_at(j),
                forall|j: int| 0 <= j < i ==> key_binding_name(#[trigger] key_binding_at(j)) != name@,
            decreases all@.len() - i,
        {
            let k = all[i];
            if str_equals(k.get_key_binding_name(), name) {
                return Some(k);
            }
            i = i + 1;
        }
        proof {
            assert forall|k: KeyBindingType| key_binding_name(k) != name@ by {
                let j = key_binding_index(k);
                assert(key_binding_at(j) == k);
            }
        }
        None
    }
}

/// The position of a key binding in declaration order.
pub open spec fn key_binding_index(k: KeyBindingType) -> int {
    match k {
        KeyBindingType::Nothing => 0,
        KeyBindingType::Help => 1,
        KeyBindingType::Attack => 2,
        KeyBindingType::PowerAttack => 3,
        KeyBindingType::Interaction => 4,
        KeyBindingType::Request => 5,
        KeyBindingType::EnterGate => 6,
        KeyBindingType::Gathering => 7,
        KeyBindingType::Taming => 8,
        KeyBindingType::Farming => 9,
        KeyBindingType::CameraRotation => 10,
        KeyBindingType::Zoom => 11,
        KeyBindingType::Move => 12,
        KeyBindingType::Sprint => 13,
        KeyBindingType::Jump => 14,
        KeyBindingType::Roll => 15,
        KeyBindingType::SelectPrevItem => 16,
        KeyBindingType::SelectNextItem => 17,
        KeyBindingType::SelectItem01 => 18,
        KeyBindingType::SelectItem02 => 19,
        KeyBindingType::SelectItem03 => 20,
        KeyBindingType::SelectItem04 => 21,
        KeyBindingType::SelectItem05 => 22,
        KeyBindingType::SelectItem06 => 23,
        KeyBindingType::SelectItem07 => 24,
        KeyBindingType::SelectItem08 => 25,
        KeyBindingType::SelectItem09 => 26,
        KeyBindingType::SelectItem10 => 27,
    }
}

/// A few letters of a name that already tell the key bindings apart: its
/// length, its first and seventh letters, and its last letter.
pub open spec fn name_signature(s: Seq<char>) -> (nat, char, char, char) {
    (s.len(), s[0], if s.len() > 6 { s[6] } else { ' ' }, s[s.len() - 1])
}

/// The position of the key binding with the given name signature.
pub open spec fn signature_index(g: (nat, char, char, char)) -> int {
    if g == (4nat, 'N', ' ', 'e') {
        0
    } else if g == (4nat, 'H', ' ', 'p') {
        1
    } else if g == (6nat, 'A', ' ', 'k') {
        2
    } else if g == (11nat, 'P', 't', 'k') {
        3
    } else if g == (11nat, 'I', 'c', 'n') {
        4
    } else if g == (7nat, 'R', 't', 't') {
        5
    } else if g == (9nat, 'E', 'a', 'e') {
        6
    } else if g == (9nat, 'G', 'i', 'g') {
        7
    } else if g == (6nat, 'T', ' ', 'g') {
        8
    } else if g == (7nat, 'F', 'g', 'g') {
        9
    } else if g == (14nat, 'C', 'R', 'n') {
        10
    } else if g == (4nat, 'Z', ' ', 'm') {
        11
    } else if g == (4nat, 'M', ' ', 'e') {
        12
    } else if g == (6nat, 'S', ' ', 't') {
        13
    } else if g == (4nat, 'J', ' ', 'p') {
        14
    } else if g == (4nat, 'R', ' ', 'l') {
        15
    } else if g == (14nat, 'S', 'P', 'm') {
        16
    } else if g == (14nat, 'S', 'N', 'm') {
        17
    } else if g == (12nat, 'S', 'I', '1') {
        18
    } else if g == (12nat, 'S', 'I', '2') {
        19
    } else if g == (12nat, 'S', 'I', '3') {
        20
    } else if g == (12nat, 'S', 'I', '4') {
        21
    } else if g == (12nat, 'S', 'I', '5') {
        22
    } else if g == (12nat, 'S', 'I', '6') {
        23
    } else if g == (12nat, 'S', 'I', '7') {
        24
    } else if g == (12nat, 'S', 'I', '8') {
        25
    } else if g == (12nat, 'S', 'I', '9') {
        26
    } else if g == (12nat, 'S', 'I', '0') {
        27
    } else {
        -1
    }
}

proof fn lemma_key_binding_signature(k: KeyBindingType)
    ensures
        signature_index(name_signature(key_binding_name(k))) == key_binding_index(k),
{
    match k {
        KeyBindingType::Nothing => {
            reveal_strlit("None");
        },
        KeyBindingType::Help => {
            reveal_strlit("Help");
        },
        KeyBindingType::Attack => {
            reveal_strlit("Attack");
        },
        KeyBindingType::PowerAttack => {
            reveal_strlit("PowerAttack");
        },
        KeyBindingType::Interaction => {
            reveal_strlit("Interaction");
        },
        KeyBindingType::Request => {
            reveal_strlit("Request");
        },
        KeyBindingType::EnterGate => {
            reveal_strlit("EnterGate");
        },
        KeyBindingType::Gathering => {
            reveal_strlit("Gathering");
        },
        KeyBindingType::Taming => {
            reveal_strlit("Taming");
        },
        KeyBindingType::Farming => {
            reveal_strlit("Farming");
        },
        KeyBindingType::CameraRotation => {
            reveal_strlit("CameraRotation");
        },
        KeyBindingType::Zoom => {
            reveal_strlit("Zoom");
        },
        KeyBindingType::Move => {
            reveal_strlit("Move");
        },
        KeyBindingType::Sprint => {
            reveal_strlit("Sprint");
        },
        KeyBindingType::Jump => {
            reveal_strlit("Jump");
        },
        KeyBindingType::Roll => {
            reveal_strlit("Roll");
        },
        KeyBindingType::SelectPrevItem => {
            reveal_strlit("SelectPrevItem");
        },
        KeyBindingType::SelectNextItem => {
            reveal_strlit("SelectNextItem");
        },
        KeyBindingType::SelectItem01 => {
            reveal_strlit("SelectItem01");
        },
        KeyBindingType::SelectItem02 => {
            reveal_strlit("SelectItem02");
        },
        KeyBindingType::SelectItem03 => {
            reveal_strlit("SelectItem03");
        },
        KeyBindingType::SelectItem04 => {
            reveal_strlit("SelectItem04");
        },
        KeyBindingType::SelectItem05 => {
            reveal_strlit("SelectItem05");
        },
        KeyBindingType::SelectItem06 => {
            reveal_strlit("SelectItem06");
        },
        KeyBindingType::SelectItem07 => {
            reveal_strlit("SelectItem07");
        },
        KeyBindingType::SelectItem08 => {
            reveal_strlit("SelectItem08");
        },
        KeyBindingType::SelectItem09 => {
            reveal_strlit("SelectItem09");
        },
        KeyBindingType::SelectItem10 => {
            reveal_strlit("SelectItem10");
        },
    }
}

/// Names tell key bindings apart: each name reads back as its binding.
pub proof fn lemma_key_binding_name_round_trip(k: KeyBindingType, other: KeyBindingType)
    ensures
        key_binding_name(k) == key_binding_name(other) ==> k == other,
{
    lemma_key_binding_signature(k);
    lemma_key_binding_signature(other);
}

/// The direction a held key or stick points the interface to: left first,
/// then right, up and down.
pub open spec fn nav_direction_of(is_left: bool, is_right: bool, is_up: bool, is_down: bool) -> Option<(i32, i32)> {
    if is_left {
        Some((-1i32, 0i32))
    } else if is_right {
        Some((1i32, 0i32))
    } else if is_up {
        Some((0i32, -1i32))
    } else if is_down {
        Some((0i32, 1i32))
    } else {
        None
    }
}

/// The direction the interface moves in, as `nav_direction_of` states it.
pub fn get_direction(is_left: bool, is_right: bool, is_up: bool, is_down: bool) -> (r: Option<(i32, i32)>)
    ensures
        r == nav_direction_of(is_left, is_right, is_up, is_down),
{
    if is_left {
        Some((-1, 0))
    } else if is_right {
        Some((1, 0))
    } else if is_up {
        Some((0, -1))
    } else if is_down {
        Some((0, 1))
    } else {
        None
    }
}

impl ItemDataType {
    /// Only the fishing rod fishes.
    pub fn is_fishing_item_type(&self) -> (r: bool)
        ensures
            r == (*self == ItemDataType::FishingRod),
    {
        *self == ItemDataType::FishingRod
    }

    /// Bows, melee weapons and spears are weapons.
    pub fn is_weapon_item_type(&self) -> (r: bool)
        ensures
            r == (*self == ItemDataType::Bow || *self == ItemDataType::MeleeWeapon || *self == ItemDataType::Spear),
    {
        *self == ItemDataType::Bow || *self == ItemDataType::MeleeWeapon || *self == ItemDataType::Spear
    }
}

/// The action the player's buttons ask for in one update.
#[derive(Clone, Copy, Debug, PartialEq, Eq, Structural)]
pub enum PlayerAction {
    Nothing,
    Request,
    Interaction,
    FishingBegin,
    Eating,
    Attack,
    PowerAttack,
    Kick,
}

/// What the buttons of the player ask for: a request or an interaction
/// when something is in reach, else a use of the held item or an attack
/// when an attack is possible. The main button fishes with a rod, eats
/// food and attacks otherwise; the second button swings a weapon hard and
/// kicks otherwise.
pub open spec fn player_action_of(
    is_request: bool,
    is_interaction: bool,
    is_in_interaction_range: bool,
    is_attack_or_use_item: bool,
    is_power_attack: bool,
    is_available_attack: bool,
    item_type: ItemDataType,
) -> PlayerAction {
    if is_request && is_in_interaction_range {
        PlayerAction::Request
    } else if is_interaction && is_in_interaction_range {
        PlayerAction::Interaction
    } else if is_attack_or_use_item && is_available_attack {
        if item_type == ItemDataType::FishingRod {
            PlayerAction::FishingBegin
        } else if item_type == ItemDataType::Food {
            PlayerAction::Eating
        } else {
            PlayerAction::Attack
        }
    } else if is_power_attack && is_available_attack {
        if item_type == ItemDataType::Bow || item_type == ItemDataType::MeleeWeapon || item_type
            == ItemDataType::Spear {
            PlayerAction::PowerAttack
        } else {
            PlayerAction::Kick
        }
    } else {
        PlayerAction::Nothing
    }
}

/// The action the player's buttons ask for, as `player_action_of` states it.
pub fn choose_player_action(
    is_request: bool,
    is_interaction: bool,
    is_in_interaction_range: bool,
    is_attack_or_use_item: bool,
    is_power_attack: bool,
    is_available_attack: bool,
    item_type: ItemDataType,
) -> (r: PlayerAction)
    ensures
        r == player_action_of(
            is_request,
            is_interaction,
            is_in_interaction_range,
            is_attack_or_use_item,
            is_power_attack,
            is_available_attack,
            item_type,
        ),
{
    if is_request && is_in_interaction_range {
        PlayerAction::Request
    } else if is_interaction && is_in_interaction_range {
        PlayerAction::Interaction
    } else if is_attack_or_use_item && is_available_attack {
        if item_type.is_fishing_item_type() {
            PlayerAction::FishingBegin
        } else if item_type.is_eatable() {
            PlayerAction::Eating
        } else {
            PlayerAction::Attack
        }
    } else if is_power_attack && is_available_attack {
        if item_type.is_weapon_item_type() {
            PlayerAction::PowerAttack
        } else {
            PlayerAction::Kick
        }
    } else {
        PlayerAction::Nothing
    }
}

/// What the menu buttons ask for in one update.
#[derive(Clone, Copy, Debug, PartialEq, Eq, Structural)]
pub enum MenuAction {
    Nothing,
    /// Open the game menu on its first tab and switch to the menu phase.
    OpenGameMenu,
    /// Open the game menu on the inventory and switch to the menu phase.
    OpenInventory,
    SwitchQuickSlotRow,
}

/// The menu button comes first, then the inventory button, then the
/// buttons that switch the quick slot row.
pub fn choose_menu_action(open_menu: bool, open_inventory: bool, prev_quick_slot_row: bool, next_quick_slot_row: bool) -> (r:
    MenuAction)
    ensures
        r == (if open_menu {
            MenuAction::OpenGameMenu
        } else if open_inventory {
            MenuAction::OpenInventory
        } else if prev_quick_slot_row || next_quick_slot_row {
            MenuAction::SwitchQuickSlotRow
        } else {
            MenuAction::Nothing
        }),
{
    if open_menu {
        MenuAction::OpenGameMenu
    } else if open_inventory {
        MenuAction::OpenInventory
    } else if prev_quick_slot_row || next_quick_slot_row {
        MenuAction::SwitchQuickSlotRow
    } else {
        MenuAction::Nothing
    }
}

/// What the item buttons ask for in one update.
#[derive(Clone, Copy, Debug, PartialEq, Eq, Structural)]
pub enum QuickSlotAction {
    Nothing,
    SelectPrevious,
    SelectNext,
    /// Select the quick slot of the given position.
    Select(usize),
}

/// A player that may move and does nothing else changes items: a step to
/// the previous or next item when the navigation fires, else the slot of
/// the first digit key pressed (the digit keys 1 to 9, then 0).
pub open spec fn quick_slot_action_of(
    selectable: bool,
    should_move_quick_slot: bool,
    nav: Option<QuickSlotNavDirection>,
    digit_pressed: Seq<bool>,
) -> QuickSlotAction {
    if !selectable {
        QuickSlotAction::Nothing
    } else if should_move_quick_slot {
        match nav {
            Some(QuickSlotNavDirection::Previous) => QuickSlotAction::SelectPrevious,
            Some(QuickSlotNavDirection::Next) => QuickSlotAction::SelectNext,
            None => QuickSlotAction::Nothing,
        }
    } else {
        match first_pressed(digit_pressed, digit_pressed.len() as int) {
            Some(i) => QuickSlotAction::Select(i as usize),
            None => QuickSlotAction::Nothing,
        }
    }
}

/// The first of the first `n` keys that is pressed.
pub open spec fn first_pressed(pressed: Seq<bool>, n: int) -> Option<int>
    decreases n,
{
    if n <= 0 {
        None
    } else {
        match first_pressed(pressed, n - 1) {
            Some(i) => Some(i),
            None => if pressed[n - 1] {
                Some(n - 1)
            } else {
                None
            },
        }
    }
}

proof fn lemma_first_pressed_stays(pressed: Seq<bool>, m: int, n: int)
    requires
        0 < m <= n <= pressed.len(),
        first_pressed(pressed, m) is Some,
    ensures
        first_pressed(pressed, n) == first_pressed(pressed, m),
    decreases n - m,
{
    if m < n {
        lemma_first_pressed_stays(pressed, m, n - 1);
    }
}

/// The item change asked for, as `quick_slot_action_of` states it.
/// `digit_pressed` tells, for the digit keys 1 to 9 and then 0, whether
/// each was pressed.
pub fn choose_quick_slot_action(
    selectable: bool,
    should_move_quick_slot: bool,
    nav: Option<QuickSlotNavDirection>,
    digit_pressed: &Vec<bool>,
) -> (r: QuickSlotAction)
    ensures
        r == quick_slot_action_of(selectable, should_move_quick_slot, nav, digit_pressed@),
{
    if !selectable {
        return QuickSlotAction::Nothing;
    }
    if should_move_quick_slot {
        return match nav {
            Some(QuickSlotNavDirection::Previous) => QuickSlotAction::SelectPrevious,
            Some(QuickSlotNavDirection::Next) => QuickSlotAction::SelectNext,
            None => QuickSlotAction::Nothing,
        };
    }
    let mut i: usize = 0;
    while i < digit_pressed.len()
        invariant
            selectable,
            !should_move_quick_slot,
            i <= digit_pressed@.len(),
            first_pressed(digit_pressed@, i as int) is None,
        decreases digit_pressed@.len() - i,
    {
        if digit_pressed[i] {
            proof {
                assert(first_pressed(digit_pressed@, i + 1) == Some(i as int));
                lemma_first_pressed_stays(digit_pressed@, i + 1, digit_pressed@.len() as int);
            }
            return QuickSlotAction::Select(i);
        }
        i = i + 1;
    }
    QuickSlotAction::Nothing
}


/// The second button alone, with an attack possible: a weapon (a bow, a
/// melee weapon or a spear) is swung hard, and anything else kicks.
pub proof fn lemma_power_attack_needs_a_weapon(item_type: ItemDataType)
    ensures
        ({
            let r = player_action_of(false, false, false, false, true, true, item_type);
            &&& r == PlayerAction::PowerAttack <==> (item_type == ItemDataType::Bow || item_type
                == ItemDataType::MeleeWeapon || item_type == ItemDataType::Spear)
            &&& r == PlayerAction::Kick <==> !(item_type == ItemDataType::Bow || item_type
                == ItemDataType::MeleeWeapon || item_type == ItemDataType::Spear)
        }),
{
}

/// The main button alone, with an attack possible: a rod fishes, food is
/// eaten, and anything else attacks.
pub proof fn lemma_main_button_uses_the_held_item(item_type: ItemDataType, is_power_attack: bool)
    ensures
        ({
            let r = player_action_of(false, false, false, true, is_power_attack, true, item_type);
            &&& (item_type == ItemDataType::FishingRod <==> r == PlayerAction::FishingBegin)
            &&& (item_type == ItemDataType::Food <==> r == PlayerAction::Eating)
            &&& (item_type != ItemDataType::FishingRod && item_type != ItemDataType::Food <==> r
                == PlayerAction::Attack)
        }),
{
}

/// Buttons come in order: a request in reach comes before everything, an
/// interaction in reach before any attack; without reach or a possible
/// attack, the attack buttons ask for nothing.
pub proof fn lemma_player_action_order(
    is_request: bool,
    is_interaction: bool,
    is_in_interaction_range: bool,
    is_attack_or_use_item: bool,
    is_power_attack: bool,
    is_available_attack: bool,
    item_type: ItemDataType,
)
    ensures
        ({
            let r = player_action_of(
                is_request,
                is_interaction,
                is_in_interaction_range,
                is_attack_or_use_item,
                is_power_attack,
                is_available_attack,
                item_type,
            );
            &&& is_request && is_in_interaction_range ==> r == PlayerAction::Request
            &&& !is_request && is_interaction && is_in_interaction_range ==> r == PlayerAction::Interaction
            &&& r == PlayerAction::Request ==> is_request && is_in_interaction_range
            &&& r == PlayerAction::Interaction ==> is_interaction && is_in_interaction_range
            &&& (r == PlayerAction::FishingBegin || r == PlayerAction::Eating || r == PlayerAction::Attack)
                ==> is_attack_or_use_item && is_available_attack
            &&& (r == PlayerAction::PowerAttack || r == PlayerAction::Kick) ==> is_power_attack
                && is_available_attack && !is_attack_or_use_item
            &&& !is_available_attack && !(is_in_interaction_range && (is_request || is_interaction)) ==> r
                == PlayerAction::Nothing
        }),
{
}

/// A firing navigation moves the selection its way: back for the previous
/// item, on for the next; a player that cannot change items changes none.
pub proof fn lemma_quick_slot_navigation(nav: Option<QuickSlotNavDirection>, digit_pressed: Seq<bool>)
    ensures
        quick_slot_action_of(true, true, Some(QuickSlotNavDirection::Previous), digit_pressed)
            == QuickSlotAction::SelectPrevious,
        quick_slot_action_of(true, true, Some(QuickSlotNavDirection::Next), digit_pressed)
            == QuickSlotAction::SelectNext,
        quick_slot_action_of(true, true, None, digit_pressed) == QuickSlotAction::Nothing,
        forall|m: bool| quick_slot_action_of(false, m, nav, digit_pressed) == QuickSlotAction::Nothing,
{
}

/// The first pressed key, as `first_pressed` finds it: pressed, with none
/// pressed before it; none is found only when none is pressed.
proof fn lemma_first_pressed_is_first(pressed: Seq<bool>, n: int)
    requires
        0 <= n <= pressed.len(),
    ensures
        match first_pressed(pressed, n) {
            Some(i) => 0 <= i < n && pressed[i] && forall|j: int| 0 <= j < i ==> !pressed[j],
            None => forall|j: int| 0 <= j < n ==> !pressed[j],
        },
    decreases n,
{
    if n > 0 {
        lemma_first_pressed_is_first(pressed, n - 1);
    }
}

/// Without navigation, a digit key selects its own slot: the slot chosen is
/// that of a pressed key with no key pressed before it, and no slot is
/// chosen when no key is pressed.
pub proof fn lemma_quick_slot_digit(digit_pressed: Seq<bool>, nav: Option<QuickSlotNavDirection>)
    requires
        digit_pressed.len() <= usize::MAX,
    ensures
        match quick_slot_action_of(true, false, nav, digit_pressed) {
            QuickSlotAction::Select(i) => i < digit_pressed.len() && digit_pressed[i as int] && forall|j: int|
                0 <= j < i ==> !digit_pressed[j],
            QuickSlotAction::Nothing => forall|j: int| 0 <= j < digit_pressed.len() ==> !digit_pressed[j],
            _ => false,
        },
{
    lemma_first_pressed_is_first(digit_pressed, digit_pressed.len() as int);
}

} // verus!
