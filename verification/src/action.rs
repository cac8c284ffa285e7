//! The discrete player actions the controller consumes, one per tick.

use vstd::prelude::*;

verus! {

/// One player action. The external input loop maps raw key events to
/// these values; the controller consumes exactly one per invocation.
#[derive(Clone, Copy, Debug, PartialEq, Eq, Structural)]
pub enum Action {
    /// Step by `(dx, dy)`, each component in `-1 ..= 1`.
    Move(i32, i32),
    ToggleInventory,
    /// Cycle the inventory tab.
    ToggleInvTab,
    InventoryUp,
    InventoryDown,
    /// Use the selected consumable, or unequip or equip the hovered item.
    UseConsumable,
    ToggleStats,
    Confirm,
    Interact,
    /// Answer a pending dialogue choice with one character.
    Choice(char),
    /// A battle menu option (1 fight, 2 inventory, 3 run); the flag says
    /// whether the ten-second decision penalty applies this turn.
    BattleOption(u8, bool),
    Quit,
    /// An idle tick.
    Idle,
}

} // verus!
