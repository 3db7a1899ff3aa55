//! The verified core of the graphics frontend: what every screen says and in
//! which colour, settled as plain values before any of it becomes pixels.
use vstd::prelude::*;

pub mod base_pane;
pub mod column;
pub mod costs;
pub mod crew;
pub mod frame;
pub mod frame_map;
pub mod gear_list;
pub mod history;
pub mod info;
pub mod inspection;
pub mod inventory;
pub mod level_up;
pub mod log_frame;
pub mod manifest;
pub mod menus;
pub mod outposts;
pub mod palette;
pub mod panes;
pub mod popup;
pub mod screens;
pub mod sections;
pub mod status_bar;
pub mod stock_block;
pub mod strip;
pub mod text;
pub mod tint;

verus! {

/// A program at or below `1 / CRITICAL_HP_DIVISOR` of its Integrity is
/// flagged as about to be lost.
pub const CRITICAL_HP_DIVISOR: i32 = 3;

/// Whether a program is close enough to deletion to warrant the warning
/// colour: at or below a third of its Integrity, and never for a program
/// with no Integrity to speak of.
pub fn hp_critical(hp: i32, max_hp: i32) -> (critical: bool)
    requires
        i32::MIN <= hp * CRITICAL_HP_DIVISOR <= i32::MAX,
    ensures
        critical == (max_hp > 0 && hp * CRITICAL_HP_DIVISOR <= max_hp),
{
    max_hp > 0 && hp * CRITICAL_HP_DIVISOR <= max_hp
}

} // verus!
