//! One frame: which surfaces the screen is built from, bottom to top, and
//! which single one of them is handed the player's refusal.
use vstd::prelude::*;

verus! {

/// What the player is doing, as far as the frame is concerned: every
/// screen state the frontend draws.
#[derive(Clone, Copy, Debug, PartialEq, Eq, Structural)]
pub enum Mode {
    MainMenu,
    CreateCharacter,
    LoadGame,
    SaveAction,
    Playing,
    Transfer,
    BaseMenu,
    PartyMenu,
    Battle,
    BattleTarget,
    BattleItem,
    BattleSpecial,
    BattleAlly,
    BattleResult,
    Build,
    BuildDirection,
    DevConsole,
    Craft,
    CraftQuantity,
    Compiling,
    WorkOrders,
    WorkOrderPick,
    WorkOrderQuantity,
    BaseStaff,
    WorkStructure,
    Remove,
    RemoveConfirm,
    RemoveDirection,
    Upgrade,
    InspectDirection,
    FrameMap,
    Manifest,
    ManifestPick,
    StructureManifest,
    CellDescribe,
    Inventory,
    EquipSwap,
    InventoryItemAction,
    ItemDescribe,
    EraseQuantity,
    Companion,
    CompanionEquip,
    CompanionMemories,
    Fuse,
    FuseSecond,
    FuseName,
    RenamePet,
    RoutineTarget,
    Routines,
    RoutineInstall,
    RoutineEtch,
    FieldRoutine,
    FieldRoutineAlly,
    FieldRoutineCell,
    Excavate,
    Refactor,
    RefactorItem,
    Develop,
    DevelopProgram,
    Extract,
    ExtractPick,
    ExtractConfirm,
    Trade,
    TradeAction,
    TradeQuantity,
    StackMarket,
    Caravan,
    TradeProgramConfirm,
    Perks,
    Research,
    Contracts,
    History,
    Structures,
    StructureAssign,
    Recipes,
    BaseOutput,
    Achievements,
    Help,
    HelpPage,
    Notification,
    GameOver,
    QuitRunConfirm,
    QuitAppConfirm,
    ArenaBuilder,
    ArenaLoad,
    ArenaSave,
    ArenaPick,
    ArenaResult,
    SpritePicker,
    SpriteEditor,
}

/// A surface a frame can paint.
#[derive(Clone, Copy, Debug, PartialEq, Eq, Structural)]
pub enum Surface {
    MainMenu,
    QuitAppConfirm,
    Achievements,
    LoadGame,
    SaveAction,
    /// The icon editor, open over the creation wizard's Icon step.
    IconEditor,
    CreateCharacter,
    GameOver,
    /// The run itself: map, side column and log.
    Run,
    Notification,
    Battle,
    BattleTargetMenu,
    BattleItemMenu,
    BattleSpecialMenu,
    BattleAllyMenu,
    HelpIndex,
    HelpPage,
    /// The full-pane frame map.
    FrameMap,
    /// The full-pane frame map with a cell cursor on it.
    FrameMapCursor,
    /// The popup a mode draws over the map.
    Overlay(Mode),
    ArenaBuilder,
    ArenaSave,
    ArenaPick,
    ArenaLoad,
    ArenaResult,
    SpritePicker,
    SpriteEditor,
}

/// One surface of a frame, and whether it is handed the refusal.
#[derive(Clone, Copy, Debug, PartialEq, Eq, Structural)]
pub struct Layer {
    pub surface: Surface,
    pub refusal: bool,
}

/// What a frame is decided from besides the mode: whether the icon editor
/// is open over the wizard, whether the notification screen has its notice,
/// whether the run has a frame map to show, whether a cell cursor has been
/// placed on it, whether a run is loaded at all (the popup layer draws
/// nothing without one), and whether the subject a mode's screen is about
/// is there (see `spec_needs_subject`).
#[derive(Clone, Copy, Debug, PartialEq, Eq, Structural)]
pub struct FrameState {
    pub mode: Mode,
    pub icon_editor_open: bool,
    pub notice_pending: bool,
    pub frame_map_ready: bool,
    pub cursor_placed: bool,
    pub run_loaded: bool,
    pub subject_pending: bool,
}

/// A frame: its surfaces bottom to top, and whether the strip along the
/// bottom edge carries the refusal.
pub struct Frame {
    pub layers: Vec<Layer>,
    pub banner: bool,
}

/// Whether `mode` puts the refusal on a strip along the bottom edge,
/// because it draws nothing that can carry the message itself: the fights,
/// whose refusals are never logged, the two full-pane frame maps, the
/// notification and the two sprite screens.
pub open spec fn spec_needs_status_banner(mode: Mode) -> bool {
    match mode {
        Mode::Battle | Mode::BattleResult | Mode::FrameMap | Mode::FieldRoutineCell
        | Mode::Notification | Mode::SpritePicker | Mode::SpriteEditor => true,
        _ => false,
    }
}

/// Whether the popup layer has a screen for `mode`: every mode it draws
/// hands that screen the refusal, and every other draws nothing.
pub open spec fn spec_overlay_has_screen(mode: Mode) -> bool {
    match mode {
        Mode::BaseMenu | Mode::PartyMenu | Mode::DevConsole | Mode::Build | Mode::BuildDirection
        | Mode::Transfer | Mode::Craft | Mode::CraftQuantity | Mode::Compiling
        | Mode::EraseQuantity | Mode::WorkOrders | Mode::WorkOrderPick | Mode::WorkOrderQuantity
        | Mode::BaseStaff | Mode::WorkStructure | Mode::Remove | Mode::RemoveConfirm
        | Mode::Upgrade | Mode::InspectDirection | Mode::RemoveDirection | Mode::Manifest
        | Mode::ManifestPick | Mode::StructureManifest | Mode::CellDescribe | Mode::Inventory
        | Mode::CompanionEquip | Mode::CompanionMemories | Mode::EquipSwap
        | Mode::InventoryItemAction | Mode::ItemDescribe | Mode::Companion | Mode::Fuse
        | Mode::FuseSecond | Mode::FuseName | Mode::RenamePet | Mode::FieldRoutine
        | Mode::FieldRoutineAlly | Mode::RoutineTarget | Mode::Routines | Mode::RoutineInstall
        | Mode::RoutineEtch | Mode::Refactor | Mode::Develop | Mode::DevelopProgram
        | Mode::RefactorItem | Mode::Extract | Mode::ExtractPick | Mode::ExtractConfirm
        | Mode::StackMarket | Mode::Caravan | Mode::Trade | Mode::TradeAction
        | Mode::TradeQuantity | Mode::TradeProgramConfirm | Mode::Perks | Mode::Research
        | Mode::Contracts | Mode::History | Mode::Structures | Mode::StructureAssign
        | Mode::Recipes | Mode::BaseOutput | Mode::QuitRunConfirm => true,
        _ => false,
    }
}

/// The modes whose screen is about a subject picked before it opened (a
/// pending trade, a program picked to fuse, a compile under way, a trader
/// at the counter): without it the screen draws nothing at all.
pub open spec fn spec_needs_subject(mode: Mode) -> bool {
    match mode {
        Mode::BattleTarget | Mode::BattleSpecial | Mode::CraftQuantity | Mode::Compiling
        | Mode::EraseQuantity | Mode::FuseSecond | Mode::FuseName | Mode::RenamePet
        | Mode::Routines | Mode::FieldRoutineAlly | Mode::Excavate | Mode::RefactorItem
        | Mode::DevelopProgram | Mode::ExtractPick | Mode::ExtractConfirm | Mode::TradeAction
        | Mode::TradeQuantity | Mode::StackMarket | Mode::Caravan | Mode::TradeProgramConfirm
        | Mode::StructureAssign => true,
        _ => false,
    }
}

/// Whether `mode`'s own screen has what it needs to be drawn in `s`.
pub open spec fn subject_ready(s: FrameState, mode: Mode) -> bool {
    !spec_needs_subject(mode) || s.subject_pending
}

/// The popup layer for `mode`, when there is a run to draw it over and the
/// subject its screen needs.
pub open spec fn overlay_v(s: FrameState, mode: Mode, refusal: bool) -> Seq<Layer> {
    if s.run_loaded && subject_ready(s, mode) {
        seq![layer(Surface::Overlay(mode), refusal)]
    } else {
        Seq::empty()
    }
}

/// A fight's menu, when the subject it is about has been picked.
pub open spec fn menu_v(s: FrameState, menu: Surface) -> Seq<Layer> {
    if s.subject_pending {
        seq![layer(menu, true)]
    } else {
        Seq::empty()
    }
}

pub open spec fn layer(surface: Surface, refusal: bool) -> Layer {
    Layer { surface, refusal }
}

/// The surfaces of a frame, bottom to top. Where a frame draws two, the
/// underlying one is not handed the refusal.
pub open spec fn spec_frame_layers(s: FrameState) -> Seq<Layer> {
    match s.mode {
        Mode::MainMenu => seq![layer(Surface::MainMenu, true)],
        Mode::QuitAppConfirm => seq![
            layer(Surface::MainMenu, false),
            layer(Surface::QuitAppConfirm, true),
        ],
        Mode::Achievements => seq![layer(Surface::Achievements, true)],
        Mode::LoadGame => seq![layer(Surface::LoadGame, true)],
        Mode::SaveAction => seq![layer(Surface::SaveAction, true)],
        Mode::CreateCharacter => if s.icon_editor_open {
            seq![layer(Surface::IconEditor, false)]
        } else {
            seq![layer(Surface::CreateCharacter, true)]
        },
        Mode::GameOver => seq![layer(Surface::GameOver, true)],
        Mode::Notification => seq![layer(Surface::Run, false)] + if s.notice_pending {
            seq![layer(Surface::Notification, false)]
        } else {
            overlay_v(s, Mode::Notification, false)
        },
        Mode::Battle => seq![layer(Surface::Battle, false)],
        Mode::BattleTarget => seq![layer(Surface::Battle, false)] + menu_v(
            s,
            Surface::BattleTargetMenu,
        ),
        Mode::BattleItem => seq![
            layer(Surface::Battle, false),
            layer(Surface::BattleItemMenu, true),
        ],
        Mode::BattleSpecial => seq![layer(Surface::Battle, false)] + menu_v(
            s,
            Surface::BattleSpecialMenu,
        ),
        Mode::BattleAlly => seq![
            layer(Surface::Battle, false),
            layer(Surface::BattleAllyMenu, true),
        ],
        Mode::Help => seq![layer(Surface::Run, false), layer(Surface::HelpIndex, true)],
        Mode::HelpPage => seq![layer(Surface::Run, false), layer(Surface::HelpPage, true)],
        Mode::FrameMap => if s.frame_map_ready {
            seq![layer(Surface::FrameMap, false)]
        } else {
            seq![layer(Surface::Run, false)] + overlay_v(s, Mode::FrameMap, false)
        },
        Mode::FieldRoutineCell => if s.frame_map_ready && s.cursor_placed {
            seq![layer(Surface::FrameMapCursor, false)]
        } else {
            seq![layer(Surface::Run, false)] + overlay_v(s, Mode::FieldRoutineCell, false)
        },
        Mode::ArenaBuilder => seq![layer(Surface::ArenaBuilder, true)],
        Mode::ArenaSave => seq![
            layer(Surface::ArenaBuilder, false),
            layer(Surface::ArenaSave, true),
        ],
        Mode::ArenaPick => seq![layer(Surface::ArenaPick, true)],
        Mode::ArenaLoad => seq![layer(Surface::ArenaLoad, true)],
        Mode::ArenaResult => seq![layer(Surface::ArenaResult, true)],
        Mode::BattleResult => seq![layer(Surface::Battle, false)],
        Mode::SpritePicker => seq![layer(Surface::SpritePicker, false)],
        Mode::SpriteEditor => seq![layer(Surface::SpriteEditor, false)],
        _ => seq![layer(Surface::Run, s.mode == Mode::Playing)] + overlay_v(s, s.mode, true),
    }
}

/// Whether `mode` puts the refusal on the strip along the bottom edge.
pub fn needs_status_banner(mode: Mode) -> (b: bool)
    ensures
        b == spec_needs_status_banner(mode),
{
    matches!(
        mode,
        Mode::Battle | Mode::BattleResult | Mode::FrameMap | Mode::FieldRoutineCell
            | Mode::Notification | Mode::SpritePicker | Mode::SpriteEditor
    )
}

/// Whether the popup layer has a screen for `mode`.
pub fn overlay_has_screen(mode: Mode) -> (b: bool)
    ensures
        b == spec_overlay_has_screen(mode),
{
    matches!(
        mode,
        Mode::BaseMenu | Mode::PartyMenu | Mode::DevConsole | Mode::Build | Mode::BuildDirection
        | Mode::Transfer | Mode::Craft | Mode::CraftQuantity | Mode::Compiling
        | Mode::EraseQuantity | Mode::WorkOrders | Mode::WorkOrderPick | Mode::WorkOrderQuantity
        | Mode::BaseStaff | Mode::WorkStructure | Mode::Remove | Mode::RemoveConfirm
        | Mode::Upgrade | Mode::InspectDirection | Mode::RemoveDirection | Mode::Manifest
        | Mode::ManifestPick | Mode::StructureManifest | Mode::CellDescribe | Mode::Inventory
        | Mode::CompanionEquip | Mode::CompanionMemories | Mode::EquipSwap
        | Mode::InventoryItemAction | Mode::ItemDescribe | Mode::Companion | Mode::Fuse
        | Mode::FuseSecond | Mode::FuseName | Mode::RenamePet | Mode::FieldRoutine
        | Mode::FieldRoutineAlly | Mode::RoutineTarget | Mode::Routines | Mode::RoutineInstall
        | Mode::RoutineEtch | Mode::Refactor | Mode::Develop | Mode::DevelopProgram
        | Mode::RefactorItem | Mode::Extract | Mode::ExtractPick | Mode::ExtractConfirm
        | Mode::StackMarket | Mode::Caravan | Mode::Trade | Mode::TradeAction
        | Mode::TradeQuantity | Mode::TradeProgramConfirm | Mode::Perks | Mode::Research
        | Mode::Contracts | Mode::History | Mode::Structures | Mode::StructureAssign
        | Mode::Recipes | Mode::BaseOutput | Mode::QuitRunConfirm
    )
}

fn one(surface: Surface, refusal: bool) -> (v: Vec<Layer>)
    ensures
        v@ == seq![layer(surface, refusal)],
{
    let mut v: Vec<Layer> = Vec::new();
    v.push(Layer { surface, refusal });
    v
}

fn two(under: Surface, under_refusal: bool, top: Surface, top_refusal: bool) -> (v: Vec<Layer>)
    ensures
        v@ == seq![layer(under, under_refusal), layer(top, top_refusal)],
{
    let mut v: Vec<Layer> = Vec::new();
    v.push(Layer { surface: under, refusal: under_refusal });
    v.push(Layer { surface: top, refusal: top_refusal });
    v
}

/// Whether `mode` is one whose screen needs a subject picked beforehand.
pub fn needs_subject(mode: Mode) -> (b: bool)
    ensures
        b == spec_needs_subject(mode),
{
    matches!(
        mode,
        Mode::BattleTarget | Mode::BattleSpecial | Mode::CraftQuantity | Mode::Compiling
            | Mode::EraseQuantity | Mode::FuseSecond | Mode::FuseName | Mode::RenamePet
            | Mode::Routines | Mode::FieldRoutineAlly | Mode::Excavate | Mode::RefactorItem
            | Mode::DevelopProgram | Mode::ExtractPick | Mode::ExtractConfirm | Mode::TradeAction
            | Mode::TradeQuantity | Mode::StackMarket | Mode::Caravan | Mode::TradeProgramConfirm
            | Mode::StructureAssign
    )
}

/// `under`, with the popup layer for `mode` over it when `overlay_v` plans
/// one.
fn under_overlay(s: &FrameState, under: Surface, under_refusal: bool, mode: Mode, refusal: bool) -> (v: Vec<Layer>)
    ensures
        v@ == seq![layer(under, under_refusal)] + overlay_v(*s, mode, refusal),
{
    if s.run_loaded && (!needs_subject(mode) || s.subject_pending) {
        two(under, under_refusal, Surface::Overlay(mode), refusal)
    } else {
        one(under, under_refusal)
    }
}

/// The battle, with `menu` over it once the subject it is about is picked.
fn battle_menu(s: &FrameState, menu: Surface) -> (v: Vec<Layer>)
    ensures
        v@ == seq![layer(Surface::Battle, false)] + menu_v(*s, menu),
{
    if s.subject_pending {
        two(Surface::Battle, false, menu, true)
    } else {
        one(Surface::Battle, false)
    }
}

/// The frame for `s`: its surfaces bottom to top, each told whether it
/// carries the refusal, and whether the bottom strip carries it instead.
pub fn frame_plan(s: &FrameState) -> (f: Frame)
    ensures
        f.layers@ == spec_frame_layers(*s),
        f.banner == spec_needs_status_banner(s.mode),
{
    let layers = match s.mode {
        Mode::MainMenu => one(Surface::MainMenu, true),
        Mode::QuitAppConfirm => two(Surface::MainMenu, false, Surface::QuitAppConfirm, true),
        Mode::Achievements => one(Surface::Achievements, true),
        Mode::LoadGame => one(Surface::LoadGame, true),
        Mode::SaveAction => one(Surface::SaveAction, true),
        Mode::CreateCharacter => if s.icon_editor_open {
            one(Surface::IconEditor, false)
        } else {
            one(Surface::CreateCharacter, true)
        },
        Mode::GameOver => one(Surface::GameOver, true),
        Mode::Notification => if s.notice_pending {
            two(Surface::Run, false, Surface::Notification, false)
        } else {
            under_overlay(s, Surface::Run, false, Mode::Notification, false)
        },
        Mode::Battle => one(Surface::Battle, false),
        Mode::BattleTarget => battle_menu(s, Surface::BattleTargetMenu),
        Mode::BattleItem => two(Surface::Battle, false, Surface::BattleItemMenu, true),
        Mode::BattleSpecial => battle_menu(s, Surface::BattleSpecialMenu),
        Mode::BattleAlly => two(Surface::Battle, false, Surface::BattleAllyMenu, true),
        Mode::Help => two(Surface::Run, false, Surface::HelpIndex, true),
        Mode::HelpPage => two(Surface::Run, false, Surface::HelpPage, true),
        Mode::FrameMap => if s.frame_map_ready {
            one(Surface::FrameMap, false)
        } else {
            under_overlay(s, Surface::Run, false, Mode::FrameMap, false)
        },
        Mode::FieldRoutineCell => if s.frame_map_ready && s.cursor_placed {
            one(Surface::FrameMapCursor, false)
        } else {
            under_overlay(s, Surface::Run, false, Mode::FieldRoutineCell, false)
        },
        Mode::ArenaBuilder => one(Surface::ArenaBuilder, true),
        Mode::ArenaSave => two(Surface::ArenaBuilder, false, Surface::ArenaSave, true),
        Mode::ArenaPick => one(Surface::ArenaPick, true),
        Mode::ArenaLoad => one(Surface::ArenaLoad, true),
        Mode::ArenaResult => one(Surface::ArenaResult, true),
        Mode::BattleResult => one(Surface::Battle, false),
        Mode::SpritePicker => one(Surface::SpritePicker, false),
        Mode::SpriteEditor => one(Surface::SpriteEditor, false),
        _ => {
            let on_the_map = s.mode == Mode::Playing;
            under_overlay(s, Surface::Run, on_the_map, s.mode, true)
        },
    };
    let banner = needs_status_banner(s.mode);
    proof {
        assert(layers@ =~= spec_frame_layers(*s));
    }
    Frame { layers, banner }
}

/// Whether a layer puts the refusal on screen: it is handed it, and it is a
/// surface with somewhere to write it.
pub open spec fn says_refusal(l: Layer) -> bool {
    l.refusal && match l.surface {
        Surface::Overlay(m) => spec_overlay_has_screen(m),
        _ => true,
    }
}

/// How many of `layers` put the refusal on screen.
pub open spec fn refusals_said(layers: Seq<Layer>) -> nat
    decreases layers.len(),
{
    if layers.len() == 0 {
        0
    } else {
        (if says_refusal(layers.last()) {
            1nat
        } else {
            0nat
        }) + refusals_said(layers.drop_last())
    }
}

/// Whether the screen `s` is on has what it needs to draw: the subject its
/// mode is about, and a run under a popup.
pub open spec fn screen_ready(s: FrameState) -> bool {
    subject_ready(s, s.mode) && (spec_overlay_has_screen(s.mode) ==> s.run_loaded)
}

/// A refusal reaches the player exactly once when the screen has what it
/// needs to draw: on one surface of the frame, or on the bottom strip when
/// no surface has room for it; and not at all when it has not (a popup
/// with no run under it, a screen whose subject is missing), since such a
/// screen draws nothing. Two modes are left out because they say it
/// nowhere: `Excavate`, which has no screen of its own and hands the run
/// underneath none, and the creation wizard while its icon editor is open,
/// which has no place for it.
pub proof fn a_refusal_is_said_exactly_once(s: FrameState)
    requires
        s.mode != Mode::Excavate,
        !(s.mode == Mode::CreateCharacter && s.icon_editor_open),
    ensures
        refusals_said(spec_frame_layers(s)) + (if spec_needs_status_banner(s.mode) {
            1nat
        } else {
            0nat
        }) == if screen_ready(s) {
            1nat
        } else {
            0nat
        },
{
    let ls = spec_frame_layers(s);
    reveal_with_fuel(refusals_said, 3);
    assert(ls.len() == 1 ==> ls.drop_last() =~= Seq::<Layer>::empty());
    assert(ls.len() == 2 ==> ls.drop_last() =~= seq![ls[0]]);
    assert(ls.len() == 2 ==> seq![ls[0]].drop_last() =~= Seq::<Layer>::empty());
}

/// Where a frame stacks surfaces, a surface underneath is handed the
/// refusal only when the one on top has no screen to show it on: the run
/// itself, in play, under a popup layer with nothing to draw.
pub proof fn an_underlying_surface_takes_the_refusal_only_from_an_empty_top(s: FrameState)
    ensures
        forall|i: int|
            0 <= i < spec_frame_layers(s).len() - 1 && (#[trigger] spec_frame_layers(s)[i]).refusal
                ==> !says_refusal(spec_frame_layers(s).last()),
{
    let ls = spec_frame_layers(s);
    assert forall|i: int| 0 <= i < ls.len() - 1 && (#[trigger] ls[i]).refusal implies !says_refusal(
        ls.last(),
    ) by {
        assert(ls.len() == 2);
        assert(i == 0);
    }
}

} // verus!
