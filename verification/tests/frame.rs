use feral_gui::frame::{
    frame_plan, needs_status_banner, overlay_has_screen, FrameState, Layer, Mode, Surface,
};
use feral_gui::manifest::manifest_nav;

const ALL_MODES: [Mode; 90] = [
    Mode::MainMenu,
    Mode::CreateCharacter,
    Mode::LoadGame,
    Mode::SaveAction,
    Mode::Playing,
    Mode::Transfer,
    Mode::BaseMenu,
    Mode::PartyMenu,
    Mode::Battle,
    Mode::BattleTarget,
    Mode::BattleItem,
    Mode::BattleSpecial,
    Mode::BattleAlly,
    Mode::BattleResult,
    Mode::Build,
    Mode::BuildDirection,
    Mode::DevConsole,
    Mode::Craft,
    Mode::CraftQuantity,
    Mode::Compiling,
    Mode::WorkOrders,
    Mode::WorkOrderPick,
    Mode::WorkOrderQuantity,
    Mode::BaseStaff,
    Mode::WorkStructure,
    Mode::Remove,
    Mode::RemoveConfirm,
    Mode::RemoveDirection,
    Mode::Upgrade,
    Mode::InspectDirection,
    Mode::FrameMap,
    Mode::Manifest,
    Mode::ManifestPick,
    Mode::StructureManifest,
    Mode::CellDescribe,
    Mode::Inventory,
    Mode::EquipSwap,
    Mode::InventoryItemAction,
    Mode::ItemDescribe,
    Mode::EraseQuantity,
    Mode::Companion,
    Mode::CompanionEquip,
    Mode::CompanionMemories,
    Mode::Fuse,
    Mode::FuseSecond,
    Mode::FuseName,
    Mode::RenamePet,
    Mode::RoutineTarget,
    Mode::Routines,
    Mode::RoutineInstall,
    Mode::RoutineEtch,
    Mode::FieldRoutine,
    Mode::FieldRoutineAlly,
    Mode::FieldRoutineCell,
    Mode::Excavate,
    Mode::Refactor,
    Mode::RefactorItem,
    Mode::Develop,
    Mode::DevelopProgram,
    Mode::Extract,
    Mode::ExtractPick,
    Mode::ExtractConfirm,
    Mode::Trade,
    Mode::TradeAction,
    Mode::TradeQuantity,
    Mode::StackMarket,
    Mode::Caravan,
    Mode::TradeProgramConfirm,
    Mode::Perks,
    Mode::Research,
    Mode::Contracts,
    Mode::History,
    Mode::Structures,
    Mode::StructureAssign,
    Mode::Recipes,
    Mode::BaseOutput,
    Mode::Achievements,
    Mode::Help,
    Mode::HelpPage,
    Mode::Notification,
    Mode::GameOver,
    Mode::QuitRunConfirm,
    Mode::QuitAppConfirm,
    Mode::ArenaBuilder,
    Mode::ArenaLoad,
    Mode::ArenaSave,
    Mode::ArenaPick,
    Mode::ArenaResult,
    Mode::SpritePicker,
    Mode::SpriteEditor,
];

fn state(mode: Mode) -> FrameState {
    FrameState {
        mode,
        icon_editor_open: false,
        notice_pending: true,
        frame_map_ready: true,
        cursor_placed: true,
        run_loaded: true,
        subject_pending: true,
    }
}

fn says(l: &Layer) -> bool {
    l.refusal
        && match l.surface {
            Surface::Overlay(m) => overlay_has_screen(m),
            _ => true,
        }
}

fn times_said(s: &FrameState) -> usize {
    let f = frame_plan(s);
    f.layers.iter().filter(|l| says(l)).count() + usize::from(f.banner)
}

#[test]
fn only_the_screens_with_nowhere_else_to_put_it_use_the_banner() {
    for mode in [
        Mode::Battle,
        Mode::BattleResult,
        Mode::FrameMap,
        Mode::FieldRoutineCell,
        Mode::SpritePicker,
        Mode::SpriteEditor,
    ] {
        assert!(
            needs_status_banner(mode),
            "{mode:?} draws no popup, so its refusals need the banner"
        );
    }
}

#[test]
fn modes_that_already_show_the_status_line_dont_double_up() {
    for mode in [
        Mode::Playing,
        Mode::MainMenu,
        Mode::SaveAction,
        Mode::QuitAppConfirm,
        Mode::Research,
        Mode::Inventory,
        Mode::Trade,
    ] {
        assert!(
            !needs_status_banner(mode),
            "{mode:?} already surfaces status_line itself"
        );
    }
}

#[test]
fn every_frame_says_a_refusal_once() {
    for mode in ALL_MODES {
        let drawn = times_said(&state(mode));
        if mode == Mode::Excavate {
            assert_eq!(drawn, 0, "Excavate has no screen to say it on");
        } else {
            assert_eq!(drawn, 1, "{mode:?} says the refusal {drawn} times, not once");
        }
    }
}

#[test]
fn the_fallback_frames_still_say_it_once() {
    for mode in [Mode::Notification, Mode::FrameMap, Mode::FieldRoutineCell] {
        let s = FrameState {
            mode,
            icon_editor_open: false,
            notice_pending: false,
            frame_map_ready: false,
            cursor_placed: false,
            run_loaded: true,
            subject_pending: true,
        };
        let f = frame_plan(&s);
        assert_eq!(f.layers[0].surface, Surface::Run);
        assert_eq!(f.layers[1].surface, Surface::Overlay(mode));
        assert_eq!(times_said(&s), 1);
    }
}

#[test]
fn a_confirmation_is_drawn_over_the_menu_it_came_from() {
    let f = frame_plan(&state(Mode::QuitAppConfirm));
    assert_eq!(
        f.layers,
        vec![
            Layer { surface: Surface::MainMenu, refusal: false },
            Layer { surface: Surface::QuitAppConfirm, refusal: true },
        ]
    );
    assert!(!f.banner);
}

#[test]
fn in_play_the_run_carries_the_refusal_and_a_popup_takes_it_over() {
    let playing = frame_plan(&state(Mode::Playing));
    assert_eq!(playing.layers[0], Layer { surface: Surface::Run, refusal: true });
    assert!(!overlay_has_screen(Mode::Playing));
    let research = frame_plan(&state(Mode::Research));
    assert_eq!(research.layers[0], Layer { surface: Surface::Run, refusal: false });
    assert_eq!(research.layers[1], Layer { surface: Surface::Overlay(Mode::Research), refusal: true });
}

#[test]
fn a_fight_keeps_the_refusal_off_the_battle_and_on_its_menu() {
    let f = frame_plan(&state(Mode::BattleItem));
    assert_eq!(f.layers[0], Layer { surface: Surface::Battle, refusal: false });
    assert_eq!(f.layers[1], Layer { surface: Surface::BattleItemMenu, refusal: true });
    let bare = frame_plan(&state(Mode::Battle));
    assert_eq!(bare.layers, vec![Layer { surface: Surface::Battle, refusal: false }]);
    assert!(bare.banner);
}

#[test]
fn the_icon_editor_has_no_place_for_a_refusal() {
    let mut s = state(Mode::CreateCharacter);
    s.icon_editor_open = true;
    let f = frame_plan(&s);
    assert_eq!(f.layers, vec![Layer { surface: Surface::IconEditor, refusal: false }]);
    assert_eq!(times_said(&s), 0);
    s.icon_editor_open = false;
    assert_eq!(times_said(&s), 1);
}

#[test]
fn paging_is_offered_only_among_several_owned_subjects() {
    let owned = [7u64, 9, 12];
    let nav = manifest_nav(&owned, Some(9), true, true);
    assert!(nav.cyclable && nav.back_to_list && nav.watchable);
    let wild = manifest_nav(&owned, Some(40), false, false);
    assert!(!wild.cyclable, "a wild program is not among the owned list");
    assert!(!wild.back_to_list && !wild.watchable);
    let alone = manifest_nav(&[7], Some(7), false, true);
    assert!(!alone.cyclable, "one subject has nothing to page to");
    let none = manifest_nav(&owned, None, false, true);
    assert!(!none.cyclable && !none.watchable);
}

#[test]
fn a_popup_with_no_run_under_it_draws_nothing() {
    let mut s = state(Mode::Research);
    s.run_loaded = false;
    let f = frame_plan(&s);
    assert_eq!(f.layers, vec![Layer { surface: Surface::Run, refusal: false }]);
    assert_eq!(times_said(&s), 0);
}

#[test]
fn a_screen_whose_subject_is_missing_says_nothing() {
    for mode in [Mode::Compiling, Mode::CraftQuantity, Mode::Caravan, Mode::BattleTarget] {
        let mut s = state(mode);
        s.subject_pending = false;
        assert_eq!(times_said(&s), 0, "{mode:?} draws nothing without its subject");
        s.subject_pending = true;
        assert_eq!(times_said(&s), 1, "{mode:?} says it once with its subject");
    }
    let mut s = state(Mode::Research);
    s.subject_pending = false;
    assert_eq!(times_said(&s), 1, "a screen that needs no subject draws regardless");
}

#[test]
fn in_play_without_a_run_the_map_still_carries_the_refusal() {
    let mut s = state(Mode::Playing);
    s.run_loaded = false;
    assert_eq!(times_said(&s), 1);
}
