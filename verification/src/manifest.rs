//! The manifest: one read-only stat sheet for the player, a program you own,
//! or a wild one, settled as titled boxes of rows before any of it is laid
//! out; and the picker that opens it.
use vstd::prelude::*;
use vstd::string::StringExecFns;

use crate::menus::keyed;
use crate::palette::GlyphColor;
use crate::popup::{
    item_row, item_v, popup, popup_v, push_row, text_row, text_v, with_icon, with_icon_v,
    IconInk, Popup, PopupSize, Row, RowView,
};
use crate::sections::{
    capped_section, capped_sections_account_for_every_row, more, more_string, section_rows_capped, SectionRow, SectionRowView,
    MAX_AFFINITY_ROWS, MAX_BAND_ROWS, MAX_SECTION_ROWS,
};
use crate::text::{
    activity_tag, appears_in, decimal, decimal_string, each_after, joined_with,
    lemma_each_after_concat, lemma_sep_then_joined, push_char, push_decimal, push_joined,
    push_signed, rarity_tag, signed_decimal, spec_rarity_tag,
};
use crate::tint::{rarity_color, spec_rarity_color, Rarity, Tint};

verus! {

/// The run's difficulty, as the picker that set it names it.
#[derive(Clone, Copy, Debug, PartialEq, Eq, Structural)]
pub enum DifficultyMode {
    Permadeath,
    Forgiving,
}

/// A species' class: what it does in a fight, and at a post.
#[derive(Clone, Copy, Debug, PartialEq, Eq, Structural)]
pub enum AffinityClass {
    Striker,
    Saboteur,
    Bastion,
    Medic,
    Leech,
}

/// What a posted program is doing at its structure.
#[derive(Clone, Copy, Debug, PartialEq, Eq, Structural)]
pub enum TaskKind {
    GatherResource,
    Guard,
    Excavate,
    Construct,
}

/// One worn piece of gear.
#[derive(Debug)]
pub struct ManifestEquipSlot {
    pub slot: String,
    pub item_name: String,
    pub atk: i32,
    pub mitigation: i32,
    pub decompiler: i32,
    pub fusion_tier: u32,
}

/// One installed routine slot, 0-based.
#[derive(Debug)]
pub struct RoutineSlot {
    pub index: u32,
    pub name: String,
}

/// A party member on the player's sheet.
#[derive(Debug)]
pub struct PartyMember {
    pub name: String,
    pub hp: i32,
    pub max_hp: i32,
    pub atk: i32,
    pub mitigation: i32,
}

/// What the player's page says beyond the shared figures.
#[derive(Debug)]
pub struct PlayerManifest {
    pub decompiler: i32,
    pub perk_points: u32,
    pub perks: Vec<(String, u32)>,
    pub position: (i32, i32),
    pub zone: u32,
    pub pet_count: u32,
    pub pet_capacity: u32,
    pub cargo_used: u32,
    pub party: Vec<PartyMember>,
    pub credits: u64,
    pub portal_fragments: u32,
    pub difficulty: DifficultyMode,
    pub cycle: u64,
    pub active_contracts: u32,
}

/// A program's rolled potential. The four rolls arrive as their readouts
/// (a figure and its tier marks), which the frontend writes.
#[derive(Debug)]
pub struct Potential {
    pub hp_roll: String,
    pub atk_roll: String,
    pub def_roll: String,
    pub growth_roll: String,
    pub label: String,
    pub percent: u32,
}

/// One reserve a program keeps, with what it is doing about it, if anything.
#[derive(Debug)]
pub struct NeedRow {
    pub name: String,
    pub band: String,
    pub servicing: Option<String>,
}

/// One move a species knows. `effect` is the move's side effect already
/// written out: its kind, its chance and its duration.
#[derive(Debug)]
pub struct MoveLine {
    pub name: String,
    pub power: i32,
    pub ranged: bool,
    pub effect: Option<String>,
}

/// What a program's page says beyond the shared figures. Fractional
/// figures (the odds, the growth multiplier, each affinity's multiplier)
/// arrive written out.
#[derive(Debug)]
pub struct ProgramManifest {
    pub species_name: Option<String>,
    pub is_hostile: bool,
    pub is_companion: bool,
    pub is_boss: bool,
    pub activity: Option<String>,
    pub post: Option<(TaskKind, String)>,
    pub potential: Option<Potential>,
    pub fusions: u32,
    pub max_fusions: u32,
    pub rarity: Rarity,
    /// The engine's word for the rare tier (`Overclocked`), where it has one.
    pub rarity_label: Option<String>,
    pub refactors: u32,
    pub max_refactors: u32,
    pub ring: u32,
    pub max_ring: u32,
    pub level_cap: u32,
    pub talents_spent: u32,
    pub talents_earned: u32,
    pub zone_tier: u32,
    pub player_zone: u32,
    pub habitats: Vec<String>,
    pub moves: Vec<MoveLine>,
    /// The name of the resource this species works, if it works one.
    pub work_aptitude: Option<String>,
    pub decompile_difficulty: String,
    /// The chance to decompile it now, or nothing while that needs a
    /// catalyst.
    pub decompile_chance: Option<String>,
    pub growth: String,
    pub base_speed: i32,
    pub base_int: i32,
    /// Each affinity's label and its multiplier.
    pub affinities: Vec<(String, String)>,
    pub base_job: Option<AffinityClass>,
    pub needs: Vec<NeedRow>,
}

/// Whose sheet this is.
#[derive(Debug)]
pub enum ManifestSubject {
    Player(PlayerManifest),
    Program(ProgramManifest),
}

/// Everything a manifest page reads. `accuracy` and `evasion` arrive
/// written to one decimal.
#[derive(Debug)]
pub struct ManifestView {
    pub name: String,
    pub glyph: char,
    pub color: GlyphColor,
    pub level: Option<u32>,
    pub hp: i32,
    pub max_hp: i32,
    pub atk: i32,
    pub mitigation: i32,
    pub damage: String,
    pub power: i32,
    pub accuracy: String,
    pub evasion: String,
    pub status_effect: Option<String>,
    pub routines: Vec<RoutineSlot>,
    pub equipment: Vec<ManifestEquipSlot>,
    pub subject: ManifestSubject,
}

/// One titled box on the sheet. A full-width one spans both columns.
#[derive(Debug)]
pub struct Section {
    pub title: String,
    pub rows: Vec<SectionRow>,
    pub full_width: bool,
}

#[verifier::ext_equal]
pub struct SectionView {
    pub title: Seq<char>,
    pub rows: Seq<SectionRowView>,
    pub full_width: bool,
}

impl View for Section {
    type V = SectionView;

    open spec fn view(&self) -> SectionView {
        SectionView { title: self.title@, rows: self.rows.deep_view(), full_width: self.full_width }
    }
}

impl DeepView for Section {
    type V = SectionView;

    open spec fn deep_view(&self) -> SectionView {
        self.view()
    }
}

// ---------------------------------------------------------------------------
// Words
// ---------------------------------------------------------------------------

pub open spec fn class_name(c: AffinityClass) -> Seq<char> {
    match c {
        AffinityClass::Striker => "Striker"@,
        AffinityClass::Saboteur => "Saboteur"@,
        AffinityClass::Bastion => "Bastion"@,
        AffinityClass::Medic => "Medic"@,
        AffinityClass::Leech => "Leech"@,
    }
}

pub open spec fn class_job(c: AffinityClass) -> Seq<char> {
    match c {
        AffinityClass::Striker | AffinityClass::Saboteur => "none"@,
        AffinityClass::Bastion => "guard"@,
        AffinityClass::Medic => "repair"@,
        AffinityClass::Leech => "extraction"@,
    }
}

/// What a class does at a post, beside the class' own name:
/// `repair (Medic)`. A class with no base job says `none`.
pub open spec fn spec_base_job_label(c: AffinityClass) -> Seq<char> {
    class_job(c) + " ("@ + class_name(c) + ")"@
}

pub fn base_job_label(class: AffinityClass) -> (out: String)
    ensures
        out@ == spec_base_job_label(class),
{
    let (job, name) = match class {
        AffinityClass::Striker => ("none", "Striker"),
        AffinityClass::Saboteur => ("none", "Saboteur"),
        AffinityClass::Bastion => ("guard", "Bastion"),
        AffinityClass::Medic => ("repair", "Medic"),
        AffinityClass::Leech => ("extraction", "Leech"),
    };
    let mut out = String::from_str(job);
    out.append(" (");
    out.append(name);
    out.append(")");
    out
}

pub open spec fn spec_post_label(kind: TaskKind) -> Seq<char> {
    match kind {
        TaskKind::GatherResource => "Posted to"@,
        TaskKind::Guard => "Guarding"@,
        TaskKind::Excavate => "Cutting"@,
        TaskKind::Construct => "Building"@,
    }
}

/// What a post is, as its row's label; the structure's name is the value
/// beside it.
pub fn post_label(kind: TaskKind) -> (out: &'static str)
    ensures
        out@ == spec_post_label(kind),
{
    match kind {
        TaskKind::GatherResource => "Posted to",
        TaskKind::Guard => "Guarding",
        TaskKind::Excavate => "Cutting",
        TaskKind::Construct => "Building",
    }
}

pub open spec fn spec_difficulty_label(mode: DifficultyMode) -> Seq<char> {
    match mode {
        DifficultyMode::Permadeath => "Permadeath"@,
        DifficultyMode::Forgiving => "Forgiving"@,
    }
}

/// The word the difficulty picker uses, so the sheet and the picker cannot
/// name the mode two ways.
pub fn difficulty_label(mode: DifficultyMode) -> (out: String)
    ensures
        out@ == spec_difficulty_label(mode),
{
    match mode {
        DifficultyMode::Permadeath => String::from_str("Permadeath"),
        DifficultyMode::Forgiving => String::from_str("Forgiving"),
    }
}

/// `n` with its sign always written: `+3`, `-30`, `+0`.
pub open spec fn plus_signed(n: int) -> Seq<char> {
    if n < 0 {
        signed_decimal(n)
    } else {
        "+"@ + decimal(n as nat)
    }
}

fn signed_text(n: i64) -> (out: String)
    ensures
        out@ == signed_decimal(n as int),
{
    let mut out = String::new();
    push_signed(&mut out, n);
    assert(out@ =~= signed_decimal(n as int));
    out
}

fn plus_signed_text(n: i64) -> (out: String)
    ensures
        out@ == plus_signed(n as int),
{
    let mut out = String::new();
    if n >= 0 {
        out.append("+");
    }
    push_signed(&mut out, n);
    assert(out@ =~= plus_signed(n as int));
    out
}

// ---------------------------------------------------------------------------
// Rows
// ---------------------------------------------------------------------------

pub open spec fn stat_v(label: Seq<char>, value: Seq<char>) -> SectionRowView {
    SectionRowView::Stat(label, value)
}

pub open spec fn opt_part(present: bool, s: Seq<char>) -> Seq<Seq<char>> {
    if present {
        seq![s]
    } else {
        Seq::empty()
    }
}

/// A worn piece's bonuses, each signed, then its fusion tier.
pub open spec fn equip_bonus(s: ManifestEquipSlot) -> Seq<Seq<char>> {
    opt_part(s.atk != 0, plus_signed(s.atk as int) + " ATK"@) + opt_part(
        s.mitigation != 0,
        plus_signed(s.mitigation as int) + " DEF"@,
    ) + opt_part(s.decompiler != 0, plus_signed(s.decompiler as int) + " DECOMP"@) + opt_part(
        s.fusion_tier > 0,
        "T"@ + decimal(s.fusion_tier as nat),
    )
}

/// `SLOT: item` beside its bonuses joined by spaces.
pub open spec fn spec_equip_row(s: ManifestEquipSlot) -> SectionRowView {
    stat_v(s.slot@ + ": "@ + s.item_name@, joined_with(equip_bonus(s), " "@))
}

/// A bonus as it stands on the row: behind its space when shown, else nothing.
pub open spec fn shown_part(present: bool, part: Seq<char>) -> Seq<char> {
    if present {
        " "@ + part
    } else {
        Seq::empty()
    }
}

proof fn lemma_each_after_opt(present: bool, part: Seq<char>)
    ensures
        each_after(opt_part(present, part), " "@) == shown_part(present, part),
{
    if present {
        let one = opt_part(present, part);
        assert(one.drop_last() =~= Seq::<Seq<char>>::empty());
        assert(each_after(one.drop_last(), " "@) =~= Seq::<char>::empty());
        assert(one.last() == part);
        assert(each_after(opt_part(present, part), " "@) =~= shown_part(present, part));
    } else {
        assert(opt_part(present, part) =~= Seq::<Seq<char>>::empty());
    }
}

proof fn lemma_appears_after_space(value: Seq<char>, pre: Seq<char>, part: Seq<char>, post: Seq<char>)
    requires
        " "@ + value == pre + (" "@ + part) + post,
    ensures
        appears_in(part, value),
{
    reveal_strlit(" ");
    let k = pre.len() as int;
    let whole = pre + (" "@ + part) + post;
    assert((" "@ + value).len() == whole.len());
    assert forall|i: int| 0 <= i < part.len() implies value[k + i] == part[i] by {
        assert((" "@ + value)[k + i + 1] == value[k + i]);
        assert(whole[k + 1 + i] == part[i]);
    }
    assert(value.subrange(k, k + part.len()) =~= part);
}

/// Every bonus a worn piece carries shows on its EQUIPMENT row, signed, in
/// the order ATK, DEF, DECOMP, then the fusion tier, one space between each
/// two: with a space put in front, the value is exactly the shown parts, each
/// behind its space. So no non-zero bonus is ever left off the row.
pub proof fn every_worn_bonus_shows(s: ManifestEquipSlot)
    ensures
        ({
            let atk = plus_signed(s.atk as int) + " ATK"@;
            let def = plus_signed(s.mitigation as int) + " DEF"@;
            let decomp = plus_signed(s.decompiler as int) + " DECOMP"@;
            let tier = "T"@ + decimal(s.fusion_tier as nat);
            let shown = shown_part(s.atk != 0, atk) + shown_part(s.mitigation != 0, def)
                + shown_part(s.decompiler != 0, decomp) + shown_part(s.fusion_tier > 0, tier);
            spec_equip_row(s) matches SectionRowView::Stat(label, value) && {
                &&& label == s.slot@ + ": "@ + s.item_name@
                &&& shown.len() == 0 ==> value.len() == 0
                &&& shown.len() > 0 ==> " "@ + value == shown
                &&& s.atk != 0 ==> appears_in(atk, value)
                &&& s.mitigation != 0 ==> appears_in(def, value)
                &&& s.decompiler != 0 ==> appears_in(decomp, value)
                &&& s.fusion_tier > 0 ==> appears_in(tier, value)
            }
        }),
{
    reveal_strlit(" ");
    let atk = plus_signed(s.atk as int) + " ATK"@;
    let def = plus_signed(s.mitigation as int) + " DEF"@;
    let decomp = plus_signed(s.decompiler as int) + " DECOMP"@;
    let tier = "T"@ + decimal(s.fusion_tier as nat);
    let o1 = opt_part(s.atk != 0, atk);
    let o2 = opt_part(s.mitigation != 0, def);
    let o3 = opt_part(s.decompiler != 0, decomp);
    let o4 = opt_part(s.fusion_tier > 0, tier);
    let p1 = shown_part(s.atk != 0, atk);
    let p2 = shown_part(s.mitigation != 0, def);
    let p3 = shown_part(s.decompiler != 0, decomp);
    let p4 = shown_part(s.fusion_tier > 0, tier);
    let shown = p1 + p2 + p3 + p4;
    let b = equip_bonus(s);
    let value = joined_with(b, " "@);
    lemma_each_after_opt(s.atk != 0, atk);
    lemma_each_after_opt(s.mitigation != 0, def);
    lemma_each_after_opt(s.decompiler != 0, decomp);
    lemma_each_after_opt(s.fusion_tier > 0, tier);
    lemma_each_after_concat(o1, o2, " "@);
    lemma_each_after_concat(o1 + o2, o3, " "@);
    lemma_each_after_concat(o1 + o2 + o3, o4, " "@);
    assert(b == o1 + o2 + o3 + o4);
    assert(each_after(b, " "@) == shown);
    if b.len() == 0 {
        assert(b =~= Seq::<Seq<char>>::empty());
        assert(shown.len() == 0);
    } else {
        lemma_sep_then_joined(b, " "@);
        assert(" "@ + value == shown);
        if s.atk != 0 {
            assert(shown =~= Seq::<char>::empty() + (" "@ + atk) + (p2 + p3 + p4));
            lemma_appears_after_space(value, Seq::<char>::empty(), atk, p2 + p3 + p4);
        }
        if s.mitigation != 0 {
            assert(shown =~= p1 + (" "@ + def) + (p3 + p4));
            lemma_appears_after_space(value, p1, def, p3 + p4);
        }
        if s.decompiler != 0 {
            assert(shown =~= (p1 + p2) + (" "@ + decomp) + p4);
            lemma_appears_after_space(value, p1 + p2, decomp, p4);
        }
        if s.fusion_tier > 0 {
            assert(shown =~= (p1 + p2 + p3) + (" "@ + tier) + Seq::<char>::empty());
            lemma_appears_after_space(value, p1 + p2 + p3, tier, Seq::<char>::empty());
        }
    }
}

fn push_part(parts: &mut Vec<String>, part: String)
    ensures
        final(parts).deep_view() == old(parts).deep_view().push(part@),
{
    let ghost before = parts.deep_view();
    parts.push(part);
    assert(parts.deep_view() =~= before.push(part@));
}

pub fn equip_row(slot: &ManifestEquipSlot) -> (row: SectionRow)
    ensures
        row@ == spec_equip_row(*slot),
{
    let mut bonus: Vec<String> = Vec::new();
    if slot.atk != 0 {
        let mut t = plus_signed_text(slot.atk as i64);
        t.append(" ATK");
        push_part(&mut bonus, t);
    }
    if slot.mitigation != 0 {
        let mut t = plus_signed_text(slot.mitigation as i64);
        t.append(" DEF");
        push_part(&mut bonus, t);
    }
    if slot.decompiler != 0 {
        let mut t = plus_signed_text(slot.decompiler as i64);
        t.append(" DECOMP");
        push_part(&mut bonus, t);
    }
    if slot.fusion_tier > 0 {
        let mut t = String::from_str("T");
        push_decimal(&mut t, slot.fusion_tier as u64);
        push_part(&mut bonus, t);
    }
    assert(bonus.deep_view() =~= equip_bonus(*slot));
    let mut label = String::from_str("");
    proof {
        reveal_strlit("");
    }
    label.append(slot.slot.as_str());
    label.append(": ");
    label.append(slot.item_name.as_str());
    let mut value = String::new();
    push_joined(&mut value, &bonus, " ");
    assert(label@ =~= slot.slot@ + ": "@ + slot.item_name@);
    assert(value@ =~= joined_with(equip_bonus(*slot), " "@));
    SectionRow::Stat(label, value)
}

/// A move's power, whether it is ranged, and its side effect.
pub open spec fn move_tags(mv: MoveLine) -> Seq<Seq<char>> {
    seq!["pow "@ + signed_decimal(mv.power as int)] + opt_part(mv.ranged, "ranged"@) + match mv.effect {
        Some(e) => seq![e@],
        None => Seq::empty(),
    }
}

pub open spec fn spec_move_row(mv: MoveLine) -> SectionRowView {
    stat_v(mv.name@, joined_with(move_tags(mv), ", "@))
}

pub fn move_row(mv: &MoveLine) -> (row: SectionRow)
    ensures
        row@ == spec_move_row(*mv),
{
    let mut tags: Vec<String> = Vec::new();
    let mut pow = String::from_str("pow ");
    push_signed(&mut pow, mv.power as i64);
    push_part(&mut tags, pow);
    if mv.ranged {
        push_part(&mut tags, String::from_str("ranged"));
    }
    match &mv.effect {
        Some(e) => push_part(&mut tags, e.clone()),
        None => {},
    }
    assert(tags.deep_view() =~= move_tags(*mv));
    let mut value = String::new();
    push_joined(&mut value, &tags, ", ");
    assert(value@ =~= joined_with(move_tags(*mv), ", "@));
    SectionRow::Stat(mv.name.clone(), value)
}


// ---------------------------------------------------------------------------
// Boxes
// ---------------------------------------------------------------------------

/// A box as drawn: its rows trimmed to `cap`.
pub open spec fn section_v(title: Seq<char>, rows: Seq<SectionRowView>, cap: nat, full_width: bool) -> SectionView {
    SectionView { title, rows: capped_section(rows, cap), full_width }
}

pub open spec fn one_if(present: bool, s: SectionView) -> Seq<SectionView> {
    if present {
        seq![s]
    } else {
        Seq::empty()
    }
}

fn push_stat(rows: &mut Vec<SectionRow>, label: &str, value: String)
    ensures
        final(rows).deep_view() == old(rows).deep_view().push(stat_v(label@, value@)),
{
    let ghost before = rows.deep_view();
    let ghost v = value@;
    rows.push(SectionRow::Stat(String::from_str(label), value));
    assert(rows.deep_view() =~= before.push(stat_v(label@, v)));
}

fn push_section(
    sections: &mut Vec<Section>,
    title: &str,
    rows: Vec<SectionRow>,
    cap: usize,
    full_width: bool,
)
    requires
        cap >= 1,
    ensures
        final(sections).deep_view() == old(sections).deep_view().push(
            section_v(title@, rows.deep_view(), cap as nat, full_width),
        ),
{
    let ghost before = sections.deep_view();
    let ghost all = rows.deep_view();
    let rows = section_rows_capped(rows, cap);
    let s = Section { title: String::from_str(title), rows, full_width };
    assert(s@ =~= section_v(title@, all, cap as nat, full_width));
    sections.push(s);
    assert(sections.deep_view() =~= before.push(section_v(title@, all, cap as nat, full_width)));
}

/// The shared COMBAT figures. The to-hit pair sits on the player's page
/// alone.
pub open spec fn combat_rows(v: ManifestView) -> Seq<SectionRowView> {
    seq![stat_v("Damage"@, v.damage@), stat_v("Attack"@, signed_decimal(v.atk as int))] + (if v.subject is Player {
        seq![stat_v("Accuracy"@, v.accuracy@), stat_v("Evasion"@, v.evasion@)]
    } else {
        Seq::empty()
    }) + seq![
        stat_v("Mitigation"@, signed_decimal(v.mitigation as int) + "%"@),
        stat_v("Power"@, signed_decimal(v.power as int)),
    ]
}

pub open spec fn progression_rows(p: PlayerManifest) -> Seq<SectionRowView> {
    seq![
        stat_v("Decompiler"@, signed_decimal(p.decompiler as int)),
        stat_v("Perk points"@, decimal(p.perk_points as nat)),
        stat_v("Cargo carried"@, decimal(p.cargo_used as nat)),
        stat_v(
            "Position"@,
            signed_decimal(p.position.0 as int) + ", "@ + signed_decimal(p.position.1 as int),
        ),
    ]
}

pub open spec fn perk_rows(perks: Seq<(String, u32)>) -> Seq<SectionRowView> {
    Seq::new(perks.len(), |i: int| stat_v(perks[i].0@, "Lv "@ + decimal(perks[i].1 as nat)))
}

pub open spec fn party_line(c: PartyMember) -> Seq<char> {
    "HP "@ + signed_decimal(c.hp as int) + "/"@ + signed_decimal(c.max_hp as int) + "  ATK "@
        + signed_decimal(c.atk as int) + "  MIT "@ + signed_decimal(c.mitigation as int) + "%"@
}

pub open spec fn party_rows(party: Seq<PartyMember>) -> Seq<SectionRowView> {
    Seq::new(party.len(), |i: int| stat_v(party[i].name@, party_line(party[i])))
}

/// What this run holds, as opposed to what the player is.
pub open spec fn run_rows(p: PlayerManifest) -> Seq<SectionRowView> {
    seq![
        stat_v("Credits"@, decimal(p.credits as nat)),
        stat_v("Portal Fragments"@, decimal(p.portal_fragments as nat)),
        stat_v("Difficulty"@, spec_difficulty_label(p.difficulty)),
        stat_v("Cycle"@, decimal(p.cycle as nat)),
        stat_v("Contracts"@, decimal(p.active_contracts as nat)),
    ]
}

/// The player's own boxes: PROGRESSION, PERKS and PARTY when there are
/// any, then RUN. Every one of them columned.
pub open spec fn spec_player_sections(p: PlayerManifest) -> Seq<SectionView> {
    seq![section_v("PROGRESSION"@, progression_rows(p), MAX_SECTION_ROWS as nat, false)] + one_if(
        p.perks@.len() > 0,
        section_v("PERKS"@, perk_rows(p.perks@), MAX_SECTION_ROWS as nat, false),
    ) + one_if(
        p.party@.len() > 0,
        section_v("PARTY"@, party_rows(p.party@), MAX_SECTION_ROWS as nat, false),
    ) + seq![section_v("RUN"@, run_rows(p), MAX_SECTION_ROWS as nat, false)]
}

fn signed_pair(a: i32, b: i32, sep: &str) -> (out: String)
    ensures
        out@ == signed_decimal(a as int) + sep@ + signed_decimal(b as int),
{
    let mut out = String::new();
    push_signed(&mut out, a as i64);
    out.append(sep);
    push_signed(&mut out, b as i64);
    assert(out@ =~= signed_decimal(a as int) + sep@ + signed_decimal(b as int));
    out
}

fn party_text(c: &PartyMember) -> (out: String)
    ensures
        out@ == party_line(*c),
{
    let mut out = String::from_str("HP ");
    push_signed(&mut out, c.hp as i64);
    out.append("/");
    push_signed(&mut out, c.max_hp as i64);
    out.append("  ATK ");
    push_signed(&mut out, c.atk as i64);
    out.append("  MIT ");
    push_signed(&mut out, c.mitigation as i64);
    out.append("%");
    assert(out@ =~= party_line(*c));
    out
}

pub fn player_sections(sections: &mut Vec<Section>, p: &PlayerManifest)
    ensures
        final(sections).deep_view() == old(sections).deep_view() + spec_player_sections(*p),
{
    let ghost start = sections.deep_view();
    let mut progression: Vec<SectionRow> = Vec::new();
    push_stat(&mut progression, "Decompiler", signed_text(p.decompiler as i64));
    push_stat(&mut progression, "Perk points", decimal_string(p.perk_points as u64));
    push_stat(&mut progression, "Cargo carried", decimal_string(p.cargo_used as u64));
    push_stat(&mut progression, "Position", signed_pair(p.position.0, p.position.1, ", "));
    assert(progression.deep_view() =~= progression_rows(*p));
    push_section(sections, "PROGRESSION", progression, MAX_SECTION_ROWS, false);

    if p.perks.len() > 0 {
        let mut perks: Vec<SectionRow> = Vec::new();
        let mut i: usize = 0;
        while i < p.perks.len()
            invariant
                i <= p.perks@.len(),
                perks.deep_view() =~= perk_rows(p.perks@).take(i as int),
            decreases p.perks@.len() - i,
        {
            let mut level = String::from_str("Lv ");
            push_decimal(&mut level, p.perks[i].1 as u64);
            push_stat(&mut perks, p.perks[i].0.as_str(), level);
            i = i + 1;
        }
        assert(perk_rows(p.perks@).take(p.perks@.len() as int) =~= perk_rows(p.perks@));
        push_section(sections, "PERKS", perks, MAX_SECTION_ROWS, false);
    }

    let mut run: Vec<SectionRow> = Vec::new();
    push_stat(&mut run, "Credits", decimal_string(p.credits));
    push_stat(&mut run, "Portal Fragments", decimal_string(p.portal_fragments as u64));
    push_stat(&mut run, "Difficulty", difficulty_label(p.difficulty));
    push_stat(&mut run, "Cycle", decimal_string(p.cycle));
    push_stat(&mut run, "Contracts", decimal_string(p.active_contracts as u64));
    assert(run.deep_view() =~= run_rows(*p));

    if p.party.len() > 0 {
        let mut party: Vec<SectionRow> = Vec::new();
        let mut i: usize = 0;
        while i < p.party.len()
            invariant
                i <= p.party@.len(),
                party.deep_view() =~= party_rows(p.party@).take(i as int),
            decreases p.party@.len() - i,
        {
            push_stat(&mut party, p.party[i].name.as_str(), party_text(&p.party[i]));
            i = i + 1;
        }
        assert(party_rows(p.party@).take(p.party@.len() as int) =~= party_rows(p.party@));
        push_section(sections, "PARTY", party, MAX_SECTION_ROWS, false);
    }
    push_section(sections, "RUN", run, MAX_SECTION_ROWS, false);
    assert(sections.deep_view() =~= start + spec_player_sections(*p));
}


pub open spec fn potential_rows(q: Potential) -> Seq<SectionRowView> {
    seq![
        stat_v("HP roll"@, q.hp_roll@),
        stat_v("Attack roll"@, q.atk_roll@),
        stat_v("Defense roll"@, q.def_roll@),
        stat_v("Growth roll"@, q.growth_roll@),
        stat_v("Overall"@, q.label@ + " ("@ + decimal(q.percent as nat) + "%)"@),
    ]
}

pub open spec fn affinity_rows(a: Seq<(String, String)>) -> Seq<SectionRowView> {
    Seq::new(a.len(), |i: int| stat_v(a[i].0@, a[i].1@))
}

pub open spec fn habitats_text(h: Seq<Seq<char>>) -> Seq<char> {
    if h.len() == 0 {
        "unknown"@
    } else {
        joined_with(h, ", "@)
    }
}

/// What the species is: where it lives, what it works, and, unless it is a
/// boss that can never be decompiled, the odds of decompiling it.
pub open spec fn species_rows(p: ProgramManifest) -> Seq<SectionRowView> {
    seq![stat_v("Habitats"@, habitats_text(p.habitats.deep_view()))] + match p.work_aptitude {
        Some(n) => seq![stat_v("Work aptitude"@, n@)],
        None => Seq::empty(),
    } + (if !p.is_boss {
        seq![
            stat_v("Decompile difficulty"@, p.decompile_difficulty@),
            stat_v(
                "Decompile chance now"@,
                match p.decompile_chance {
                    Some(c) => c@,
                    None => "needs a taming catalyst"@,
                },
            ),
        ]
    } else {
        Seq::empty()
    }) + seq![stat_v("Growth"@, p.growth@)]
}

pub open spec fn need_row(n: NeedRow) -> SectionRowView {
    stat_v(
        n.name@,
        match n.servicing {
            Some(verb) => n.band@ + " \u{2014} "@ + verb@,
            None => n.band@,
        },
    )
}

/// The first `cap` reserves, then a count of any past them.
pub open spec fn need_rows(needs: Seq<NeedRow>, cap: nat) -> Seq<SectionRowView> {
    let shown: nat = if needs.len() < cap {
        needs.len()
    } else {
        cap
    };
    Seq::new(shown, |i: int| need_row(needs[i])) + if needs.len() > cap {
        seq![stat_v("\u{2026}"@, more((needs.len() - cap) as nat))]
    } else {
        Seq::empty()
    }
}

/// What the program is like to post: its pace and analysis, its class' job,
/// where it is posted, and the reserves it keeps.
pub open spec fn work_rows(p: ProgramManifest, need_cap: nat) -> Seq<SectionRowView> {
    seq![
        stat_v("Speed"@, signed_decimal(p.base_speed as int)),
        stat_v("Analysis"@, signed_decimal(p.base_int as int)),
    ] + match p.base_job {
        Some(c) => seq![stat_v("Base job"@, spec_base_job_label(c))],
        None => Seq::empty(),
    } + match p.post {
        Some(post) => seq![stat_v(spec_post_label(post.0), post.1@)],
        None => Seq::empty(),
    } + need_rows(p.needs@, need_cap)
}

pub open spec fn development_rows(p: ProgramManifest) -> Seq<SectionRowView> {
    seq![
        stat_v("Kernel rings"@, decimal(p.ring as nat) + "/"@ + decimal(p.max_ring as nat)),
        stat_v("Level ceiling"@, decimal(p.level_cap as nat)),
        stat_v(
            "Talents"@,
            decimal(p.talents_spent as nat) + "/"@ + decimal(p.talents_earned as nat) + " spent"@,
        ),
    ]
}

pub open spec fn move_rows(moves: Seq<MoveLine>) -> Seq<SectionRowView> {
    Seq::new(moves.len(), |i: int| spec_move_row(moves[i]))
}

/// A program's own boxes: POTENTIAL and AFFINITIES when it has them,
/// SPECIES and WORK always, DEVELOPMENT once it has been developed, and the
/// full-width MOVES band when it knows any. `need_cap` is how many reserves
/// WORK lists before counting the rest.
pub open spec fn spec_program_sections(p: ProgramManifest, need_cap: nat) -> Seq<SectionView> {
    (match p.potential {
        Some(q) => seq![section_v("POTENTIAL"@, potential_rows(q), MAX_SECTION_ROWS as nat, false)],
        None => Seq::empty(),
    }) + one_if(
        p.affinities@.len() > 0,
        section_v("AFFINITIES"@, affinity_rows(p.affinities@), MAX_AFFINITY_ROWS as nat, false),
    ) + seq![
        section_v("SPECIES"@, species_rows(p), MAX_SECTION_ROWS as nat, false),
        section_v("WORK"@, work_rows(p, need_cap), MAX_SECTION_ROWS as nat, false),
    ] + one_if(
        p.ring > 0 || p.talents_earned > 0,
        section_v("DEVELOPMENT"@, development_rows(p), MAX_SECTION_ROWS as nat, false),
    ) + one_if(
        p.moves@.len() > 0,
        section_v("MOVES"@, move_rows(p.moves@), MAX_BAND_ROWS as nat, true),
    )
}

fn potential_section(sections: &mut Vec<Section>, q: &Potential)
    ensures
        final(sections).deep_view() == old(sections).deep_view().push(
            section_v("POTENTIAL"@, potential_rows(*q), MAX_SECTION_ROWS as nat, false),
        ),
{
    let mut rows: Vec<SectionRow> = Vec::new();
    push_stat(&mut rows, "HP roll", q.hp_roll.clone());
    push_stat(&mut rows, "Attack roll", q.atk_roll.clone());
    push_stat(&mut rows, "Defense roll", q.def_roll.clone());
    push_stat(&mut rows, "Growth roll", q.growth_roll.clone());
    let mut overall = q.label.clone();
    overall.append(" (");
    push_decimal(&mut overall, q.percent as u64);
    overall.append("%)");
    push_stat(&mut rows, "Overall", overall);
    assert(rows.deep_view() =~= potential_rows(*q));
    push_section(sections, "POTENTIAL", rows, MAX_SECTION_ROWS, false);
}

fn species_section(sections: &mut Vec<Section>, p: &ProgramManifest)
    ensures
        final(sections).deep_view() == old(sections).deep_view().push(
            section_v("SPECIES"@, species_rows(*p), MAX_SECTION_ROWS as nat, false),
        ),
{
    let mut rows: Vec<SectionRow> = Vec::new();
    let habitats = if p.habitats.len() == 0 {
        String::from_str("unknown")
    } else {
        let mut h = String::new();
        push_joined(&mut h, &p.habitats, ", ");
        assert(h@ =~= joined_with(p.habitats.deep_view(), ", "@));
        h
    };
    push_stat(&mut rows, "Habitats", habitats);
    match &p.work_aptitude {
        Some(n) => push_stat(&mut rows, "Work aptitude", n.clone()),
        None => {},
    }
    if !p.is_boss {
        push_stat(&mut rows, "Decompile difficulty", p.decompile_difficulty.clone());
        let chance = match &p.decompile_chance {
            Some(c) => c.clone(),
            None => String::from_str("needs a taming catalyst"),
        };
        push_stat(&mut rows, "Decompile chance now", chance);
    }
    push_stat(&mut rows, "Growth", p.growth.clone());
    assert(rows.deep_view() =~= species_rows(*p));
    push_section(sections, "SPECIES", rows, MAX_SECTION_ROWS, false);
}

fn need_value(n: &NeedRow) -> (out: String)
    ensures
        need_row(*n) == stat_v(n.name@, out@),
{
    let mut out = n.band.clone();
    match &n.servicing {
        Some(verb) => {
            out.append(" \u{2014} ");
            out.append(verb.as_str());
        },
        None => {},
    }
    out
}

fn work_section(sections: &mut Vec<Section>, p: &ProgramManifest, need_cap: usize)
    ensures
        final(sections).deep_view() == old(sections).deep_view().push(
            section_v("WORK"@, work_rows(*p, need_cap as nat), MAX_SECTION_ROWS as nat, false),
        ),
{
    let mut rows: Vec<SectionRow> = Vec::new();
    push_stat(&mut rows, "Speed", signed_text(p.base_speed as i64));
    push_stat(&mut rows, "Analysis", signed_text(p.base_int as i64));
    match p.base_job {
        Some(c) => push_stat(&mut rows, "Base job", base_job_label(c)),
        None => {},
    }
    match &p.post {
        Some(post) => push_stat(&mut rows, post_label(post.0), post.1.clone()),
        None => {},
    }
    let ghost head = rows.deep_view();
    let n = p.needs.len();
    let shown = if n < need_cap {
        n
    } else {
        need_cap
    };
    let mut i: usize = 0;
    while i < shown
        invariant
            i <= shown,
            shown <= p.needs@.len(),
            rows.deep_view() =~= head + Seq::new(i as nat, |j: int| need_row(p.needs@[j])),
        decreases shown - i,
    {
        let value = need_value(&p.needs[i]);
        push_stat(&mut rows, p.needs[i].name.as_str(), value);
        i = i + 1;
    }
    if n > need_cap {
        push_stat(&mut rows, "\u{2026}", more_string(n - need_cap));
    }
    assert(rows.deep_view() =~= work_rows(*p, need_cap as nat));
    push_section(sections, "WORK", rows, MAX_SECTION_ROWS, false);
}

fn development_section(sections: &mut Vec<Section>, p: &ProgramManifest)
    ensures
        final(sections).deep_view() == old(sections).deep_view().push(
            section_v("DEVELOPMENT"@, development_rows(*p), MAX_SECTION_ROWS as nat, false),
        ),
{
    let mut rows: Vec<SectionRow> = Vec::new();
    let mut rings = decimal_string(p.ring as u64);
    rings.append("/");
    push_decimal(&mut rings, p.max_ring as u64);
    push_stat(&mut rows, "Kernel rings", rings);
    push_stat(&mut rows, "Level ceiling", decimal_string(p.level_cap as u64));
    let mut talents = decimal_string(p.talents_spent as u64);
    talents.append("/");
    push_decimal(&mut talents, p.talents_earned as u64);
    talents.append(" spent");
    push_stat(&mut rows, "Talents", talents);
    assert(rows.deep_view() =~= development_rows(*p));
    push_section(sections, "DEVELOPMENT", rows, MAX_SECTION_ROWS, false);
}

pub fn program_sections(sections: &mut Vec<Section>, p: &ProgramManifest, need_cap: usize)
    ensures
        final(sections).deep_view() == old(sections).deep_view() + spec_program_sections(
            *p,
            need_cap as nat,
        ),
{
    let ghost start = sections.deep_view();
    match &p.potential {
        Some(q) => potential_section(sections, q),
        None => {},
    }
    if p.affinities.len() > 0 {
        let mut rows: Vec<SectionRow> = Vec::new();
        let mut i: usize = 0;
        while i < p.affinities.len()
            invariant
                i <= p.affinities@.len(),
                rows.deep_view() =~= affinity_rows(p.affinities@).take(i as int),
            decreases p.affinities@.len() - i,
        {
            push_stat(&mut rows, p.affinities[i].0.as_str(), p.affinities[i].1.clone());
            i = i + 1;
        }
        assert(affinity_rows(p.affinities@).take(p.affinities@.len() as int) =~= affinity_rows(
            p.affinities@,
        ));
        push_section(sections, "AFFINITIES", rows, MAX_AFFINITY_ROWS, false);
    }
    species_section(sections, p);
    work_section(sections, p, need_cap);
    if p.ring > 0 || p.talents_earned > 0 {
        development_section(sections, p);
    }
    if p.moves.len() > 0 {
        let mut rows: Vec<SectionRow> = Vec::new();
        let mut i: usize = 0;
        while i < p.moves.len()
            invariant
                i <= p.moves@.len(),
                rows.deep_view() =~= move_rows(p.moves@).take(i as int),
            decreases p.moves@.len() - i,
        {
            let ghost before = rows.deep_view();
            let row = move_row(&p.moves[i]);
            rows.push(row);
            assert(rows.deep_view() =~= before.push(spec_move_row(p.moves@[i as int])));
            i = i + 1;
        }
        assert(move_rows(p.moves@).take(p.moves@.len() as int) =~= move_rows(p.moves@));
        push_section(sections, "MOVES", rows, MAX_BAND_ROWS, true);
    }
    assert(sections.deep_view() =~= start + spec_program_sections(*p, need_cap as nat));
}


// ---------------------------------------------------------------------------
// The page
// ---------------------------------------------------------------------------

pub open spec fn routine_rows(rs: Seq<RoutineSlot>) -> Seq<SectionRowView> {
    Seq::new(rs.len(), |i: int| stat_v(decimal((rs[i].index + 1) as nat), rs[i].name@))
}

pub open spec fn equipment_rows(es: Seq<ManifestEquipSlot>) -> Seq<SectionRowView> {
    Seq::new(es.len(), |i: int| spec_equip_row(es[i]))
}

/// Every box on a page, in order: COMBAT, the subject's own boxes, then
/// EQUIPMENT and ROUTINES last for any subject wearing or running anything.
/// EQUIPMENT is a full-width band on the player's page and a columned box
/// on a program's.
pub open spec fn spec_sections_for(v: ManifestView, need_cap: nat) -> Seq<SectionView> {
    seq![section_v("COMBAT"@, combat_rows(v), MAX_SECTION_ROWS as nat, false)] + (match v.subject {
        ManifestSubject::Player(p) => spec_player_sections(p),
        ManifestSubject::Program(p) => spec_program_sections(p, need_cap),
    }) + one_if(
        v.equipment@.len() > 0,
        section_v(
            "EQUIPMENT"@,
            equipment_rows(v.equipment@),
            MAX_SECTION_ROWS as nat,
            v.subject is Player,
        ),
    ) + one_if(
        v.routines@.len() > 0,
        section_v("ROUTINES"@, routine_rows(v.routines@), MAX_SECTION_ROWS as nat, false),
    )
}

/// Every box a manifest page draws. `need_cap` is how many of a program's
/// reserves its WORK box lists before counting the rest.
pub fn sections_for(v: &ManifestView, need_cap: usize) -> (out: Vec<Section>)
    ensures
        out.deep_view() == spec_sections_for(*v, need_cap as nat),
{
    let mut combat: Vec<SectionRow> = Vec::new();
    push_stat(&mut combat, "Damage", v.damage.clone());
    push_stat(&mut combat, "Attack", signed_text(v.atk as i64));
    match &v.subject {
        ManifestSubject::Player(_) => {
            push_stat(&mut combat, "Accuracy", v.accuracy.clone());
            push_stat(&mut combat, "Evasion", v.evasion.clone());
        },
        ManifestSubject::Program(_) => {},
    }
    let mut mitigation = signed_text(v.mitigation as i64);
    mitigation.append("%");
    push_stat(&mut combat, "Mitigation", mitigation);
    push_stat(&mut combat, "Power", signed_text(v.power as i64));
    assert(combat.deep_view() =~= combat_rows(*v));
    let mut sections: Vec<Section> = Vec::new();
    push_section(&mut sections, "COMBAT", combat, MAX_SECTION_ROWS, false);
    match &v.subject {
        ManifestSubject::Player(p) => player_sections(&mut sections, p),
        ManifestSubject::Program(p) => program_sections(&mut sections, p, need_cap),
    }
    if v.equipment.len() > 0 {
        let mut rows: Vec<SectionRow> = Vec::new();
        let mut i: usize = 0;
        while i < v.equipment.len()
            invariant
                i <= v.equipment@.len(),
                rows.deep_view() =~= equipment_rows(v.equipment@).take(i as int),
            decreases v.equipment@.len() - i,
        {
            let ghost before = rows.deep_view();
            let row = equip_row(&v.equipment[i]);
            rows.push(row);
            assert(rows.deep_view() =~= before.push(spec_equip_row(v.equipment@[i as int])));
            i = i + 1;
        }
        assert(equipment_rows(v.equipment@).take(v.equipment@.len() as int) =~= equipment_rows(
            v.equipment@,
        ));
        let full_width = match &v.subject {
            ManifestSubject::Player(_) => true,
            ManifestSubject::Program(_) => false,
        };
        push_section(&mut sections, "EQUIPMENT", rows, MAX_SECTION_ROWS, full_width);
    }
    if v.routines.len() > 0 {
        let mut rows: Vec<SectionRow> = Vec::new();
        let mut i: usize = 0;
        while i < v.routines.len()
            invariant
                i <= v.routines@.len(),
                rows.deep_view() =~= routine_rows(v.routines@).take(i as int),
            decreases v.routines@.len() - i,
        {
            let ghost before = rows.deep_view();
            let number = decimal_string(v.routines[i].index as u64 + 1);
            rows.push(SectionRow::Stat(number, v.routines[i].name.clone()));
            assert(rows.deep_view() =~= before.push(
                stat_v(decimal((v.routines@[i as int].index + 1) as nat), v.routines@[i as int].name@),
            ));
            i = i + 1;
        }
        assert(routine_rows(v.routines@).take(v.routines@.len() as int) =~= routine_rows(
            v.routines@,
        ));
        push_section(&mut sections, "ROUTINES", rows, MAX_SECTION_ROWS, false);
    }
    assert(sections.deep_view() =~= spec_sections_for(*v, need_cap as nat));
    sections
}


/// What the page's header says: its title line (with `[BOSS]` for a boss,
/// whose title is drawn red), the rare tier whose tag follows the title in
/// its own colour, and the dim line of tags under it.
#[derive(Debug)]
pub struct ManifestHeader {
    pub title: String,
    pub boss: bool,
    /// The title's colour: red for a boss, white otherwise.
    pub title_tint: Tint,
    pub rarity: Rarity,
    /// The rare tier's bracketed word and its colour, drawn after the title.
    pub tier_tag: Option<(String, Tint)>,
    pub tags: String,
}

/// The title's colour: red for a boss, since `[BOSS]` decides whether to
/// open the fight, and white otherwise.
pub open spec fn header_title_tint(v: ManifestView) -> Tint {
    if header_boss(v) {
        Tint::Red
    } else {
        Tint::White
    }
}

/// The rare tier's tag after the title, in the tier's own colour; nothing
/// for an ordinary program or the player.
pub open spec fn header_tier_tag(v: ManifestView) -> Option<(Seq<char>, Tint)> {
    match v.subject {
        ManifestSubject::Program(p) => match spec_rarity_color(p.rarity) {
            Some(c) => Some(
                (
                    spec_rarity_tag(
                        match p.rarity_label {
                            Some(l) => Some(l@),
                            None => None,
                        },
                    ),
                    c,
                ),
            ),
            None => None,
        },
        ManifestSubject::Player(_) => None,
    }
}

pub open spec fn tier_tag_view(t: Option<(String, Tint)>) -> Option<(Seq<char>, Tint)> {
    match t {
        Some((s, c)) => Some((s@, c)),
        None => None,
    }
}

pub open spec fn header_boss(v: ManifestView) -> bool {
    match v.subject {
        ManifestSubject::Program(p) => p.is_boss,
        ManifestSubject::Player(_) => false,
    }
}

pub open spec fn header_rarity(v: ManifestView) -> Rarity {
    match v.subject {
        ManifestSubject::Program(p) => p.rarity,
        ManifestSubject::Player(_) => Rarity::Ordinary,
    }
}

/// The name, with the species in brackets for a program that has one.
pub open spec fn header_title(v: ManifestView) -> Seq<char> {
    (match v.subject {
        ManifestSubject::Program(p) => match p.species_name {
            Some(s) => v.name@ + "  ("@ + s@ + ")"@,
            None => v.name@,
        },
        ManifestSubject::Player(_) => v.name@,
    }) + if header_boss(v) {
        "  [BOSS]"@
    } else {
        Seq::empty()
    }
}

/// A program's own tags: its potential, how far it has been fused and
/// upgraded, how far behind the player's zone it is (only when it is), and
/// what it is doing.
pub open spec fn program_tags(p: ProgramManifest) -> Seq<Seq<char>> {
    (match p.potential {
        Some(q) => seq![q.label@ + " ("@ + decimal(q.percent as nat) + "%)"@],
        None => Seq::empty(),
    }) + opt_part(
        p.fusions > 0,
        "fused "@ + decimal(p.fusions as nat) + "/"@ + decimal(p.max_fusions as nat),
    ) + opt_part(
        p.refactors > 0,
        "upgraded "@ + decimal(p.refactors as nat) + "/"@ + decimal(p.max_refactors as nat),
    ) + opt_part(
        p.zone_tier < p.player_zone,
        "zone "@ + decimal(p.zone_tier as nat) + " \u{2014} you're in "@ + decimal(
            p.player_zone as nat,
        ),
    ) + if p.is_companion {
        seq!["in party"@]
    } else {
        match p.activity {
            Some(a) => seq![a@],
            None => opt_part(p.is_hostile, "rogue"@),
        }
    }
}

pub open spec fn header_tags(v: ManifestView) -> Seq<Seq<char>> {
    (match v.level {
        Some(l) => seq!["Lv "@ + decimal(l as nat)],
        None => Seq::empty(),
    }) + (match v.subject {
        ManifestSubject::Program(p) => program_tags(p),
        ManifestSubject::Player(p) => seq![
            "Zone "@ + decimal(p.zone as nat),
            "Pets "@ + decimal(p.pet_count as nat) + "/"@ + decimal(p.pet_capacity as nat),
        ],
    }) + match v.status_effect {
        Some(s) => seq![s@],
        None => Seq::empty(),
    }
}

fn count_of(prefix: &str, n: u32, max: u32) -> (out: String)
    ensures
        out@ == prefix@ + decimal(n as nat) + "/"@ + decimal(max as nat),
{
    let mut out = String::from_str(prefix);
    push_decimal(&mut out, n as u64);
    out.append("/");
    push_decimal(&mut out, max as u64);
    out
}

fn push_program_tags(tags: &mut Vec<String>, p: &ProgramManifest)
    ensures
        final(tags).deep_view() == old(tags).deep_view() + program_tags(*p),
{
    let ghost start = tags.deep_view();
    match &p.potential {
        Some(q) => {
            let mut t = q.label.clone();
            t.append(" (");
            push_decimal(&mut t, q.percent as u64);
            t.append("%)");
            push_part(tags, t);
        },
        None => {},
    }
    if p.fusions > 0 {
        push_part(tags, count_of("fused ", p.fusions, p.max_fusions));
    }
    if p.refactors > 0 {
        push_part(tags, count_of("upgraded ", p.refactors, p.max_refactors));
    }
    if p.zone_tier < p.player_zone {
        let mut t = String::from_str("zone ");
        push_decimal(&mut t, p.zone_tier as u64);
        t.append(" \u{2014} you're in ");
        push_decimal(&mut t, p.player_zone as u64);
        push_part(tags, t);
    }
    if p.is_companion {
        push_part(tags, String::from_str("in party"));
    } else {
        match &p.activity {
            Some(a) => push_part(tags, a.clone()),
            None => {
                if p.is_hostile {
                    push_part(tags, String::from_str("rogue"));
                }
            },
        }
    }
    assert(tags.deep_view() =~= start + program_tags(*p));
}

/// The manifest header's words.
pub fn draw_header(v: &ManifestView) -> (h: ManifestHeader)
    ensures
        h.title@ == header_title(*v),
        h.boss == header_boss(*v),
        h.title_tint == header_title_tint(*v),
        h.rarity == header_rarity(*v),
        tier_tag_view(h.tier_tag) == header_tier_tag(*v),
        h.tags@ == joined_with(header_tags(*v), "   "@),
{
    let (boss, rarity) = match &v.subject {
        ManifestSubject::Program(p) => (p.is_boss, p.rarity),
        ManifestSubject::Player(_) => (false, Rarity::Ordinary),
    };
    let mut title = v.name.clone();
    match &v.subject {
        ManifestSubject::Program(p) => match &p.species_name {
            Some(s) => {
                title.append("  (");
                title.append(s.as_str());
                title.append(")");
            },
            None => {},
        },
        ManifestSubject::Player(_) => {},
    }
    if boss {
        title.append("  [BOSS]");
    }
    assert(title@ =~= header_title(*v));
    let mut tags: Vec<String> = Vec::new();
    match v.level {
        Some(l) => {
            let mut t = String::from_str("Lv ");
            push_decimal(&mut t, l as u64);
            push_part(&mut tags, t);
        },
        None => {},
    }
    match &v.subject {
        ManifestSubject::Program(p) => push_program_tags(&mut tags, p),
        ManifestSubject::Player(p) => {
            let mut zone = String::from_str("Zone ");
            push_decimal(&mut zone, p.zone as u64);
            push_part(&mut tags, zone);
            push_part(&mut tags, count_of("Pets ", p.pet_count, p.pet_capacity));
        },
    }
    match &v.status_effect {
        Some(s) => push_part(&mut tags, s.clone()),
        None => {},
    }
    assert(tags.deep_view() =~= header_tags(*v));
    let mut line = String::new();
    push_joined(&mut line, &tags, "   ");
    assert(line@ =~= joined_with(header_tags(*v), "   "@));
    let title_tint = if boss {
        Tint::Red
    } else {
        Tint::White
    };
    let tier_tag = match &v.subject {
        ManifestSubject::Program(p) => match rarity_color(p.rarity) {
            Some(c) => {
                let label = match &p.rarity_label {
                    Some(l) => Some(l.as_str()),
                    None => None,
                };
                Some((rarity_tag(label), c))
            },
            None => None,
        },
        ManifestSubject::Player(_) => None,
    };
    ManifestHeader { title, boss, title_tint, rarity, tier_tag, tags: line }
}

/// How the manifest was opened, which decides what its footer offers.
#[derive(Clone, Copy, Debug, PartialEq, Eq, Structural)]
pub struct ManifestNav {
    /// Left and right page between subjects: false for a wild program.
    pub cyclable: bool,
    /// Esc returns to the list this was opened from, not to the map.
    pub back_to_list: bool,
    /// `w` sends the map's camera to this program: true exactly when the
    /// sim walks it where the player can watch.
    pub watchable: bool,
}

pub open spec fn footer_parts(nav: ManifestNav) -> Seq<Seq<char>> {
    opt_part(nav.cyclable, "\u{2190}/\u{2192} other programs"@) + opt_part(
        nav.watchable,
        "[w] watch"@,
    ) + seq![
        if nav.back_to_list {
            "Esc back to list"@
        } else {
            "Esc back"@
        },
    ]
}

/// The footer: the keys this page answers to.
pub open spec fn spec_manifest_footer(nav: ManifestNav) -> Seq<char> {
    joined_with(footer_parts(nav), "      "@)
}

/// How the manifest reached for `pending` is navigated, given the programs
/// it can page between (`subjects`), whether it was opened from a list, and
/// whether the sim knows where `pending` stands on the map. Paging is
/// offered only when there is somewhere else to page to from here: more
/// than one subject, and the one open among them (a wild program reached by
/// looking is not). Watching is offered only for a subject the map can show.
pub fn manifest_nav(
    subjects: &[u64],
    pending: Option<u64>,
    returns_to_list: bool,
    position_known: bool,
) -> (nav: ManifestNav)
    ensures
        nav.cyclable == (subjects@.len() > 1 && pending is Some && subjects@.contains(
            pending.unwrap(),
        )),
        nav.back_to_list == returns_to_list,
        nav.watchable == (pending is Some && position_known),
{
    let mut listed = false;
    if let Some(e) = pending {
        let mut i: usize = 0;
        while i < subjects.len()
            invariant
                i <= subjects@.len(),
                listed == (exists|k: int| 0 <= k < i && subjects@[k] == e),
            decreases subjects@.len() - i,
        {
            if subjects[i] == e {
                listed = true;
            }
            i = i + 1;
        }
    }
    ManifestNav {
        cyclable: subjects.len() > 1 && listed,
        back_to_list: returns_to_list,
        watchable: pending.is_some() && position_known,
    }
}

/// A manifest screen: either a page, or the note that its subject is gone.
#[derive(Debug)]
pub enum ManifestScreen {
    Gone(Popup),
    Page { header: ManifestHeader, sections: Vec<Section>, footer: String },
}

pub open spec fn gone_popup() -> crate::popup::PopupView {
    popup_v("Manifest"@, PopupSize::Small, seq![text_v("That program is gone. Esc to go back."@)])
}

/// The manifest for `view`, or the note that its subject is gone.
pub fn draw_manifest(view: Option<&ManifestView>, nav: ManifestNav, need_cap: usize) -> (out:
    ManifestScreen)
    ensures
        match view {
            None => out matches ManifestScreen::Gone(p) && p@ == gone_popup(),
            Some(v) => match out {
                ManifestScreen::Page { header, sections, footer } => {
                    &&& header.title@ == header_title(*v)
                    &&& header.boss == header_boss(*v)
                    &&& header.title_tint == header_title_tint(*v)
                    &&& header.rarity == header_rarity(*v)
                    &&& tier_tag_view(header.tier_tag) == header_tier_tag(*v)
                    &&& header.tags@ == joined_with(header_tags(*v), "   "@)
                    &&& sections.deep_view() == spec_sections_for(*v, need_cap as nat)
                    &&& footer@ == spec_manifest_footer(nav)
                },
                ManifestScreen::Gone(_) => false,
            },
        },
{
    match view {
        None => {
            let mut rows: Vec<Row> = Vec::new();
            push_row(&mut rows, text_row("That program is gone. Esc to go back."));
            ManifestScreen::Gone(popup("Manifest", PopupSize::Small, rows))
        },
        Some(v) => {
            let header = draw_header(v);
            let sections = sections_for(v, need_cap);
            let mut parts: Vec<String> = Vec::new();
            if nav.cyclable {
                push_part(&mut parts, String::from_str("\u{2190}/\u{2192} other programs"));
            }
            if nav.watchable {
                push_part(&mut parts, String::from_str("[w] watch"));
            }
            if nav.back_to_list {
                push_part(&mut parts, String::from_str("Esc back to list"));
            } else {
                push_part(&mut parts, String::from_str("Esc back"));
            }
            assert(parts.deep_view() =~= footer_parts(nav));
            let mut footer = String::new();
            push_joined(&mut footer, &parts, "      ");
            assert(footer@ =~= spec_manifest_footer(nav));
            ManifestScreen::Page { header, sections, footer }
        },
    }
}

// ---------------------------------------------------------------------------
// The picker
// ---------------------------------------------------------------------------

/// One picker row's body. A program's carries the combat figures the choice
/// turns on; the player's carries none of them.
pub open spec fn pick_body(v: ManifestView) -> Seq<char> {
    let level = match v.level {
        Some(l) => l,
        None => 1u32,
    };
    match v.subject {
        ManifestSubject::Player(_) => "You - Lv"@ + decimal(level as nat),
        ManifestSubject::Program(p) => v.name@ + " Lv"@ + decimal(level as nat) + " - HP "@
            + signed_decimal(v.hp as int) + "/"@ + signed_decimal(v.max_hp as int) + "  ATK "@
            + signed_decimal(v.atk as int) + "  MIT "@ + signed_decimal(v.mitigation as int)
            + "%  PWR "@ + signed_decimal(v.power as int) + match p.activity {
            Some(a) => " ("@ + a@ + ")"@,
            None => Seq::empty(),
        },
    }
}

pub open spec fn spec_manifest_pick_label(shortcut: char, v: ManifestView) -> Seq<char> {
    keyed(shortcut, pick_body(v))
}

#[verifier::rlimit(40)]
pub fn manifest_pick_label(shortcut: char, v: &ManifestView) -> (out: String)
    ensures
        out@ == spec_manifest_pick_label(shortcut, *v),
{
    let level: u32 = match v.level {
        Some(l) => l,
        None => 1,
    };
    let mut out = String::from_str("[");
    push_char(&mut out, shortcut);
    out.append("] ");
    match &v.subject {
        ManifestSubject::Player(_) => {
            out.append("You - Lv");
            push_decimal(&mut out, level as u64);
        },
        ManifestSubject::Program(p) => {
            out.append(v.name.as_str());
            out.append(" Lv");
            push_decimal(&mut out, level as u64);
            out.append(" - HP ");
            push_signed(&mut out, v.hp as i64);
            out.append("/");
            push_signed(&mut out, v.max_hp as i64);
            out.append("  ATK ");
            push_signed(&mut out, v.atk as i64);
            out.append("  MIT ");
            push_signed(&mut out, v.mitigation as i64);
            out.append("%  PWR ");
            push_signed(&mut out, v.power as i64);
            match &p.activity {
                Some(a) => {
                    let tag = activity_tag(a.as_str());
                    out.append(tag.as_str());
                },
                None => {},
            }
        },
    }
    assert(out@ =~= spec_manifest_pick_label(shortcut, *v));
    out
}

/// One subject on the manifest picker: its shortcut, and its sheet unless it
/// has despawned since the list was made.
#[derive(Debug)]
pub struct PickSubject {
    pub shortcut: char,
    pub view: Option<ManifestView>,
}

/// A picker row: the subject's glyph in its own colour before the label, or
/// a blank slot for one that is gone, so the list keeps its column.
pub open spec fn pick_row(s: PickSubject, selected: bool) -> RowView {
    match s.view {
        Some(v) => with_icon_v(
            item_v(spec_manifest_pick_label(s.shortcut, v), selected),
            v.glyph,
            IconInk::Glyph(v.color),
        ),
        None => with_icon_v(
            item_v(keyed(s.shortcut, "(gone)"@), selected),
            ' ',
            IconInk::Body,
        ),
    }
}

pub open spec fn pick_rows(subjects: Seq<PickSubject>, selected: usize) -> Seq<RowView> {
    Seq::new(subjects.len(), |i: int| pick_row(subjects[i], i == selected))
}

/// Whose manifest to read.
pub fn draw_manifest_pick(subjects: &[PickSubject], selected: usize) -> (p: Popup)
    ensures
        p@ == popup_v(
            "Manifest"@,
            PopupSize::Large,
            seq![text_v("Read whose manifest?"@)] + pick_rows(subjects@, selected) + seq![
                text_v(""@),
                text_v("Esc to cancel"@),
            ],
        ),
{
    let mut rows: Vec<Row> = Vec::new();
    push_row(&mut rows, text_row("Read whose manifest?"));
    let ghost head = rows.deep_view();
    let mut i: usize = 0;
    while i < subjects.len()
        invariant
            i <= subjects@.len(),
            rows.deep_view() =~= head + pick_rows(subjects@, selected).take(i as int),
        decreases subjects@.len() - i,
    {
        let s = &subjects[i];
        let row = match &s.view {
            Some(v) => with_icon(
                item_row(manifest_pick_label(s.shortcut, v), i == selected),
                v.glyph,
                IconInk::Glyph(v.color),
            ),
            None => {
                let mut label = String::from_str("[");
                push_char(&mut label, s.shortcut);
                label.append("] ");
                label.append("(gone)");
                assert(label@ =~= keyed(s.shortcut, "(gone)"@));
                with_icon(item_row(label, i == selected), ' ', IconInk::Body)
            },
        };
        push_row(&mut rows, row);
        i = i + 1;
    }
    assert(pick_rows(subjects@, selected).take(subjects@.len() as int) =~= pick_rows(
        subjects@,
        selected,
    ));
    push_row(&mut rows, text_row(""));
    push_row(&mut rows, text_row("Esc to cancel"));
    popup("Manifest", PopupSize::Large, rows)
}


// ---------------------------------------------------------------------------
// Laws
// ---------------------------------------------------------------------------

pub open spec fn boxes_bounded(ss: Seq<SectionView>) -> bool {
    forall|i: int| 0 <= i < ss.len() ==> #[trigger] ss[i].rows.len() <= MAX_SECTION_ROWS
}

proof fn section_within_cap(title: Seq<char>, rows: Seq<SectionRowView>, cap: nat, full: bool)
    requires
        1 <= cap <= MAX_SECTION_ROWS,
    ensures
        boxes_bounded(seq![section_v(title, rows, cap, full)]),
{
    capped_sections_account_for_every_row(rows, cap);
    assert(seq![section_v(title, rows, cap, full)][0] == section_v(title, rows, cap, full));
}

proof fn bounded_concat(a: Seq<SectionView>, b: Seq<SectionView>)
    requires
        boxes_bounded(a),
        boxes_bounded(b),
    ensures
        boxes_bounded(a + b),
{
    assert forall|i: int| 0 <= i < (a + b).len() implies #[trigger] (a + b)[i].rows.len()
        <= MAX_SECTION_ROWS by {
        if i < a.len() {
            assert((a + b)[i] == a[i]);
        } else {
            assert((a + b)[i] == b[i - a.len()]);
        }
    }
}

proof fn one_if_bounded(present: bool, title: Seq<char>, rows: Seq<SectionRowView>, cap: nat, full: bool)
    requires
        1 <= cap <= MAX_SECTION_ROWS,
    ensures
        boxes_bounded(one_if(present, section_v(title, rows, cap, full))),
{
    section_within_cap(title, rows, cap, full);
}

/// No box on any manifest page draws more than `MAX_SECTION_ROWS` rows,
/// whatever the subject carries, so the page's height is bounded.
pub proof fn every_box_is_bounded(v: ManifestView, need_cap: nat)
    ensures
        boxes_bounded(spec_sections_for(v, need_cap)),
{
    let m = MAX_SECTION_ROWS as nat;
    section_within_cap("COMBAT"@, combat_rows(v), m, false);
    let middle = match v.subject {
        ManifestSubject::Player(p) => spec_player_sections(p),
        ManifestSubject::Program(p) => spec_program_sections(p, need_cap),
    };
    match v.subject {
        ManifestSubject::Player(p) => {
            section_within_cap("PROGRESSION"@, progression_rows(p), m, false);
            one_if_bounded(p.perks@.len() > 0, "PERKS"@, perk_rows(p.perks@), m, false);
            one_if_bounded(p.party@.len() > 0, "PARTY"@, party_rows(p.party@), m, false);
            section_within_cap("RUN"@, run_rows(p), m, false);
            let a = seq![section_v("PROGRESSION"@, progression_rows(p), m, false)];
            let b = one_if(p.perks@.len() > 0, section_v("PERKS"@, perk_rows(p.perks@), m, false));
            let c = one_if(
                p.party@.len() > 0,
                section_v("PARTY"@, party_rows(p.party@), m, false),
            );
            let d = seq![section_v("RUN"@, run_rows(p), m, false)];
            bounded_concat(a, b);
            bounded_concat(a + b, c);
            bounded_concat(a + b + c, d);
        },
        ManifestSubject::Program(p) => {
            let a = match p.potential {
                Some(q) => seq![section_v("POTENTIAL"@, potential_rows(q), m, false)],
                None => Seq::empty(),
            };
            match p.potential {
                Some(q) => section_within_cap("POTENTIAL"@, potential_rows(q), m, false),
                None => {},
            }
            let b = one_if(
                p.affinities@.len() > 0,
                section_v("AFFINITIES"@, affinity_rows(p.affinities@), MAX_AFFINITY_ROWS as nat, false),
            );
            one_if_bounded(
                p.affinities@.len() > 0,
                "AFFINITIES"@,
                affinity_rows(p.affinities@),
                MAX_AFFINITY_ROWS as nat,
                false,
            );
            let c = seq![
                section_v("SPECIES"@, species_rows(p), m, false),
                section_v("WORK"@, work_rows(p, need_cap), m, false),
            ];
            section_within_cap("SPECIES"@, species_rows(p), m, false);
            section_within_cap("WORK"@, work_rows(p, need_cap), m, false);
            bounded_concat(
                seq![section_v("SPECIES"@, species_rows(p), m, false)],
                seq![section_v("WORK"@, work_rows(p, need_cap), m, false)],
            );
            assert(c =~= seq![section_v("SPECIES"@, species_rows(p), m, false)] + seq![
                section_v("WORK"@, work_rows(p, need_cap), m, false),
            ]);
            let d = one_if(
                p.ring > 0 || p.talents_earned > 0,
                section_v("DEVELOPMENT"@, development_rows(p), m, false),
            );
            one_if_bounded(
                p.ring > 0 || p.talents_earned > 0,
                "DEVELOPMENT"@,
                development_rows(p),
                m,
                false,
            );
            let e = one_if(
                p.moves@.len() > 0,
                section_v("MOVES"@, move_rows(p.moves@), MAX_BAND_ROWS as nat, true),
            );
            one_if_bounded(
                p.moves@.len() > 0,
                "MOVES"@,
                move_rows(p.moves@),
                MAX_BAND_ROWS as nat,
                true,
            );
            bounded_concat(a, b);
            bounded_concat(a + b, c);
            bounded_concat(a + b + c, d);
            bounded_concat(a + b + c + d, e);
            assert(spec_program_sections(p, need_cap) == a + b + c + d + e);
        },
    }
    let head = seq![section_v("COMBAT"@, combat_rows(v), m, false)];
    let eq = one_if(
        v.equipment@.len() > 0,
        section_v("EQUIPMENT"@, equipment_rows(v.equipment@), m, v.subject is Player),
    );
    let rt = one_if(
        v.routines@.len() > 0,
        section_v("ROUTINES"@, routine_rows(v.routines@), m, false),
    );
    one_if_bounded(
        v.equipment@.len() > 0,
        "EQUIPMENT"@,
        equipment_rows(v.equipment@),
        m,
        v.subject is Player,
    );
    one_if_bounded(v.routines@.len() > 0, "ROUTINES"@, routine_rows(v.routines@), m, false);
    bounded_concat(head, middle);
    bounded_concat(head + middle, eq);
    bounded_concat(head + middle + eq, rt);
}

/// SPECIES never reaches its cap: at most five rows (habitats, the worked
/// resource, the two decompile odds, growth), so the next row added to it
/// still has room rather than vanishing into a `+N more` note.
pub proof fn species_stays_under_its_cap(p: ProgramManifest)
    ensures
        species_rows(p).len() <= 5,
        species_rows(p).len() < MAX_SECTION_ROWS,
        capped_section(species_rows(p), MAX_SECTION_ROWS as nat) == species_rows(p),
{
}

/// The footer offers `w` exactly when watching would work.
pub proof fn the_footer_offers_watch_exactly_when_watchable(nav: ManifestNav)
    ensures
        footer_parts(nav).contains("[w] watch"@) <==> nav.watchable,
{
    reveal_strlit("[w] watch");
    reveal_strlit("\u{2190}/\u{2192} other programs");
    reveal_strlit("Esc back to list");
    reveal_strlit("Esc back");
    let parts = footer_parts(nav);
    if nav.watchable {
        let k: int = if nav.cyclable {
            1
        } else {
            0
        };
        assert(parts[k] == "[w] watch"@);
    } else {
        assert forall|i: int| 0 <= i < parts.len() implies parts[i] != "[w] watch"@ by {
            assert(parts[i][0] != "[w] watch"@[0]);
        }
    }
}

} // verus!
