//! The level-up summary: what the page over the map says, line by line.
use vstd::prelude::*;
use vstd::string::StringExecFns;

use crate::text::{decimal, owned, push_decimal, push_signed, signed_decimal};

verus! {

/// Right-aligned on the perk line: the key that opens the perk screen.
pub const PERKS_HINT: &'static str = "[P] Perks";

/// Right-aligned on the last line: the key that closes the page.
pub const ESC_HINT: &'static str = "[Esc] Close";

/// Heads the spending section.
pub const SPEND_HEADER: &'static str = "TO SPEND";

/// One stat as it moved: its name, and its value before and after.
#[derive(Debug)]
pub struct StatRow {
    pub label: String,
    pub before: i32,
    pub after: i32,
}

/// What a level-up report says in whole numbers.
#[derive(Debug)]
pub struct LevelUpReport {
    pub from_level: u32,
    pub to_level: u32,
    /// The zone whose typical foe the duel figures are measured against.
    pub zone: u32,
    pub stats: Vec<StatRow>,
    /// Swings the player needs to win, before and after.
    pub swings_to_win: (u32, u32),
    /// Swings the foe needs to down the player, before and after.
    pub swings_to_down_you: (u32, u32),
    pub perk_points_gained: u32,
    pub perk_points_unspent: u32,
    pub decompiler_gained: u32,
}

/// The page's lines, top to bottom: the title in bold, one line per stat,
/// the duel section's header and its four rows, then the two spending
/// lines under `SPEND_HEADER`.
#[derive(Debug)]
pub struct LevelUpPage {
    pub title: String,
    pub stats: Vec<String>,
    pub duel_header: String,
    pub duel: Vec<String>,
    pub perk_line: String,
    pub decompiler_line: String,
}

pub open spec fn arrow_v() -> Seq<char> {
    " \u{2192} "@
}

pub open spec fn spec_title(r: LevelUpReport) -> Seq<char> {
    "LEVEL "@ + decimal(r.from_level as nat) + arrow_v() + decimal(r.to_level as nat)
}

/// A stat as the page lists it: `  label   before → after`.
pub open spec fn spec_stat_line(s: StatRow) -> Seq<char> {
    "  "@ + s.label@ + "   "@ + signed_decimal(s.before as int) + arrow_v() + signed_decimal(
        s.after as int,
    )
}

pub open spec fn spec_swings_line(lead: Seq<char>, pair: (u32, u32)) -> Seq<char> {
    lead + decimal(pair.0 as nat) + arrow_v() + decimal(pair.1 as nat)
}

/// The page for `r`, with the two duel rows written from fractions
/// (`hit_line`, the hit chance; `swing_line`, the damage per swing) given
/// as written, and the two counted in swings written here.
pub open spec fn spec_level_up_page(
    r: LevelUpReport,
    hit_line: Seq<char>,
    swing_line: Seq<char>,
) -> (Seq<char>, Seq<Seq<char>>, Seq<char>, Seq<Seq<char>>, Seq<char>, Seq<char>) {
    (
        spec_title(r),
        Seq::new(r.stats@.len(), |i: int| spec_stat_line(r.stats@[i])),
        "AGAINST A TYPICAL ZONE "@ + decimal(r.zone as nat) + " PROGRAM"@,
        seq![
            hit_line,
            swing_line,
            spec_swings_line("  Swings to win    "@, r.swings_to_win),
            spec_swings_line("  Its swings to down you   "@, r.swings_to_down_you),
        ],
        "  +"@ + decimal(r.perk_points_gained as nat) + " Perk Points ("@ + decimal(
            r.perk_points_unspent as nat,
        ) + " unspent)"@,
        "  +"@ + decimal(r.decompiler_gained as nat) + " Decompiler skill"@,
    )
}

pub open spec fn page_view(p: LevelUpPage) -> (
    Seq<char>,
    Seq<Seq<char>>,
    Seq<char>,
    Seq<Seq<char>>,
    Seq<char>,
    Seq<char>,
) {
    (p.title@, p.stats.deep_view(), p.duel_header@, p.duel.deep_view(), p.perk_line@, p.decompiler_line@)
}

fn arrow_pair(s: &mut String, before: u64, after: u64)
    ensures
        final(s)@ == old(s)@ + decimal(before as nat) + arrow_v() + decimal(after as nat),
{
    push_decimal(s, before);
    s.append(" \u{2192} ");
    push_decimal(s, after);
}

fn stat_line(row: &StatRow) -> (out: String)
    ensures
        out@ == spec_stat_line(*row),
{
    let mut out = String::from_str("  ");
    out.append(row.label.as_str());
    out.append("   ");
    push_signed(&mut out, row.before as i64);
    out.append(" \u{2192} ");
    push_signed(&mut out, row.after as i64);
    out
}

fn swings_line(lead: &str, pair: (u32, u32)) -> (out: String)
    ensures
        out@ == spec_swings_line(lead@, pair),
{
    let mut out = owned(lead);
    arrow_pair(&mut out, pair.0 as u64, pair.1 as u64);
    out
}

/// The level-up page for `r`; `hit_line` and `swing_line` are the duel
/// rows written from its fractional figures.
pub fn level_up_page(r: &LevelUpReport, hit_line: String, swing_line: String) -> (p: LevelUpPage)
    ensures
        page_view(p) == spec_level_up_page(*r, hit_line@, swing_line@),
{
    let mut title = String::from_str("LEVEL ");
    arrow_pair(&mut title, r.from_level as u64, r.to_level as u64);
    let mut stats: Vec<String> = Vec::new();
    let mut i: usize = 0;
    while i < r.stats.len()
        invariant
            i <= r.stats@.len(),
            stats.deep_view() =~= Seq::new(i as nat, |k: int| spec_stat_line(r.stats@[k])),
        decreases r.stats@.len() - i,
    {
        let line = stat_line(&r.stats[i]);
        let ghost before = stats.deep_view();
        stats.push(line);
        assert(stats.deep_view() =~= before.push(line@));
        i = i + 1;
    }
    let mut duel_header = String::from_str("AGAINST A TYPICAL ZONE ");
    push_decimal(&mut duel_header, r.zone as u64);
    duel_header.append(" PROGRAM");
    let ghost (hit, swing) = (hit_line@, swing_line@);
    let mut duel: Vec<String> = Vec::new();
    duel.push(hit_line);
    duel.push(swing_line);
    let win = swings_line("  Swings to win    ", r.swings_to_win);
    duel.push(win);
    let down = swings_line("  Its swings to down you   ", r.swings_to_down_you);
    duel.push(down);
    let mut perk_line = String::from_str("  +");
    push_decimal(&mut perk_line, r.perk_points_gained as u64);
    perk_line.append(" Perk Points (");
    push_decimal(&mut perk_line, r.perk_points_unspent as u64);
    perk_line.append(" unspent)");
    let mut decompiler_line = String::from_str("  +");
    push_decimal(&mut decompiler_line, r.decompiler_gained as u64);
    decompiler_line.append(" Decompiler skill");
    let p = LevelUpPage { title, stats, duel_header, duel, perk_line, decompiler_line };
    assert(p.duel.deep_view() =~= seq![hit, swing, win@, down@]);
    assert(page_view(p) =~= spec_level_up_page(*r, hit, swing));
    p
}

} // verus!
