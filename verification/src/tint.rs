//! The popup screens' colours, named by what they mean, and the rules that
//! pick one for a row.
//!
//! The popups draw over the HUD with a palette of their own; a `Tint` is one
//! entry of it, and the frontend turns it into pixels.
use vstd::prelude::*;

verus! {

/// One colour of the popup screens' palette.
#[derive(Clone, Copy, Debug, PartialEq, Eq, Structural)]
pub enum Tint {
    /// Body text.
    Text,
    /// Chatter, hints and spent rows.
    TextDim,
    Red,
    Yellow,
    Blue,
    Cyan,
    Magenta,
    Green,
    Orange,
    /// The rare tiers, cool blue through violet.
    Silver,
    Gold,
    Platinum,
    Prismatic,
    /// The two neutrals at either end of the ramp.
    White,
    Gray,
}

/// What colour a menu row draws in for something that has been fused: cyan
/// while it can still be an input to another fusion, magenta once it is at
/// `max_fusions` and finished. Nothing for something never fused.
pub open spec fn spec_fusion_color(fusions: u32, max_fusions: u32) -> Option<Tint> {
    if fusions == 0 {
        None
    } else if fusions >= max_fusions {
        Some(Tint::Magenta)
    } else {
        Some(Tint::Cyan)
    }
}

/// The fusion colour of a row; see `spec_fusion_color`. `max_fusions` is the
/// engine's fusion ceiling, shared by programs and gear.
pub fn fusion_color(fusions: u32, max_fusions: u32) -> (out: Option<Tint>)
    ensures
        out == spec_fusion_color(fusions, max_fusions),
{
    if fusions == 0 {
        None
    } else if fusions >= max_fusions {
        Some(Tint::Magenta)
    } else {
        Some(Tint::Cyan)
    }
}

/// A creature's rare tier, ordinary first.
#[derive(Clone, Copy, Debug, PartialEq, Eq, Structural)]
pub enum Rarity {
    Ordinary,
    Silver,
    Gold,
    Platinum,
    Prismatic,
}

pub open spec fn spec_rarity_color(rarity: Rarity) -> Option<Tint> {
    match rarity {
        Rarity::Ordinary => None,
        Rarity::Silver => Some(Tint::Silver),
        Rarity::Gold => Some(Tint::Gold),
        Rarity::Platinum => Some(Tint::Platinum),
        Rarity::Prismatic => Some(Tint::Prismatic),
    }
}

/// What colour a rare tier draws in, or nothing for an ordinary one. The map's
/// tile bar and every menu row call this same function.
pub fn rarity_color(rarity: Rarity) -> (out: Option<Tint>)
    ensures
        out == spec_rarity_color(rarity),
{
    match rarity {
        Rarity::Ordinary => None,
        Rarity::Silver => Some(Tint::Silver),
        Rarity::Gold => Some(Tint::Gold),
        Rarity::Platinum => Some(Tint::Platinum),
        Rarity::Prismatic => Some(Tint::Prismatic),
    }
}

/// The one colour rule for a row carrying both permanent tiers: fusion
/// outranks rarity, and a row with neither keeps its plain colour.
pub fn tier_color(fusions: u32, max_fusions: u32, rarity: Rarity) -> (out: Option<Tint>)
    ensures
        out == (match spec_fusion_color(fusions, max_fusions) {
            Some(t) => Some(t),
            None => spec_rarity_color(rarity),
        }),
{
    match fusion_color(fusions, max_fusions) {
        Some(t) => Some(t),
        None => rarity_color(rarity),
    }
}

/// How well a copy was compiled, worst band first.
#[derive(Clone, Copy, Debug, PartialEq, Eq, Structural)]
pub enum QualityBand {
    Under,
    AsDesigned,
    Above,
    Exceptional,
}

/// A band's place on the ramp, worst first.
pub open spec fn band_rank(band: QualityBand) -> int {
    match band {
        QualityBand::Under => 0,
        QualityBand::AsDesigned => 1,
        QualityBand::Above => 2,
        QualityBand::Exceptional => 3,
    }
}

pub open spec fn spec_quality_tag_style(band: Option<QualityBand>) -> (Tint, bool) {
    match band {
        None => (Tint::Text, false),
        Some(QualityBand::AsDesigned) => (Tint::Text, false),
        Some(QualityBand::Under) => (Tint::Gray, false),
        Some(QualityBand::Above) => (Tint::Text, true),
        Some(QualityBand::Exceptional) => (Tint::Gold, true),
    }
}

/// How a row's category tag is painted for the quality band of the copy it
/// stands for: a colour and whether it is bold. Only the two extremes spend a
/// colour; the as-designed band, and a row naming no copy, are no change.
pub fn quality_tag_style(band: Option<QualityBand>) -> (out: (Tint, bool))
    ensures
        out == spec_quality_tag_style(band),
{
    match band {
        None => (Tint::Text, false),
        Some(QualityBand::AsDesigned) => (Tint::Text, false),
        Some(QualityBand::Under) => (Tint::Gray, false),
        Some(QualityBand::Above) => (Tint::Text, true),
        Some(QualityBand::Exceptional) => (Tint::Gold, true),
    }
}

/// The quality ramp gains emphasis and never gives it back: a band at least
/// as good as another is at least as bold.
pub proof fn quality_emphasis_is_monotone(a: QualityBand, b: QualityBand)
    requires
        band_rank(a) <= band_rank(b),
    ensures
        spec_quality_tag_style(Some(a)).1 ==> spec_quality_tag_style(Some(b)).1,
{
}

/// What kind of news a log line is, as the engine classifies it.
#[derive(Clone, Copy, Debug, PartialEq, Eq, Structural)]
pub enum MessageKind {
    Info,
    Loot,
    LevelUp,
    Round,
    Outcome,
    PartyDamage,
    EnemyAttack,
    EnemySpecial,
    Heal,
    Complete,
    Refusal,
    Raid,
}

/// Where a log line's news comes from.
#[derive(Clone, Copy, Debug, PartialEq, Eq, Structural)]
pub enum MessageSource {
    Field,
    Base,
}

pub open spec fn spec_message_color(kind: MessageKind) -> Tint {
    match kind {
        MessageKind::Info | MessageKind::Round | MessageKind::PartyDamage => Tint::TextDim,
        MessageKind::Loot => Tint::Blue,
        MessageKind::LevelUp | MessageKind::Heal | MessageKind::Complete => Tint::Green,
        MessageKind::Raid | MessageKind::EnemySpecial => Tint::Orange,
        MessageKind::EnemyAttack | MessageKind::Refusal => Tint::Red,
        MessageKind::Outcome => Tint::Text,
    }
}

/// The colour a log line of each kind is narrated in, chosen by its kind
/// rather than by sniffing the text.
pub fn message_color(kind: MessageKind) -> (out: Tint)
    ensures
        out == spec_message_color(kind),
{
    match kind {
        MessageKind::Info | MessageKind::Round | MessageKind::PartyDamage => Tint::TextDim,
        MessageKind::Loot => Tint::Blue,
        MessageKind::LevelUp | MessageKind::Heal | MessageKind::Complete => Tint::Green,
        MessageKind::Raid | MessageKind::EnemySpecial => Tint::Orange,
        MessageKind::EnemyAttack | MessageKind::Refusal => Tint::Red,
        MessageKind::Outcome => Tint::Text,
    }
}

/// Red is the "no" colour: a line is narrated in red exactly when it is a
/// refusal or an enemy's blow landing, so a refusal never wears the colour of
/// something going right (a level, a patch, a finished order).
pub proof fn red_means_no(kind: MessageKind)
    ensures
        spec_message_color(MessageKind::Refusal) == Tint::Red,
        (spec_message_color(kind) == Tint::Red) <==> (kind == MessageKind::Refusal || kind
            == MessageKind::EnemyAttack),
        kind == MessageKind::LevelUp || kind == MessageKind::Heal || kind == MessageKind::Complete
            ==> spec_message_color(kind) != spec_message_color(MessageKind::Refusal),
{
}

/// Whether a kind's line is read for a number rather than for its wording:
/// the party's own blows and its own mending.
pub fn emphasizes_numbers(kind: MessageKind) -> (out: bool)
    ensures
        out == (kind == MessageKind::PartyDamage || kind == MessageKind::Heal),
{
    match kind {
        MessageKind::PartyDamage | MessageKind::Heal => true,
        _ => false,
    }
}

/// The kinds a player tells apart at a glance mid-fight: what they gained,
/// the enemy's blow, the enemy's special, their own hit, Integrity coming
/// back, and how the fight came out.
pub open spec fn mid_fight_kinds() -> Seq<MessageKind> {
    seq![
        MessageKind::Loot,
        MessageKind::EnemyAttack,
        MessageKind::EnemySpecial,
        MessageKind::PartyDamage,
        MessageKind::Heal,
        MessageKind::Outcome,
    ]
}

/// The six log kinds a player reads mid-fight are narrated in six different
/// colours.
pub proof fn mid_fight_log_colours_are_distinct()
    ensures
        forall|i: int, j: int|
            0 <= i < j < mid_fight_kinds().len() ==> spec_message_color(
                #[trigger] mid_fight_kinds()[i],
            ) != spec_message_color(#[trigger] mid_fight_kinds()[j]),
{
    let s = mid_fight_kinds();
    assert forall|i: int, j: int| 0 <= i < j < s.len() implies spec_message_color(
        #[trigger] s[i],
    ) != spec_message_color(#[trigger] s[j]) by {
        if i == 0 {
            assert(j == 1 || j == 2 || j == 3 || j == 4 || j == 5);
        } else if i == 1 {
            assert(j == 2 || j == 3 || j == 4 || j == 5);
        } else if i == 2 {
            assert(j == 3 || j == 4 || j == 5);
        } else if i == 3 {
            assert(j == 4 || j == 5);
        }
    }
}

} // verus!
