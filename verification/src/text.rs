//! Text as the screens build it: decimal figures, fixed-width cells, the
//! small bracketed tags every list appends, and the digit runs a damage line
//! picks out.
use vstd::prelude::*;
use vstd::string::StrSliceExecFns;
use vstd::string::StringExecFns;

use crate::tint::Tint;

verus! {

/// Appends one character with `String::push`; trusted to leave the string
/// as it was with `c` added at its end.
#[verifier::external_body]
pub(crate) fn push_char(s: &mut String, c: char)
    ensures
        final(s)@ == old(s)@.push(c),
{
    s.push(c)
}

/// What `str::to_uppercase` makes of a string: each character's full
/// Unicode uppercase mapping, in order (a mapping may be more than one
/// character long).
pub uninterp spec fn upper_cased(s: Seq<char>) -> Seq<char>;

/// `s` upper-cased by `str::to_uppercase`; trusted to return
/// `upper_cased(s)`, a result that depends on `s` alone. What that mapping
/// is for each character is left to std's Unicode tables and not stated.
#[verifier::external_body]
pub(crate) fn to_uppercase(s: &str) -> (out: String)
    ensures
        out@ == upper_cased(s@),
{
    s.to_uppercase()
}

/// An owned copy of `s`.
pub(crate) fn owned(s: &str) -> (out: String)
    ensures
        out@ == s@,
{
    String::from_str(s)
}

/// `a`, `b` and `c` in that order.
pub(crate) fn join3(a: &str, b: &str, c: &str) -> (out: String)
    ensures
        out@ == a@ + b@ + c@,
{
    let mut out = String::from_str(a);
    out.append(b);
    out.append(c);
    out
}

/// The character for a decimal digit.
pub open spec fn digit_char(d: int) -> char {
    (48 + d) as char
}

/// `n` written in decimal, most significant digit first, with no sign and
/// no leading zeros.
pub open spec fn decimal(n: nat) -> Seq<char>
    decreases n,
{
    if n < 10 {
        seq![digit_char(n as int)]
    } else {
        decimal(n / 10).push(digit_char((n % 10) as int))
    }
}

/// Appends `n` in decimal.
pub fn push_decimal(s: &mut String, n: u64)
    ensures
        final(s)@ == old(s)@ + decimal(n as nat),
    decreases n,
{
    if n >= 10 {
        push_decimal(s, n / 10);
    }
    let d: u8 = (n % 10) as u8;
    let c: char = (48u8 + d) as char;
    push_char(s, c);
    proof {
        if n >= 10 {
            assert(decimal(n as nat) == decimal((n / 10) as nat).push(digit_char((n % 10) as int)));
        }
        assert(old(s)@ + decimal(n as nat) =~= final(s)@);
    }
}

/// `n` in decimal, as its own string.
pub fn decimal_string(n: u64) -> (out: String)
    ensures
        out@ == decimal(n as nat),
{
    let mut out = String::new();
    push_decimal(&mut out, n);
    assert(out@ =~= decimal(n as nat));
    out
}

/// `n` written in decimal, with a leading minus when negative.
pub open spec fn signed_decimal(n: int) -> Seq<char> {
    if n < 0 {
        "-"@ + decimal((-n) as nat)
    } else {
        decimal(n as nat)
    }
}

/// Appends `n` in decimal, with a leading minus when negative.
pub fn push_signed(s: &mut String, n: i64)
    ensures
        final(s)@ == old(s)@ + signed_decimal(n as int),
{
    if n < 0 {
        s.append("-");
        let magnitude: u64 = if n == i64::MIN {
            9223372036854775808u64
        } else {
            (-n) as u64
        };
        push_decimal(s, magnitude);
        assert(final(s)@ =~= old(s)@ + signed_decimal(n as int));
    } else {
        push_decimal(s, n as u64);
    }
}

/// `items` joined with `sep` between each two.
pub open spec fn joined_with(items: Seq<Seq<char>>, sep: Seq<char>) -> Seq<char>
    decreases items.len(),
{
    if items.len() == 0 {
        Seq::empty()
    } else if items.len() == 1 {
        items[0]
    } else {
        joined_with(items.drop_last(), sep) + sep + items.last()
    }
}

/// Each of `items` behind a `sep` of its own, all run together.
pub open spec fn each_after(items: Seq<Seq<char>>, sep: Seq<char>) -> Seq<char>
    decreases items.len(),
{
    if items.len() == 0 {
        Seq::empty()
    } else {
        each_after(items.drop_last(), sep) + sep + items.last()
    }
}

/// One more `sep` in front of a joined list puts a `sep` in front of every
/// item.
pub proof fn lemma_sep_then_joined(items: Seq<Seq<char>>, sep: Seq<char>)
    requires
        items.len() > 0,
    ensures
        sep + joined_with(items, sep) == each_after(items, sep),
    decreases items.len(),
{
    if items.len() == 1 {
        assert(each_after(items.drop_last(), sep) =~= Seq::<char>::empty());
        assert(sep + joined_with(items, sep) =~= each_after(items, sep));
    } else {
        lemma_sep_then_joined(items.drop_last(), sep);
        assert(sep + joined_with(items, sep) =~= (sep + joined_with(items.drop_last(), sep)) + sep
            + items.last());
    }
}

/// `each_after` of two lists run together is the two results run together.
pub proof fn lemma_each_after_concat(a: Seq<Seq<char>>, b: Seq<Seq<char>>, sep: Seq<char>)
    ensures
        each_after(a + b, sep) == each_after(a, sep) + each_after(b, sep),
    decreases b.len(),
{
    if b.len() == 0 {
        assert(a + b =~= a);
        assert(each_after(a, sep) + each_after(b, sep) =~= each_after(a, sep));
    } else {
        lemma_each_after_concat(a, b.drop_last(), sep);
        assert((a + b).drop_last() =~= a + b.drop_last());
        assert((a + b).last() == b.last());
        assert(each_after(a + b, sep) =~= each_after(a, sep) + each_after(b, sep));
    }
}

/// `part` stands somewhere inside `whole`, unbroken.
pub open spec fn appears_in(part: Seq<char>, whole: Seq<char>) -> bool {
    exists|at: int|
        0 <= at && at + part.len() <= whole.len() && #[trigger] whole.subrange(at, at + part.len())
            == part
}

/// Appends `items` joined with `sep` between each two.
pub fn push_joined(s: &mut String, items: &Vec<String>, sep: &str)
    ensures
        final(s)@ == old(s)@ + joined_with(items.deep_view(), sep@),
{
    let ghost start = s@;
    let mut i: usize = 0;
    while i < items.len()
        invariant
            i <= items@.len(),
            s@ == start + joined_with(items.deep_view().subrange(0, i as int), sep@),
        decreases items@.len() - i,
    {
        if i > 0 {
            s.append(sep);
        }
        s.append(items[i].as_str());
        proof {
            let sub = items.deep_view().subrange(0, i + 1);
            assert(sub.drop_last() =~= items.deep_view().subrange(0, i as int));
            if i == 0 {
                assert(joined_with(items.deep_view().subrange(0, 0), sep@) =~= Seq::<char>::empty());
                assert(s@ =~= start + joined_with(sub, sep@));
            } else {
                assert(s@ =~= start + joined_with(sub, sep@));
            }
        }
        i = i + 1;
    }
    assert(items.deep_view().subrange(0, items@.len() as int) =~= items.deep_view());
}

/// `n` spaces.
pub open spec fn spaces(n: nat) -> Seq<char> {
    Seq::new(n, |_i: int| ' ')
}

/// At most the first `w` characters of `t`.
pub open spec fn clipped(t: Seq<char>, w: nat) -> Seq<char> {
    if t.len() <= w {
        t
    } else {
        t.take(w as int)
    }
}

/// Cuts `t` to `w` characters without padding, for a row whose tail is
/// right-aligned and so needs no column under it.
pub fn clip(t: &str, w: usize) -> (out: String)
    ensures
        out@ == clipped(t@, w as nat),
{
    let n = t.unicode_len();
    let k = if n <= w {
        n
    } else {
        w
    };
    let out = String::from_str(t.substring_char(0, k));
    assert(t@.subrange(0, n as int) =~= t@);
    out
}

/// Pads `t` to exactly `w` characters: cut to `w` when longer, filled out
/// with spaces when shorter. A fixed-width cell is what keeps a table's
/// columns under each other.
pub fn cell(t: &str, w: usize) -> (out: String)
    ensures
        out@ == clipped(t@, w as nat) + spaces((w - clipped(t@, w as nat).len()) as nat),
        out@.len() == w,
{
    let mut s = clip(t, w);
    let ghost head = s@;
    let n = s.unicode_len();
    let mut i = n;
    while i < w
        invariant
            n == head.len(),
            n <= i <= w,
            s@ == head + spaces((i - n) as nat),
        decreases w - i,
    {
        push_char(&mut s, ' ');
        i = i + 1;
        assert(s@ =~= head + spaces((i - n) as nat));
    }
    s
}

/// `t` in a cell of exactly `w` characters: padded with spaces when it
/// fits, and otherwise cut to `w - 1` characters and closed with `…`, so a
/// clipped name shows that it was clipped.
pub open spec fn ellipsized(t: Seq<char>, w: nat) -> Seq<char> {
    if t.len() <= w {
        t + spaces((w - t.len()) as nat)
    } else if w == 0 {
        Seq::empty()
    } else {
        t.take(w - 1) + seq!['\u{2026}']
    }
}

pub fn ellipsis_cell(t: &str, w: usize) -> (out: String)
    ensures
        out@ == ellipsized(t@, w as nat),
        out@.len() == w,
{
    let n = t.unicode_len();
    if n <= w {
        return cell(t, w);
    }
    if w == 0 {
        return String::new();
    }
    let mut out = String::from_str(t.substring_char(0, w - 1));
    push_char(&mut out, '\u{2026}');
    assert(out@ =~= ellipsized(t@, w as nat));
    out
}

/// `t` shortened to `keep` of its characters by cutting out of the middle:
/// the first half of them (the odd one going to the head, where a row's own
/// label sits), `…`, then the rest from the end.
pub open spec fn middle_elided(t: Seq<char>, keep: nat) -> Seq<char> {
    let head: int = (keep as int + 1) / 2;
    t.take(head) + seq!['\u{2026}'] + t.skip(t.len() - (keep - head))
}

/// `t` cut to `keep` characters out of its middle, closed up with `…`.
pub fn middle_elision(t: &str, keep: usize) -> (out: String)
    requires
        keep < t@.len(),
    ensures
        out@ == middle_elided(t@, keep as nat),
{
    let n = t.unicode_len();
    let head = keep / 2 + keep % 2;
    let mut out = String::from_str(t.substring_char(0, head));
    push_char(&mut out, '\u{2026}');
    out.append(t.substring_char(n - (keep - head), n));
    assert(out@ =~= middle_elided(t@, keep as nat));
    out
}

/// A program's current activity as a bracketed suffix, as every dialog that
/// lists programs appends it: ` (in party)`, ` (idle)`.
pub fn activity_tag(activity: &str) -> (out: String)
    ensures
        out@ == " ("@ + activity@ + ")"@,
{
    join3(" (", activity, ")")
}

/// A log row's text: the line itself, then ` ×N` when the row stands for
/// `N > 1` repeats folded into one.
pub fn message_text(text: &str, repeats: u32) -> (out: String)
    ensures
        out@ == if repeats > 1 {
            text@ + " \u{d7}"@ + decimal(repeats as nat)
        } else {
            text@
        },
{
    let mut out = owned(text);
    if repeats > 1 {
        out.append(" \u{d7}");
        push_decimal(&mut out, repeats as u64);
    }
    out
}

/// How a capped count reads in a menu row: nothing at zero, ` (<verb> n/max)`
/// below the ceiling and ` (<verb> n/max - maxed)` at or past it.
pub open spec fn capped_tag(verb: Seq<char>, n: u32, max: u32) -> Seq<char> {
    if n == 0 {
        Seq::empty()
    } else {
        " ("@ + verb + " "@ + decimal(n as nat) + "/"@ + decimal(max as nat) + if n >= max {
            " - maxed)"@
        } else {
            ")"@
        }
    }
}

fn capped_tag_string(verb: &str, n: u32, max: u32) -> (out: String)
    ensures
        out@ == capped_tag(verb@, n, max),
{
    if n == 0 {
        return String::new();
    }
    let mut out = join3(" (", verb, " ");
    push_decimal(&mut out, n as u64);
    out.append("/");
    push_decimal(&mut out, max as u64);
    if n >= max {
        out.append(" - maxed)");
    } else {
        out.append(")");
    }
    out
}

/// How a fusion depth reads in a menu row: nothing for something never
/// fused, a plain count while it has fusions left, and an explicit maxed
/// note at the ceiling.
pub fn fusion_tag(fusions: u32, max_fusions: u32) -> (out: String)
    ensures
        out@ == capped_tag("fused"@, fusions, max_fusions),
{
    capped_tag_string("fused", fusions, max_fusions)
}

/// The spent-upgrade-slots counterpart of `fusion_tag`, in the same shape.
pub fn refactor_tag(refactors: u32, max_refactors: u32) -> (out: String)
    ensures
        out@ == capped_tag("upgraded"@, refactors, max_refactors),
{
    capped_tag_string("upgraded", refactors, max_refactors)
}

/// How a rare tier reads where a full name will not fit: the tier's own
/// word, as the engine labels it, upper-cased in brackets after a space, so
/// it sits beside `[BOSS]`; nothing for a creature with no tier to label.
pub open spec fn spec_rarity_tag(label: Option<Seq<char>>) -> Seq<char> {
    match label {
        Some(l) => " ["@ + upper_cased(l) + "]"@,
        None => Seq::<char>::empty(),
    }
}

pub fn rarity_tag(label: Option<&str>) -> (out: String)
    ensures
        out@ == spec_rarity_tag(
            match label {
                Some(l) => Some(l@),
                None => None,
            },
        ),
{
    match label {
        Some(l) => {
            let upper = to_uppercase(l);
            join3(" [", upper.as_str(), "]")
        },
        None => String::new(),
    }
}

/// The sprite name to try for the player's own tile: the empty name is no
/// sprite at all, not a lookup.
pub fn player_sprite_name(sprite: &str) -> (out: Option<&str>)
    ensures
        match out {
            Some(s) => s@ == sprite@ && sprite@.len() > 0,
            None => sprite@.len() == 0,
        },
{
    if sprite.unicode_len() == 0 {
        None
    } else {
        Some(sprite)
    }
}

// ---------------------------------------------------------------------------
// Digit runs
// ---------------------------------------------------------------------------

/// One styled run of a line.
#[derive(Debug)]
pub struct TextRun {
    pub text: String,
    pub bold: bool,
    pub color: Tint,
}

/// A run as a plain value.
pub struct TextRunView {
    pub text: Seq<char>,
    pub bold: bool,
    pub color: Tint,
}

impl View for TextRun {
    type V = TextRunView;

    open spec fn view(&self) -> TextRunView {
        TextRunView { text: self.text@, bold: self.bold, color: self.color }
    }
}

impl DeepView for TextRun {
    type V = TextRunView;

    open spec fn deep_view(&self) -> TextRunView {
        self.view()
    }
}

pub open spec fn is_digit(c: char) -> bool {
    '0' <= c && c <= '9'
}

/// Every character of `s` is a digit exactly when `digits` holds.
pub open spec fn all_of_class(s: Seq<char>, digits: bool) -> bool {
    forall|k: int| 0 <= k < s.len() ==> is_digit(#[trigger] s[k]) == digits
}

/// The runs' texts, one after another.
pub open spec fn joined(runs: Seq<TextRunView>) -> Seq<char>
    decreases runs.len(),
{
    if runs.len() == 0 {
        Seq::empty()
    } else {
        joined(runs.drop_last()) + runs.last().text
    }
}

/// The weight of the `k`th run when the first has weight `first` and the
/// weights alternate.
pub open spec fn alternating(first: bool, k: int) -> bool {
    if k % 2 == 0 {
        first
    } else {
        !first
    }
}

/// Each run is non-empty and all digits or all not, its weight says which,
/// its colour follows its weight, and the weights alternate, so two
/// neighbours are never of the same class.
pub open spec fn runs_alternate(runs: Seq<TextRunView>, base: Tint, emphasis: Tint) -> bool {
    forall|k: int|
        0 <= k < runs.len() ==> {
            &&& (#[trigger] runs[k]).text.len() > 0
            &&& all_of_class(runs[k].text, runs[k].bold)
            &&& runs[k].color == if runs[k].bold {
                emphasis
            } else {
                base
            }
            &&& runs[k].bold == alternating(runs[0].bold, k)
        }
}

/// `runs` is `text` cut at every boundary between a digit and a non-digit
/// and nowhere else, the digit runs alone bold in `emphasis` and the rest in
/// `base`.
pub open spec fn digit_runs(
    text: Seq<char>,
    runs: Seq<TextRunView>,
    base: Tint,
    emphasis: Tint,
) -> bool {
    &&& joined(runs) == text
    &&& runs_alternate(runs, base, emphasis)
}

proof fn lemma_push_run(runs: Seq<TextRunView>, run: TextRunView, base: Tint, emphasis: Tint)
    requires
        runs_alternate(runs, base, emphasis),
        run.text.len() > 0,
        all_of_class(run.text, run.bold),
        run.color == if run.bold {
            emphasis
        } else {
            base
        },
        runs.len() > 0 ==> runs.last().bold != run.bold,
    ensures
        runs_alternate(runs.push(run), base, emphasis),
        joined(runs.push(run)) == joined(runs) + run.text,
{
    let out = runs.push(run);
    assert(out.drop_last() =~= runs);
    if runs.len() > 0 {
        assert(runs[runs.len() - 1].bold == alternating(runs[0].bold, runs.len() - 1));
        assert(out[0] == runs[0]);
    }
    assert forall|k: int| 0 <= k < out.len() implies {
        &&& (#[trigger] out[k]).text.len() > 0
        &&& all_of_class(out[k].text, out[k].bold)
        &&& out[k].color == if out[k].bold {
            emphasis
        } else {
            base
        }
        &&& out[k].bold == alternating(out[0].bold, k)
    } by {
        if k < runs.len() {
            assert(out[k] == runs[k]);
        }
    }
}

fn is_ascii_digit(c: char) -> (out: bool)
    ensures
        out == is_digit(c),
{
    '0' <= c && c <= '9'
}

fn close_run(runs: &mut Vec<TextRun>, cur: String, bold: bool, base: Tint, emphasis: Tint)
    requires
        runs_alternate(old(runs).deep_view(), base, emphasis),
        cur@.len() > 0,
        all_of_class(cur@, bold),
        old(runs).len() > 0 ==> old(runs).deep_view().last().bold != bold,
    ensures
        runs_alternate(final(runs).deep_view(), base, emphasis),
        joined(final(runs).deep_view()) == joined(old(runs).deep_view()) + cur@,
        final(runs).len() > 0,
        final(runs).deep_view().last().bold == bold,
{
    let run = TextRun {
        text: cur,
        bold,
        color: if bold {
            emphasis
        } else {
            base
        },
    };
    let ghost before = runs.deep_view();
    proof {
        lemma_push_run(before, run.deep_view(), base, emphasis);
    }
    runs.push(run);
    assert(runs.deep_view() =~= before.push(run.deep_view()));
}

/// Splits `text` so that every run of digits in it is drawn bold in
/// `emphasis` and everything else in `base`. The split is a re-styling of the
/// text, never a filter on it.
pub fn emphasize_numbers(text: &str, base: Tint, emphasis: Tint) -> (runs: Vec<TextRun>)
    ensures
        digit_runs(text@, runs.deep_view(), base, emphasis),
{
    let n = text.unicode_len();
    let mut runs: Vec<TextRun> = Vec::new();
    let mut cur = String::new();
    let mut in_number = false;
    let mut i: usize = 0;
    assert(runs.deep_view() =~= Seq::<TextRunView>::empty());
    while i < n
        invariant
            n == text@.len(),
            i <= n,
            joined(runs.deep_view()) + cur@ == text@.take(i as int),
            i > 0 ==> cur@.len() > 0,
            i == 0 ==> cur@.len() == 0 && runs.len() == 0,
            all_of_class(cur@, in_number),
            runs_alternate(runs.deep_view(), base, emphasis),
            runs.len() > 0 ==> runs.deep_view().last().bold != in_number,
        decreases n - i,
    {
        let c = text.get_char(i);
        let digit = is_ascii_digit(c);
        if i > 0 && digit != in_number {
            close_run(&mut runs, cur, in_number, base, emphasis);
            cur = String::new();
        }
        in_number = digit;
        let ghost prev = cur@;
        push_char(&mut cur, c);
        proof {
            assert(text@.take(i + 1) =~= text@.take(i as int).push(c));
            assert(all_of_class(cur@, in_number)) by {
                assert forall|k: int| 0 <= k < cur@.len() implies is_digit(#[trigger] cur@[k])
                    == in_number by {
                    if k < prev.len() {
                        assert(cur@[k] == prev[k]);
                    }
                }
            }
        }
        i = i + 1;
    }
    if n > 0 {
        close_run(&mut runs, cur, in_number, base, emphasis);
    } else {
        assert(cur@ =~= Seq::<char>::empty());
    }
    assert(text@.take(n as int) =~= text@);
    runs
}

} // verus!
