use vstd::prelude::*;
use crate::alert::{Alert, AlertLevel};
use crate::colonist::{spec_full_name, Colonist, Sex};
use crate::nav::{ScreenId, ShipFocus};
use crate::text::{decimal, digit_char, push_char, push_decimal, push_spaces};
use vstd::string::StrSliceExecFns;

verus! {

pub const MINUTE: u64 = 60;
pub const HOUR: u64 = 3600;
pub const DAY: u64 = 86400;
/// A mission month: thirty days.
pub const MONTH: u64 = 2_592_000;
/// A mission year: 365 days.
pub const YEAR: u64 = 31_536_000;

/// `d` with zeros in front, to at least `width` characters.
pub open spec fn zero_pad(d: Seq<char>, width: nat) -> Seq<char> {
    if d.len() < width {
        Seq::new((width - d.len()) as nat, |_i: int| '0') + d
    } else {
        d
    }
}

/// Appends `n` in decimal, with zeros in front to at least `width` digits.
pub fn push_padded(s: &mut String, n: u64, width: usize)
    ensures
        final(s)@ == old(s)@ + zero_pad(decimal(n as nat), width as nat),
{
    let mut digits = String::new();
    push_decimal(&mut digits, n);
    assert(digits@ =~= decimal(n as nat));
    let len = digits.as_str().unicode_len();
    let ghost start = s@;
    if len < width {
        let mut i: usize = 0;
        while i < width - len
            invariant
                i <= width - len,
                s@ == start + Seq::new(i as nat, |_i: int| '0'),
            decreases width - len - i,
        {
            push_char(s, '0');
            i = i + 1;
            assert(s@ =~= start + Seq::new(i as nat, |_i: int| '0'));
        }
    }
    s.append(digits.as_str());
    assert(s@ =~= start + zero_pad(decimal(n as nat), width as nat));
}

/// The mission clock: years of 365 days, months of 30 days taken from the
/// rest of the year, and days, hours, minutes and seconds.
pub open spec fn spec_mission_time(total: nat) -> Seq<char> {
    "T+ "@ + zero_pad(decimal(total / YEAR as nat), 4) + "y:"@
        + zero_pad(decimal((total % YEAR as nat) / MONTH as nat), 2) + "m:"@
        + zero_pad(decimal((total % MONTH as nat) / DAY as nat), 2) + "d "@
        + zero_pad(decimal((total % DAY as nat) / HOUR as nat), 2) + ":"@
        + zero_pad(decimal((total % HOUR as nat) / MINUTE as nat), 2) + ":"@
        + zero_pad(decimal(total % MINUTE as nat), 2)
}

/// The mission clock of `total` whole seconds since launch.
pub fn mission_time(total: u64) -> (t: String)
    ensures
        t@ == spec_mission_time(total as nat),
{
    let mut t = String::from_str("T+ ");
    push_padded(&mut t, total / YEAR, 4);
    t.append("y:");
    push_padded(&mut t, (total % YEAR) / MONTH, 2);
    t.append("m:");
    push_padded(&mut t, (total % MONTH) / DAY, 2);
    t.append("d ");
    push_padded(&mut t, (total % DAY) / HOUR, 2);
    t.append(":");
    push_padded(&mut t, (total % HOUR) / MINUTE, 2);
    t.append(":");
    push_padded(&mut t, total % MINUTE, 2);
    t
}

/// A count followed by its unit.
pub open spec fn with_unit(n: nat, unit: Seq<char>) -> Seq<char> {
    decimal(n) + unit
}

/// How far back a history chart reaches, in the largest unit that keeps it
/// readable.
pub open spec fn spec_span_label(s: nat) -> Seq<char> {
    if s < 90 {
        with_unit(s, "s"@)
    } else if s < 5400 {
        with_unit(s / 60, "m"@)
    } else if s < 129_600 {
        with_unit(s / 3600, "h"@)
    } else if s < 3_888_000 {
        with_unit(s / 86400, "d"@)
    } else {
        with_unit(s / 2_592_000, "mo"@)
    }
}

pub fn span_label(s: u64) -> (l: String)
    ensures
        l@ == spec_span_label(s as nat),
{
    let mut l = String::new();
    if s < 90 {
        push_decimal(&mut l, s);
        l.append("s");
    } else if s < 5400 {
        push_decimal(&mut l, s / 60);
        l.append("m");
    } else if s < 129_600 {
        push_decimal(&mut l, s / 3600);
        l.append("h");
    } else if s < 3_888_000 {
        push_decimal(&mut l, s / 86400);
        l.append("d");
    } else {
        push_decimal(&mut l, s / 2_592_000);
        l.append("mo");
    }
    l
}

/// How long the reactor's fuel lasts, in the largest unit that keeps it
/// readable.
pub open spec fn spec_fuel_label(s: nat) -> Seq<char> {
    if s < 90 {
        with_unit(s, "s"@)
    } else if s < 5400 {
        with_unit(s / 60, "m"@)
    } else if s < 172_800 {
        with_unit(s / 3600, "h"@)
    } else {
        with_unit(s / 86400, "d"@)
    }
}

pub fn fuel_label(s: u64) -> (l: String)
    ensures
        l@ == spec_fuel_label(s as nat),
{
    let mut l = String::new();
    if s < 90 {
        push_decimal(&mut l, s);
        l.append("s");
    } else if s < 5400 {
        push_decimal(&mut l, s / 60);
        l.append("m");
    } else if s < 172_800 {
        push_decimal(&mut l, s / 3600);
        l.append("h");
    } else {
        push_decimal(&mut l, s / 86400);
        l.append("d");
    }
    l
}

/// The colour role of a piece of text.
#[derive(Debug, Clone, Copy, PartialEq, Eq, Structural)]
pub enum Tone {
    Normal,
    Good,
    Danger,
    Error,
}

/// How a piece of text is drawn: its colour role and emphasis.
#[derive(Debug, Clone, Copy, PartialEq, Eq, Structural)]
pub struct Look {
    pub tone: Tone,
    pub bold: bool,
    pub dim: bool,
    pub reversed: bool,
}

pub open spec fn plain(tone: Tone) -> Look {
    Look { tone, bold: false, dim: false, reversed: false }
}

/// Critical alerts in reversed bold error colour, warnings in bold danger
/// colour.
pub open spec fn spec_alert_look(level: AlertLevel) -> Look {
    match level {
        AlertLevel::Critical => Look { tone: Tone::Error, bold: true, dim: false, reversed: true },
        AlertLevel::Warning => Look { tone: Tone::Danger, bold: true, dim: false, reversed: false },
    }
}

pub fn alert_look(level: AlertLevel) -> (l: Look)
    ensures
        l == spec_alert_look(level),
{
    match level {
        AlertLevel::Critical => Look { tone: Tone::Error, bold: true, dim: false, reversed: true },
        AlertLevel::Warning => Look { tone: Tone::Danger, bold: true, dim: false, reversed: false },
    }
}

/// The banner line of an alert: indentation, its symbol, its label.
pub open spec fn spec_alert_text(alert: Alert, indent: nat) -> Seq<char> {
    Seq::new(indent, |_i: int| ' ') + (if alert.level == AlertLevel::Critical { "‼"@ } else { "⚠"@ })
        + " "@ + alert.label@ + " "@
}

pub fn alert_text(alert: &Alert, indent: usize) -> (t: String)
    ensures
        t@ == spec_alert_text(*alert, indent as nat),
{
    let mut t = String::new();
    push_spaces(&mut t, indent);
    match alert.level {
        AlertLevel::Critical => t.append("‼"),
        AlertLevel::Warning => t.append("⚠"),
    }
    t.append(" ");
    t.append(alert.label);
    t.append(" ");
    assert(Seq::<char>::empty() + Seq::new(indent as nat, |_i: int| ' ') =~= Seq::new(indent as nat, |_i: int| ' '));
    t
}

/// A menu or list entry: the selected one between arrow markers.
pub open spec fn spec_marked(label: Seq<char>, selected: bool) -> Seq<char> {
    if selected { "▶ "@ + label + " ◀"@ } else { label }
}

pub fn marked(label: &str, selected: bool) -> (t: String)
    ensures
        t@ == spec_marked(label@, selected),
{
    if selected {
        let mut t = String::from_str("▶ ");
        t.append(label);
        t.append(" ◀");
        t
    } else {
        String::from_str(label)
    }
}

/// The marker and looks of a system's row in the sidebar: the marker shows
/// on the system on screen, bright when the sidebar has the focus and dim
/// otherwise; the label takes the colour of the system's worst alert.
pub open spec fn spec_sidebar_looks(active: bool, focus: ShipFocus, alert: Option<AlertLevel>) -> (&'static str, Look, Look) {
    let focused = active && focus == ShipFocus::Systems;
    let (marker, marker_look) = if !active {
        (" ", plain(Tone::Normal))
    } else if focused {
        ("▶", plain(Tone::Good))
    } else {
        ("▶", Look { tone: Tone::Normal, bold: false, dim: true, reversed: false })
    };
    let label_look = match alert {
        Some(AlertLevel::Critical) => Look { tone: Tone::Error, bold: true, dim: false, reversed: false },
        Some(AlertLevel::Warning) => Look { tone: Tone::Danger, bold: true, dim: false, reversed: false },
        None => if focused { plain(Tone::Good) } else { plain(Tone::Normal) },
    };
    (marker, marker_look, label_look)
}

pub fn sidebar_looks(active: bool, focus: ShipFocus, alert: Option<AlertLevel>) -> (r: (&'static str, Look, Look))
    ensures
        r == spec_sidebar_looks(active, focus, alert),
{
    let focused = active && focus == ShipFocus::Systems;
    let (marker, marker_look) = if !active {
        (" ", Look { tone: Tone::Normal, bold: false, dim: false, reversed: false })
    } else if focused {
        ("▶", Look { tone: Tone::Good, bold: false, dim: false, reversed: false })
    } else {
        ("▶", Look { tone: Tone::Normal, bold: false, dim: true, reversed: false })
    };
    let label_look = match alert {
        Some(AlertLevel::Critical) => Look { tone: Tone::Error, bold: true, dim: false, reversed: false },
        Some(AlertLevel::Warning) => Look { tone: Tone::Danger, bold: true, dim: false, reversed: false },
        None => if focused {
            Look { tone: Tone::Good, bold: false, dim: false, reversed: false }
        } else {
            Look { tone: Tone::Normal, bold: false, dim: false, reversed: false }
        },
    };
    (marker, marker_look, label_look)
}

/// A centred line: `text` between runs of `symbol`, the odd cell on the right.
pub open spec fn spec_padded_line(text: Seq<char>, width: nat, symbol: char) -> Seq<char> {
    let pad = if width > text.len() { (width - text.len()) as nat } else { 0 };
    Seq::new(pad / 2, |_i: int| symbol) + text + Seq::new((pad - pad / 2) as nat, |_i: int| symbol)
}

fn push_repeated(s: &mut String, c: char, n: usize)
    ensures
        final(s)@ == old(s)@ + Seq::new(n as nat, |_i: int| c),
{
    let ghost start = s@;
    let mut i: usize = 0;
    while i < n
        invariant
            i <= n,
            s@ == start + Seq::new(i as nat, |_i: int| c),
        decreases n - i,
    {
        push_char(s, c);
        i = i + 1;
        assert(s@ =~= start + Seq::new(i as nat, |_i: int| c));
    }
}

pub fn padded_line(text: &str, width: usize, symbol: char) -> (l: String)
    ensures
        l@ == spec_padded_line(text@, width as nat, symbol),
{
    let len = text.unicode_len();
    let pad = if width > len { width - len } else { 0 };
    let mut l = String::new();
    push_repeated(&mut l, symbol, pad / 2);
    l.append(text);
    push_repeated(&mut l, symbol, pad - pad / 2);
    assert(l@ =~= spec_padded_line(text@, width as nat, symbol));
    l
}

/// `text` with spaces after it, to at least `width` characters.
pub open spec fn spec_pad_right(text: Seq<char>, width: nat) -> Seq<char> {
    if text.len() < width { text + Seq::new((width - text.len()) as nat, |_i: int| ' ') } else { text }
}

pub fn pad_right(text: &str, width: usize) -> (l: String)
    ensures
        l@ == spec_pad_right(text@, width as nat),
{
    let len = text.unicode_len();
    let mut l = String::from_str(text);
    if len < width {
        push_spaces(&mut l, width - len);
    }
    l
}

/// `text` with spaces before it, to at least `width` characters.
pub open spec fn spec_pad_left(text: Seq<char>, width: nat) -> Seq<char> {
    if text.len() < width { Seq::new((width - text.len()) as nat, |_i: int| ' ') + text } else { text }
}

/// Appends `n` in decimal, right-aligned in at least `width` characters.
pub fn push_right_aligned(s: &mut String, n: u64, width: usize)
    ensures
        final(s)@ == old(s)@ + spec_pad_left(decimal(n as nat), width as nat),
{
    let mut digits = String::new();
    push_decimal(&mut digits, n);
    assert(digits@ =~= decimal(n as nat));
    let len = digits.as_str().unicode_len();
    let ghost start = s@;
    if len < width {
        push_spaces(s, width - len);
    }
    s.append(digits.as_str());
    assert(s@ =~= start + spec_pad_left(decimal(n as nat), width as nat));
}

/// The letter of a colonist's sex.
pub open spec fn sex_letter(sex: Sex) -> Seq<char> {
    match sex {
        Sex::Female => "F"@,
        Sex::Male => "M"@,
    }
}

/// A row of the colonist list: the marker of the selected row, the
/// colonist's number (one more than `index`) in four columns, the full name
/// padded to 28, the sex letter and the age in three columns.
pub open spec fn spec_colonist_row(number: nat, name: Seq<char>, sex: Sex, age: nat, selected: bool) -> Seq<char> {
    (if selected { "▶ "@ } else { "  "@ }) + spec_pad_left(decimal(number), 4) + "  "@
        + spec_pad_right(name, 28) + " "@ + sex_letter(sex) + "  "@ + spec_pad_left(decimal(age), 3)
}

pub fn colonist_row(index: usize, colonist: &Colonist, selected: bool) -> (row: String)
    requires
        index < usize::MAX,
    ensures
        row@ == spec_colonist_row(
            (index + 1) as nat,
            spec_full_name(colonist.first_name@, colonist.last_name@),
            colonist.sex,
            colonist.age as nat,
            selected,
        ),
{
    let mut row = if selected { String::from_str("▶ ") } else { String::from_str("  ") };
    push_right_aligned(&mut row, (index + 1) as u64, 4);
    row.append("  ");
    let name = colonist.full_name();
    let padded = pad_right(name.as_str(), 28);
    row.append(padded.as_str());
    row.append(" ");
    let letter = match colonist.sex {
        Sex::Female => "F",
        Sex::Male => "M",
    };
    row.append(letter);
    row.append("  ");
    push_right_aligned(&mut row, colonist.age as u64, 3);
    proof {
        assert(letter@ == sex_letter(colonist.sex));
        assert(row@ =~= spec_colonist_row(
            (index + 1) as nat,
            spec_full_name(colonist.first_name@, colonist.last_name@),
            colonist.sex,
            colonist.age as nat,
            selected,
        ));
    }
    row
}

/// The hotkey tag of a sidebar row, such as `[R] `.
pub fn hotkey_tag(sys: ScreenId) -> (t: String)
    ensures
        t@ == seq!['['] + seq![if sys == ScreenId::Reactor { 'R' } else if sys == ScreenId::Pods { 'P' } else { ' ' }] + "] "@,
{
    let mut t = String::from_str("[");
    push_char(&mut t, sys.hotkey());
    t.append("] ");
    proof {
        reveal_strlit("[");
    }
    t
}

/// Whether an autosave is due: saving is switched on, a colony is loaded, and
/// at least the interval has passed since the last save.
pub fn autosave_due(interval_secs: u64, has_world: bool, elapsed_secs: i64) -> (due: bool)
    ensures
        due == (interval_secs != 0 && has_world && elapsed_secs >= interval_secs as i64),
{
    interval_secs != 0 && has_world && elapsed_secs >= interval_secs as i64
}

/// Every field of the mission clock but the years stays within its unit:
/// at most twelve months, under thirty days, 24 hours, 60 minutes and 60
/// seconds.
pub proof fn lemma_mission_clock_fields(total: nat)
    ensures
        (total % (YEAR as nat)) / (MONTH as nat) <= 12,
        (total % (MONTH as nat)) / (DAY as nat) < 30,
        (total % (DAY as nat)) / (HOUR as nat) < 24,
        (total % (HOUR as nat)) / (MINUTE as nat) < 60,
        total % (MINUTE as nat) < 60,
{
    assert((total % (YEAR as nat)) / (MONTH as nat) <= 12) by (nonlinear_arith)
        requires
            total % (YEAR as nat) < (YEAR as nat),
    ;
    assert((total % (MONTH as nat)) / (DAY as nat) < 30) by (nonlinear_arith)
        requires
            total % (MONTH as nat) < (MONTH as nat),
    ;
    assert((total % (DAY as nat)) / (HOUR as nat) < 24) by (nonlinear_arith)
        requires
            total % (DAY as nat) < (DAY as nat),
    ;
    assert((total % (HOUR as nat)) / (MINUTE as nat) < 60) by (nonlinear_arith)
        requires
            total % (HOUR as nat) < (HOUR as nat),
    ;
}

/// Two decimal digits of `n` (below a hundred), a leading zero kept.
pub open spec fn two_digits(n: nat) -> Seq<char> {
    seq![digit_char(n / 10), digit_char(n % 10)]
}

proof fn lemma_two_digits(n: nat)
    requires
        n < 100,
    ensures
        zero_pad(decimal(n), 2) == two_digits(n),
{
    reveal_with_fuel(decimal, 2);
    if n < 10 {
        assert(decimal(n) =~= seq![digit_char(n)]);
        assert(digit_char(n / 10) == '0');
        assert(zero_pad(decimal(n), 2) =~= two_digits(n));
    } else {
        assert(decimal(n / 10) =~= seq![digit_char(n / 10)]);
        assert(decimal(n) =~= decimal(n / 10).push(digit_char(n % 10)));
        assert(zero_pad(decimal(n), 2) =~= two_digits(n));
    }
}

/// How the mission clock reads: `T+ `, the years in at least four digits,
/// then `y:`, the month of the year (30-day months), `m:`, the day of the
/// month, `d `, and the time of day as hh:mm:ss, with
/// hh = (total % 86400) / 3600, mm = (total % 3600) / 60 and ss = total % 60.
pub proof fn lemma_mission_clock_reads(total: nat)
    ensures
        ({
            let t = spec_mission_time(total);
            let n = t.len() as int;
            &&& n >= 25
            &&& t.subrange(0, 3) == seq!['T', '+', ' ']
            &&& t.subrange(3, n - 18) == zero_pad(decimal(total / 31_536_000), 4)
            &&& t.subrange(n - 18, n) == seq!['y', ':'] + two_digits((total % 31_536_000) / 2_592_000)
                + seq!['m', ':'] + two_digits((total % 2_592_000) / 86400) + seq!['d', ' ']
                + two_digits((total % 86400) / 3600) + seq![':'] + two_digits((total % 3600) / 60)
                + seq![':'] + two_digits(total % 60)
        }),
{
    reveal_strlit("T+ ");
    reveal_strlit("y:");
    reveal_strlit("m:");
    reveal_strlit("d ");
    reveal_strlit(":");
    lemma_mission_clock_fields(total);
    let mo = (total % 31_536_000) / 2_592_000;
    let d = (total % 2_592_000) / 86400;
    let h = (total % 86400) / 3600;
    let m = (total % 3600) / 60;
    let sec = total % 60;
    lemma_two_digits(mo);
    lemma_two_digits(d);
    lemma_two_digits(h);
    lemma_two_digits(m);
    lemma_two_digits(sec);
    let y = zero_pad(decimal(total / 31_536_000), 4);
    assert(y.len() >= 4);
    let tail = seq!['y', ':'] + two_digits(mo) + seq!['m', ':'] + two_digits(d) + seq!['d', ' ']
        + two_digits(h) + seq![':'] + two_digits(m) + seq![':'] + two_digits(sec);
    let t = spec_mission_time(total);
    assert(t =~= seq!['T', '+', ' '] + y + tail);
    assert(tail.len() == 18);
    assert(t.subrange(0, 3) =~= seq!['T', '+', ' ']);
    assert(t.subrange(3, t.len() - 18) =~= y);
    assert(t.subrange(t.len() - 18, t.len() as int) =~= tail);
}

/// The fuel label counts in the unit it names: seconds below 90 s, whole
/// minutes below 90 min, whole hours below two days, whole days beyond.
pub proof fn lemma_fuel_label_units(s: nat)
    ensures
        s < 90 ==> spec_fuel_label(s) == decimal(s).push('s'),
        90 <= s < 5400 ==> spec_fuel_label(s) == decimal(s / 60).push('m'),
        5400 <= s < 172_800 ==> spec_fuel_label(s) == decimal(s / 3600).push('h'),
        172_800 <= s ==> spec_fuel_label(s) == decimal(s / 86400).push('d'),
{
    reveal_strlit("s");
    reveal_strlit("m");
    reveal_strlit("h");
    reveal_strlit("d");
    assert(decimal(s) + "s"@ =~= decimal(s).push('s'));
    assert(decimal(s / 60) + "m"@ =~= decimal(s / 60).push('m'));
    assert(decimal(s / 3600) + "h"@ =~= decimal(s / 3600).push('h'));
    assert(decimal(s / 86400) + "d"@ =~= decimal(s / 86400).push('d'));
}

/// The span label counts in the unit it names: seconds below 90 s, whole
/// minutes below 90 min, whole hours below 36 h, whole days below 45 days,
/// whole 30-day months beyond.
pub proof fn lemma_span_label_units(s: nat)
    ensures
        s < 90 ==> spec_span_label(s) == decimal(s).push('s'),
        90 <= s < 5400 ==> spec_span_label(s) == decimal(s / 60).push('m'),
        5400 <= s < 129_600 ==> spec_span_label(s) == decimal(s / 3600).push('h'),
        129_600 <= s < 3_888_000 ==> spec_span_label(s) == decimal(s / 86400).push('d'),
        3_888_000 <= s ==> spec_span_label(s) == decimal(s / 2_592_000).push('m').push('o'),
{
    reveal_strlit("s");
    reveal_strlit("m");
    reveal_strlit("h");
    reveal_strlit("d");
    reveal_strlit("mo");
    assert(decimal(s) + "s"@ =~= decimal(s).push('s'));
    assert(decimal(s / 60) + "m"@ =~= decimal(s / 60).push('m'));
    assert(decimal(s / 3600) + "h"@ =~= decimal(s / 3600).push('h'));
    assert(decimal(s / 86400) + "d"@ =~= decimal(s / 86400).push('d'));
    assert(decimal(s / 2_592_000) + "mo"@ =~= decimal(s / 2_592_000).push('m').push('o'));
}

} // verus!
