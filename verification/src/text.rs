//! Human-readable text: chord names, durations and decimal numbers.

use vstd::prelude::*;

use crate::constants::{NOTE_NAMES, PENTATONIC_MINOR};

verus! {

/// The decimal digits, as one-character strings.
pub const DIGITS: [&'static str; 10] = ["0", "1", "2", "3", "4", "5", "6", "7", "8", "9"];

/// What stands between two chord names in a chord description.
pub const CHORD_SEPARATOR: &'static str = " \u{2013} ";

/// Decimal notation of `n`, without leading zeros.
pub open spec fn decimal(n: nat) -> Seq<char>
    decreases n,
{
    if n < 10 {
        DIGITS@[n as int]@
    } else {
        decimal(n / 10) + DIGITS@[(n % 10) as int]@
    }
}

/// Seconds of a minute written with two digits.
pub open spec fn two_digits(n: nat) -> Seq<char> {
    if n < 10 {
        DIGITS@[0]@ + decimal(n)
    } else {
        decimal(n)
    }
}

/// A duration in whole seconds: `"42s"` below a minute, `"m:ss"` from one minute on.
pub open spec fn duration_text(total: nat) -> Seq<char> {
    if total < 60 {
        decimal(total) + "s"@
    } else {
        clock_text(total)
    }
}

/// A clock reading of whole seconds: `"m:ss"`, minutes unbounded.
pub open spec fn clock_text(secs: nat) -> Seq<char> {
    decimal(secs / 60) + ":"@ + two_digits(secs % 60)
}

/// Name of the chord on scale degree `degree` of the minor pentatonic scale
/// over `root`.
pub open spec fn chord_name(root: u8, degree: usize) -> Seq<char> {
    NOTE_NAMES@[((root as int + PENTATONIC_MINOR@[degree as int] as int) % 12)]@
}

/// The chord names of a progression joined by `CHORD_SEPARATOR`.
pub open spec fn chord_description_of(root: u8, progression: Seq<usize>) -> Seq<char>
    decreases progression.len(),
{
    if progression.len() == 0 {
        Seq::empty()
    } else if progression.len() == 1 {
        chord_name(root, progression[0])
    } else {
        chord_description_of(root, progression.drop_last()) + CHORD_SEPARATOR@ + chord_name(
            root,
            progression.last(),
        )
    }
}

/// Write `n` in decimal.
pub fn decimal_string(n: u64) -> (r: String)
    ensures
        r@ == decimal(n as nat),
    decreases n,
{
    if n < 10 {
        String::from_str(DIGITS[n as usize])
    } else {
        let mut s = decimal_string(n / 10);
        s.append(DIGITS[(n % 10) as usize]);
        s
    }
}

/// Format a duration given in whole seconds: `"42s"` or `"3:07"`.
pub fn format_duration(total_secs: u64) -> (r: String)
    ensures
        r@ == duration_text(total_secs as nat),
{
    if total_secs < 60 {
        let mut s = decimal_string(total_secs);
        s.append("s");
        s
    } else {
        format_clock(total_secs)
    }
}

/// Write whole seconds as a clock reading, `"m:ss"`.
pub fn format_clock(secs: u64) -> (r: String)
    ensures
        r@ == clock_text(secs as nat),
{
    let m = secs / 60;
    let sec = secs % 60;
    let mut s = decimal_string(m);
    s.append(":");
    if sec < 10 {
        s.append(DIGITS[0]);
    }
    let tail = decimal_string(sec);
    s.append(tail.as_str());
    s
}

/// Name the chords of a progression, e.g. `"C – D# – F – D#"`.
pub fn build_chord_description(root: u8, chord_progression: &[usize]) -> (r: String)
    requires
        forall|i: int| 0 <= i < chord_progression@.len() ==> chord_progression@[i] < 5,
    ensures
        r@ == chord_description_of(root, chord_progression@),
{
    let mut s = String::new();
    let n = chord_progression.len();
    let mut i: usize = 0;
    while i < n
        invariant
            n == chord_progression@.len(),
            0 <= i <= n,
            forall|k: int| 0 <= k < chord_progression@.len() ==> chord_progression@[k] < 5,
            s@ == chord_description_of(root, chord_progression@.take(i as int)),
        decreases n - i,
    {
        let d = chord_progression[i];
        let note_idx = ((root as usize) + (PENTATONIC_MINOR[d] as usize)) % 12;
        let name = NOTE_NAMES[note_idx];
        assert(chord_progression@.take(i + 1).drop_last() =~= chord_progression@.take(i as int));
        if i != 0 {
            s.append(CHORD_SEPARATOR);
        }
        s.append(name);
        i += 1;
    }
    assert(chord_progression@.take(n as int) =~= chord_progression@);
    s
}

/// The strings of `items` joined by `sep`.
pub open spec fn joined(items: Seq<Seq<char>>, sep: Seq<char>) -> Seq<char>
    decreases items.len(),
{
    if items.len() == 0 {
        Seq::empty()
    } else if items.len() == 1 {
        items[0]
    } else {
        joined(items.drop_last(), sep) + sep + items.last()
    }
}

/// The views of a slice of strings.
pub open spec fn string_views(items: Seq<String>) -> Seq<Seq<char>> {
    items.map_values(|s: String| s@)
}

/// Join strings with a separator, e.g. `"rock, metal"`.
pub fn join_strings(items: &[String], sep: &str) -> (r: String)
    ensures
        r@ == joined(string_views(items@), sep@),
{
    let mut s = String::new();
    let n = items.len();
    let mut i: usize = 0;
    while i < n
        invariant
            n == items@.len(),
            0 <= i <= n,
            s@ == joined(string_views(items@.take(i as int)), sep@),
        decreases n - i,
    {
        assert(string_views(items@.take(i + 1)).drop_last() =~= string_views(items@.take(i as int)));
        assert(string_views(items@.take(i + 1)).last() == items@[i as int]@);
        if i != 0 {
            s.append(sep);
        }
        s.append(items[i].as_str());
        i += 1;
    }
    assert(items@.take(n as int) =~= items@);
    s
}

} // verus!

verus! {

/// The number a string of decimal digits stands for.
pub open spec fn digits_value(s: Seq<char>) -> int
    decreases s.len(),
{
    if s.len() == 0 {
        0
    } else {
        digits_value(s.drop_last()) * 10 + (s.last() as int - '0' as int)
    }
}

/// Every character is a decimal digit.
pub open spec fn all_digits(s: Seq<char>) -> bool {
    forall|i: int| 0 <= i < s.len() ==> '0' <= #[trigger] s[i] <= '9'
}

/// Each entry of the digit table is the one character of its digit.
proof fn lemma_digit_chars()
    ensures
        forall|k: int| 0 <= k < 10 ==> #[trigger] DIGITS@[k]@ == seq![(48 + k) as char],
        digits_value(Seq::<char>::empty()) == 0,
{
    reveal_strlit("0");
    reveal_strlit("1");
    reveal_strlit("2");
    reveal_strlit("3");
    reveal_strlit("4");
    reveal_strlit("5");
    reveal_strlit("6");
    reveal_strlit("7");
    reveal_strlit("8");
    reveal_strlit("9");
    assert(DIGITS@[0]@ =~= seq![48 as char]);
    assert(DIGITS@[1]@ =~= seq![49 as char]);
    assert(DIGITS@[2]@ =~= seq![50 as char]);
    assert(DIGITS@[3]@ =~= seq![51 as char]);
    assert(DIGITS@[4]@ =~= seq![52 as char]);
    assert(DIGITS@[5]@ =~= seq![53 as char]);
    assert(DIGITS@[6]@ =~= seq![54 as char]);
    assert(DIGITS@[7]@ =~= seq![55 as char]);
    assert(DIGITS@[8]@ =~= seq![56 as char]);
    assert(DIGITS@[9]@ =~= seq![57 as char]);
}

/// Decimal notation reads back as the number it was made from, is made of
/// digits only, and starts with a zero only when it is zero itself.
pub proof fn lemma_decimal_reads_back(n: nat)
    ensures
        digits_value(decimal(n)) == n,
        all_digits(decimal(n)),
        decimal(n).len() >= 1,
        decimal(n)[0] == '0' ==> n == 0,
    decreases n,
{
    lemma_digit_chars();
    let d = DIGITS@[(n % 10) as int]@;
    assert(d == seq![(48 + n % 10) as char]);
    assert(d.drop_last() =~= Seq::<char>::empty());
    assert(d[0] as int == 48 + n % 10);
    if n >= 10 {
        lemma_decimal_reads_back(n / 10);
        let a = decimal(n / 10);
        let s = a + d;
        assert(s.drop_last() =~= a);
        assert(s.last() == d[0]);
        assert forall|i: int| 0 <= i < s.len() implies '0' <= #[trigger] s[i] <= '9' by {
            if i < a.len() {
                assert(s[i] == a[i]);
            }
        }
        assert(s[0] == a[0]);
    } else {
        assert(n % 10 == n);
        assert(digits_value(d) == digits_value(d.drop_last()) * 10 + (d.last() as int - '0' as int));
    }
}

/// A clock reading is the minutes, a colon and the seconds in two digits,
/// and a duration under a minute is its seconds followed by `s`.
pub proof fn lemma_clock_text_reads_back(secs: nat)
    ensures
        ({
            let t = clock_text(secs);
            let m = decimal(secs / 60);
            &&& t.len() == m.len() + 3
            &&& t.subrange(0, m.len() as int) == m
            &&& t[m.len() as int] == ':'
            &&& all_digits(t.subrange(m.len() as int + 1, t.len() as int))
            &&& digits_value(t.subrange(m.len() as int + 1, t.len() as int)) == secs % 60
        }),
        secs < 60 ==> duration_text(secs) == decimal(secs) + seq!['s'],
        secs >= 60 ==> duration_text(secs) == clock_text(secs),
{
    lemma_digit_chars();
    reveal_strlit(":");
    reveal_strlit("s");
    let s = secs % 60;
    lemma_decimal_reads_back(s);
    lemma_decimal_reads_back(secs / 60);
    let m = decimal(secs / 60);
    let two = two_digits(s);
    if s < 10 {
        let z = DIGITS@[0]@;
        assert(z =~= seq!['0']);
        let d = decimal(s);
        assert(d.len() == 1);
        assert(two =~= seq!['0'] + d);
        assert(two.drop_last() =~= seq!['0']);
        assert(digits_value(seq!['0']) == 0) by {
            assert(seq!['0'].drop_last() =~= Seq::<char>::empty());
        }
        assert(digits_value(d) == d[0] as int - '0' as int) by {
            assert(d.drop_last() =~= Seq::<char>::empty());
        }
        assert(two.last() == d[0]);
        assert forall|i: int| 0 <= i < two.len() implies '0' <= #[trigger] two[i] <= '9' by {
            if i == 1 {
                assert(two[1] == d[0]);
            }
        }
    } else {
        assert(s / 10 < 10 && s / 10 >= 1);
        assert(decimal(s) == decimal(s / 10) + DIGITS@[(s % 10) as int]@);
        assert(decimal(s / 10).len() == 1);
        assert(DIGITS@[(s % 10) as int]@.len() == 1);
    }
    let t = clock_text(secs);
    assert(t =~= m + seq![':'] + two);
    assert(t.subrange(0, m.len() as int) =~= m);
    assert(t.subrange(m.len() as int + 1, t.len() as int) =~= two);
    if secs < 60 {
        assert(duration_text(secs) =~= decimal(secs) + seq!['s']);
    }
}

} // verus!
