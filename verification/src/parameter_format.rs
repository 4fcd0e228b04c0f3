//! The text side of parameter value parsing: which part of the user's
//! input holds the number, how that number is scaled, and which words
//! stand for a fixed value.
//!
//! Reading the number itself and applying the scale is floating-point work
//! done by the caller.

use vstd::prelude::*;
use crate::chars::{
    chars_of, trim_chars, strip_suffix_chars, trim_end_matches_chars, chars_eq,
    chars_eq_ignore_ascii_case, sub_chars, trim_ws, strip_suffix, trim_end_matches,
    eq_ignore_ascii_case, lemma_trim_idempotent, ends_with, is_white_space, trim_start_ws, trim_end_ws,
};

verus! {

/// The kind of a parameter value formatter: how values are shown and which
/// unit suffixes and words its parser accepts.
#[derive(Clone, Copy, Debug, PartialEq, Eq, Structural)]
pub enum FormatterKind {
    /// A plain number.
    Float,
    /// Linear gain shown in decibels.
    Decibel,
    /// A value already in decibels.
    DecibelDirect,
    /// A frequency in Hz or kHz.
    Frequency,
    /// A time in milliseconds.
    Milliseconds,
    /// A time in seconds.
    Seconds,
    /// A fraction shown as a percentage.
    Percent,
    /// A stereo position, left (negative) to right (positive).
    Pan,
    /// A compressor ratio.
    Ratio,
    /// A pitch offset in semitones.
    Semitones,
    /// An on/off switch.
    Boolean,
}

/// How the number read from the text becomes the value.
#[derive(Clone, Copy, Debug, PartialEq, Eq, Structural)]
pub enum NumberScale {
    /// The number is the value.
    Plain,
    /// The number is in thousands (kHz).
    Kilo,
    /// The number is a percentage: the value is a hundredth of it.
    Percent,
    /// The number is a percentage to the left: the value is minus a
    /// hundredth of it.
    NegativePercent,
    /// A bare pan number: a hundredth of it when its magnitude exceeds one,
    /// otherwise the number itself.
    PanAuto,
    /// The number is in decibels: the value is the linear gain.
    Decibels,
}

/// What the text of a parameter value stands for.
#[derive(Clone, Debug)]
pub enum ParsedText {
    /// A number to read from `text`, then scale.
    Number { text: Vec<char>, scale: NumberScale },
    /// Zero (pan centre, or off).
    Zero,
    /// One (on).
    One,
    /// The bottom of the decibel range (silence).
    MinusInfinity,
    /// An infinite ratio.
    PlusInfinity,
    /// The text stands for no value.
    Invalid,
}

/// [`ParsedText`] with the number text as a character sequence.
pub enum ParsedTextModel {
    Number { text: Seq<char>, scale: NumberScale },
    Zero,
    One,
    MinusInfinity,
    PlusInfinity,
    Invalid,
}

impl View for ParsedText {
    type V = ParsedTextModel;

    open spec fn view(&self) -> ParsedTextModel {
        match self {
            ParsedText::Number { text, scale } => ParsedTextModel::Number { text: text@, scale: *scale },
            ParsedText::Zero => ParsedTextModel::Zero,
            ParsedText::One => ParsedTextModel::One,
            ParsedText::MinusInfinity => ParsedTextModel::MinusInfinity,
            ParsedText::PlusInfinity => ParsedTextModel::PlusInfinity,
            ParsedText::Invalid => ParsedTextModel::Invalid,
        }
    }
}

/// The Unicode upper-case form of a string, as `str::to_uppercase` gives it.
pub uninterp spec fn uppercase(s: Seq<char>) -> Seq<char>;

/// The Unicode lower-case form of a string, as `str::to_lowercase` gives it.
pub uninterp spec fn lowercase(s: Seq<char>) -> Seq<char>;

/// `str::to_uppercase` on the string made of `s`. The contract names the
/// result [`uppercase`] of the characters and says nothing more of it.
#[verifier::external_body]
fn upper_chars(s: &Vec<char>) -> (r: Vec<char>)
    ensures
        r@ == uppercase(s@),
{
    s.iter().collect::<String>().to_uppercase().chars().collect()
}

/// `str::to_lowercase` on the string made of `s`. The contract names the
/// result [`lowercase`] of the characters and says nothing more of it.
#[verifier::external_body]
pub(crate) fn lower_chars(s: &Vec<char>) -> (r: Vec<char>)
    ensures
        r@ == lowercase(s@),
{
    s.iter().collect::<String>().to_lowercase().chars().collect()
}

/// `s` without a decibel unit: every trailing " dB", then every trailing
/// "dB", then surrounding whitespace.
pub open spec fn without_db(s: Seq<char>) -> Seq<char> {
    trim_ws(trim_end_matches(trim_end_matches(s, " dB"@), "dB"@))
}

/// Whether a decibel text stands for minus infinity.
pub open spec fn is_minus_infinity(t: Seq<char>) -> bool {
    eq_ignore_ascii_case(t, "-inf"@) || eq_ignore_ascii_case(t, "-∞"@) || t == "-infinity"@
}

/// The first of the kilohertz suffixes " kHz", "kHz", " khz", "khz" that
/// `s` ends with, removed.
pub open spec fn strip_khz(s: Seq<char>) -> Option<Seq<char>> {
    if strip_suffix(s, " kHz"@) is Some {
        strip_suffix(s, " kHz"@)
    } else if strip_suffix(s, "kHz"@) is Some {
        strip_suffix(s, "kHz"@)
    } else if strip_suffix(s, " khz"@) is Some {
        strip_suffix(s, " khz"@)
    } else {
        strip_suffix(s, "khz"@)
    }
}

/// `s` without a hertz unit: every trailing " Hz", "Hz", " hz" and "hz"
/// in that order, then surrounding whitespace.
pub open spec fn without_hz(s: Seq<char>) -> Seq<char> {
    trim_ws(
        trim_end_matches(
            trim_end_matches(trim_end_matches(trim_end_matches(s, " Hz"@), "Hz"@), " hz"@),
            "hz"@,
        ),
    )
}

/// `s` without one of the suffixes `long` or, failing that, `short`, then
/// without surrounding whitespace.
pub open spec fn without_unit(s: Seq<char>, long: Seq<char>, short: Seq<char>) -> Seq<char> {
    trim_ws(
        match strip_suffix(s, long) {
            Some(t) => t,
            None => match strip_suffix(s, short) {
                Some(t) => t,
                None => s,
            },
        },
    )
}

/// The words a switch accepts for on.
pub open spec fn is_on_word(l: Seq<char>) -> bool {
    l == "on"@ || l == "true"@ || l == "yes"@ || l == "1"@ || l == "enabled"@
}

/// The words a switch accepts for off.
pub open spec fn is_off_word(l: Seq<char>) -> bool {
    l == "off"@ || l == "false"@ || l == "no"@ || l == "0"@ || l == "disabled"@
}

/// What the text `raw` stands for under a formatter kind. The text is
/// first stripped of surrounding whitespace (`s` below); then:
/// - a plain number, milliseconds ("ms"), seconds ("s"), semitones ("st"),
///   a percentage ("%") or a ratio (":1") is the number before its unit;
/// - decibels accept "-inf", "-∞" (any ASCII case) and "-infinity" for the
///   bottom of the range;
/// - a frequency ending in kHz is in thousands, otherwise in Hz;
/// - a pan position reads its upper-case form: "C", "CENTER" or "0" is the
///   centre, a leading "L" or "R" starts a percentage to that side, and any
///   other text is a bare number;
/// - a ratio of "∞:1", "inf:1" or "infinity:1" (any ASCII case) is infinite;
/// - a switch reads its lower-case form against the on and off words.
pub open spec fn parse_text_spec(kind: FormatterKind, raw: Seq<char>) -> ParsedTextModel {
    let s = trim_ws(raw);
    match kind {
        FormatterKind::Float => ParsedTextModel::Number { text: s, scale: NumberScale::Plain },
        FormatterKind::Decibel => if is_minus_infinity(without_db(s)) {
            ParsedTextModel::MinusInfinity
        } else {
            ParsedTextModel::Number { text: without_db(s), scale: NumberScale::Decibels }
        },
        FormatterKind::DecibelDirect => if is_minus_infinity(without_db(s)) {
            ParsedTextModel::MinusInfinity
        } else {
            ParsedTextModel::Number { text: without_db(s), scale: NumberScale::Plain }
        },
        FormatterKind::Frequency => match strip_khz(s) {
            Some(k) => ParsedTextModel::Number { text: trim_ws(k), scale: NumberScale::Kilo },
            None => ParsedTextModel::Number { text: without_hz(s), scale: NumberScale::Plain },
        },
        FormatterKind::Milliseconds => ParsedTextModel::Number {
            text: without_unit(s, " ms"@, "ms"@),
            scale: NumberScale::Plain,
        },
        FormatterKind::Seconds => ParsedTextModel::Number {
            text: without_unit(s, " s"@, "s"@),
            scale: NumberScale::Plain,
        },
        FormatterKind::Percent => ParsedTextModel::Number {
            text: trim_ws(trim_end_matches(s, "%"@)),
            scale: NumberScale::Percent,
        },
        FormatterKind::Pan => pan_from_upper(uppercase(s), s),
        FormatterKind::Ratio => if s == "∞:1"@ || s == "inf:1"@ || eq_ignore_ascii_case(s, "infinity:1"@) {
            ParsedTextModel::PlusInfinity
        } else {
            ParsedTextModel::Number { text: trim_ws(trim_end_matches(s, ":1"@)), scale: NumberScale::Plain }
        },
        FormatterKind::Semitones => ParsedTextModel::Number {
            text: trim_ws(trim_end_matches(trim_end_matches(s, " st"@), "st"@)),
            scale: NumberScale::Plain,
        },
        FormatterKind::Boolean => switch_from_lower(lowercase(s)),
    }
}

/// What a pan position stands for, given its upper-case form `u` and the
/// trimmed text `s` it came from: "C", "CENTER" or "0" is the centre, a
/// leading "L" or "R" starts a percentage to that side, and any other text
/// is a bare number read from `s`.
pub open spec fn pan_from_upper(u: Seq<char>, s: Seq<char>) -> ParsedTextModel {
    if u == "C"@ || u == "CENTER"@ || u == "0"@ {
        ParsedTextModel::Zero
    } else if u.len() > 0 && u[0] == 'L' {
        ParsedTextModel::Number { text: trim_ws(u.drop_first()), scale: NumberScale::NegativePercent }
    } else if u.len() > 0 && u[0] == 'R' {
        ParsedTextModel::Number { text: trim_ws(u.drop_first()), scale: NumberScale::Percent }
    } else {
        ParsedTextModel::Number { text: s, scale: NumberScale::PanAuto }
    }
}

/// What a switch text stands for, given its lower-case form `l`: one for an
/// on word, zero for an off word, no value otherwise.
pub open spec fn switch_from_lower(l: Seq<char>) -> ParsedTextModel {
    if is_on_word(l) {
        ParsedTextModel::One
    } else if is_off_word(l) {
        ParsedTextModel::Zero
    } else {
        ParsedTextModel::Invalid
    }
}

/// Read a pan position from its upper-case form `upper` and the trimmed
/// text `trimmed` it came from (see [`pan_from_upper`]).
pub fn parse_pan_upper(upper: &Vec<char>, trimmed: Vec<char>) -> (r: ParsedText)
    ensures
        r@ == pan_from_upper(upper@, trimmed@),
{
    let u = upper;
    if chars_eq(u, &chars_of("C")) || chars_eq(u, &chars_of("CENTER")) || chars_eq(u, &chars_of("0")) {
        ParsedText::Zero
    } else if u.len() > 0 && u[0] == 'L' {
        let rest = sub_chars(u, 1, u.len());
        assert(rest@ == u@.drop_first());
        ParsedText::Number { text: trim_chars(&rest), scale: NumberScale::NegativePercent }
    } else if u.len() > 0 && u[0] == 'R' {
        let rest = sub_chars(u, 1, u.len());
        assert(rest@ == u@.drop_first());
        ParsedText::Number { text: trim_chars(&rest), scale: NumberScale::Percent }
    } else {
        ParsedText::Number { text: trimmed, scale: NumberScale::PanAuto }
    }
}

/// Read a switch from the lower-case form of its text (see
/// [`switch_from_lower`]).
pub fn parse_switch_lower(lower: &Vec<char>) -> (r: ParsedText)
    ensures
        r@ == switch_from_lower(lower@),
{
    if is_on_word_chars(lower) {
        ParsedText::One
    } else if is_off_word_chars(lower) {
        ParsedText::Zero
    } else {
        ParsedText::Invalid
    }
}

fn without_db_chars(s: &Vec<char>) -> (r: Vec<char>)
    ensures
        r@ == without_db(s@),
{
    let a = trim_end_matches_chars(s, &chars_of(" dB"));
    let b = trim_end_matches_chars(&a, &chars_of("dB"));
    trim_chars(&b)
}

fn is_minus_infinity_chars(t: &Vec<char>) -> (r: bool)
    ensures
        r == is_minus_infinity(t@),
{
    chars_eq_ignore_ascii_case(t, &chars_of("-inf")) || chars_eq_ignore_ascii_case(
        t,
        &chars_of("-∞"),
    ) || chars_eq(t, &chars_of("-infinity"))
}

fn strip_khz_chars(s: &Vec<char>) -> (r: Option<Vec<char>>)
    ensures
        match r {
            Some(v) => strip_khz(s@) == Some(v@),
            None => strip_khz(s@) is None,
        },
{
    match strip_suffix_chars(s, &chars_of(" kHz")) {
        Some(v) => return Some(v),
        None => {},
    }
    match strip_suffix_chars(s, &chars_of("kHz")) {
        Some(v) => return Some(v),
        None => {},
    }
    match strip_suffix_chars(s, &chars_of(" khz")) {
        Some(v) => return Some(v),
        None => {},
    }
    strip_suffix_chars(s, &chars_of("khz"))
}

fn without_hz_chars(s: &Vec<char>) -> (r: Vec<char>)
    ensures
        r@ == without_hz(s@),
{
    let a = trim_end_matches_chars(s, &chars_of(" Hz"));
    let b = trim_end_matches_chars(&a, &chars_of("Hz"));
    let c = trim_end_matches_chars(&b, &chars_of(" hz"));
    let d = trim_end_matches_chars(&c, &chars_of("hz"));
    trim_chars(&d)
}

fn without_unit_chars(s: &Vec<char>, long: &str, short: &str) -> (r: Vec<char>)
    ensures
        r@ == without_unit(s@, long@, short@),
{
    match strip_suffix_chars(s, &chars_of(long)) {
        Some(t) => trim_chars(&t),
        None => match strip_suffix_chars(s, &chars_of(short)) {
            Some(t) => trim_chars(&t),
            None => trim_chars(s),
        },
    }
}

fn is_on_word_chars(l: &Vec<char>) -> (r: bool)
    ensures
        r == is_on_word(l@),
{
    chars_eq(l, &chars_of("on")) || chars_eq(l, &chars_of("true")) || chars_eq(l, &chars_of("yes"))
        || chars_eq(l, &chars_of("1")) || chars_eq(l, &chars_of("enabled"))
}

fn is_off_word_chars(l: &Vec<char>) -> (r: bool)
    ensures
        r == is_off_word(l@),
{
    chars_eq(l, &chars_of("off")) || chars_eq(l, &chars_of("false")) || chars_eq(l, &chars_of("no"))
        || chars_eq(l, &chars_of("0")) || chars_eq(l, &chars_of("disabled"))
}

impl FormatterKind {
    /// The unit string shown next to values of this kind.
    pub fn units(&self) -> (r: &'static str)
        ensures
            r@ == (match self {
                FormatterKind::Decibel | FormatterKind::DecibelDirect => "dB"@,
                FormatterKind::Frequency => "Hz"@,
                FormatterKind::Milliseconds => "ms"@,
                FormatterKind::Seconds => "s"@,
                FormatterKind::Percent => "%"@,
                FormatterKind::Semitones => "st"@,
                _ => ""@,
            }),
    {
        match self {
            FormatterKind::Float => "",
            FormatterKind::Decibel => "dB",
            FormatterKind::DecibelDirect => "dB",
            FormatterKind::Frequency => "Hz",
            FormatterKind::Milliseconds => "ms",
            FormatterKind::Seconds => "s",
            FormatterKind::Percent => "%",
            FormatterKind::Pan => "",
            FormatterKind::Ratio => "",
            FormatterKind::Semitones => "st",
            FormatterKind::Boolean => "",
        }
    }

    /// What a display string stands for under this kind of formatter: the
    /// part holding the number and how to scale it, or a fixed value.
    pub fn parse_text(&self, s: &str) -> (r: ParsedText)
        ensures
            r@ == parse_text_spec(*self, s@),
    {
        let raw = chars_of(s);
        let t = trim_chars(&raw);
        match self {
            FormatterKind::Float => ParsedText::Number { text: t, scale: NumberScale::Plain },
            FormatterKind::Decibel => {
                let d = without_db_chars(&t);
                if is_minus_infinity_chars(&d) {
                    ParsedText::MinusInfinity
                } else {
                    ParsedText::Number { text: d, scale: NumberScale::Decibels }
                }
            },
            FormatterKind::DecibelDirect => {
                let d = without_db_chars(&t);
                if is_minus_infinity_chars(&d) {
                    ParsedText::MinusInfinity
                } else {
                    ParsedText::Number { text: d, scale: NumberScale::Plain }
                }
            },
            FormatterKind::Frequency => match strip_khz_chars(&t) {
                Some(k) => ParsedText::Number { text: trim_chars(&k), scale: NumberScale::Kilo },
                None => ParsedText::Number { text: without_hz_chars(&t), scale: NumberScale::Plain },
            },
            FormatterKind::Milliseconds => ParsedText::Number {
                text: without_unit_chars(&t, " ms", "ms"),
                scale: NumberScale::Plain,
            },
            FormatterKind::Seconds => ParsedText::Number {
                text: without_unit_chars(&t, " s", "s"),
                scale: NumberScale::Plain,
            },
            FormatterKind::Percent => {
                let p = trim_end_matches_chars(&t, &chars_of("%"));
                ParsedText::Number { text: trim_chars(&p), scale: NumberScale::Percent }
            },
            FormatterKind::Pan => {
                let u = upper_chars(&t);
                parse_pan_upper(&u, t)
            },
            FormatterKind::Ratio => {
                if chars_eq(&t, &chars_of("∞:1")) || chars_eq(&t, &chars_of("inf:1"))
                    || chars_eq_ignore_ascii_case(&t, &chars_of("infinity:1")) {
                    ParsedText::PlusInfinity
                } else {
                    let p = trim_end_matches_chars(&t, &chars_of(":1"));
                    ParsedText::Number { text: trim_chars(&p), scale: NumberScale::Plain }
                }
            },
            FormatterKind::Semitones => {
                let a = trim_end_matches_chars(&t, &chars_of(" st"));
                let b = trim_end_matches_chars(&a, &chars_of("st"));
                ParsedText::Number { text: trim_chars(&b), scale: NumberScale::Plain }
            },
            FormatterKind::Boolean => {
                let l = lower_chars(&t);
                parse_switch_lower(&l)
            },
        }
    }
}

/// Surrounding whitespace never changes what a display string stands for:
/// the text and its trimmed form parse alike under every formatter kind.
pub proof fn lemma_parse_ignores_surrounding_whitespace(kind: FormatterKind, raw: Seq<char>)
    ensures
        parse_text_spec(kind, trim_ws(raw)) == parse_text_spec(kind, raw),
{
    lemma_trim_idempotent(raw);
}

/// A kilohertz value reads as its number in thousands: any text `t` that
/// neither starts nor ends with whitespace, followed by " kHz", "kHz",
/// " khz" or "khz", parses under the frequency kind as the number `t`
/// scaled by a thousand.
pub proof fn lemma_kilohertz_suffixes(t: Seq<char>, suffix: Seq<char>)
    requires
        t.len() > 0,
        !is_white_space(t[0]),
        !is_white_space(t.last()),
        suffix == " kHz"@ || suffix == "kHz"@ || suffix == " khz"@ || suffix == "khz"@,
    ensures
        parse_text_spec(FormatterKind::Frequency, t + suffix) == (ParsedTextModel::Number {
            text: t,
            scale: NumberScale::Kilo,
        }),
{
    reveal_strlit(" kHz");
    reveal_strlit("kHz");
    reveal_strlit(" khz");
    reveal_strlit("khz");
    let s = t + suffix;
    let n = s.len() as int;
    assert(s[0] == t[0]);
    assert(s.last() == 'z');
    assert(!is_white_space('z'));
    assert(trim_start_ws(s) == s);
    assert(trim_end_ws(s) == s);
    assert(trim_ws(s) == s);
    assert(trim_start_ws(t) == t);
    assert(trim_end_ws(t) == t);
    assert(s[n - 1] == 'z');
    assert(s[n - 2] == suffix[suffix.len() - 2]);
    assert(s[n - 3] == suffix[suffix.len() - 3]);
    if suffix.len() == 3 {
        assert(s[n - 4] == t.last());
        assert(!ends_with(s, " kHz"@)) by {
            assert(s.skip(n - 4)[0] == s[n - 4]);
        }
        assert(!ends_with(s, " khz"@)) by {
            assert(s.skip(n - 4)[0] == s[n - 4]);
        }
    } else {
        assert(s[n - 4] == ' ');
    }
    if suffix == "khz"@ || suffix == " khz"@ {
        assert(!ends_with(s, "kHz"@)) by {
            assert(s.skip(n - 3)[1] == s[n - 2]);
        }
        assert(!ends_with(s, " kHz"@)) by {
            assert(s.skip(n - 4)[2] == s[n - 2]);
        }
    }
    assert(s.take(n - suffix.len()) =~= t);
    assert(ends_with(s, suffix)) by {
        assert(s.skip(n - suffix.len()) =~= suffix);
    }
    if suffix == "kHz"@ || suffix == " kHz"@ {
        assert(s.skip(n - suffix.len()) =~= suffix);
    }
}

} // verus!
