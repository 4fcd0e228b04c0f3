use beamer::parameter_format::{parse_pan_upper, parse_switch_lower, FormatterKind, NumberScale, ParsedText};

fn number(kind: FormatterKind, s: &str) -> (String, NumberScale) {
    match kind.parse_text(s) {
        ParsedText::Number { text, scale } => (text.into_iter().collect(), scale),
        other => panic!("expected a number, got {:?}", other),
    }
}

#[test]
fn plain_numbers_are_trimmed() {
    assert_eq!(number(FormatterKind::Float, "  1.5\t"), ("1.5".to_string(), NumberScale::Plain));
    assert_eq!(number(FormatterKind::Float, "\u{3000}2\u{A0}"), ("2".to_string(), NumberScale::Plain));
}

#[test]
fn decibels() {
    assert_eq!(number(FormatterKind::Decibel, "-6.0 dB"), ("-6.0".to_string(), NumberScale::Decibels));
    assert_eq!(number(FormatterKind::Decibel, "+3dB"), ("+3".to_string(), NumberScale::Decibels));
    assert_eq!(number(FormatterKind::DecibelDirect, "-12 dB dB"), ("-12".to_string(), NumberScale::Plain));
    assert!(matches!(FormatterKind::Decibel.parse_text("-inf dB"), ParsedText::MinusInfinity));
    assert!(matches!(FormatterKind::Decibel.parse_text("-INF"), ParsedText::MinusInfinity));
    assert!(matches!(FormatterKind::DecibelDirect.parse_text("-∞ dB"), ParsedText::MinusInfinity));
    assert!(matches!(FormatterKind::DecibelDirect.parse_text("-infinity"), ParsedText::MinusInfinity));
    assert_eq!(number(FormatterKind::Decibel, "-Infinity").0, "-Infinity");
}

#[test]
fn frequencies() {
    assert_eq!(number(FormatterKind::Frequency, "1.5 kHz"), ("1.5".to_string(), NumberScale::Kilo));
    assert_eq!(number(FormatterKind::Frequency, "2khz"), ("2".to_string(), NumberScale::Kilo));
    assert_eq!(number(FormatterKind::Frequency, "440 Hz"), ("440".to_string(), NumberScale::Plain));
    assert_eq!(number(FormatterKind::Frequency, "440hz"), ("440".to_string(), NumberScale::Plain));
    assert_eq!(number(FormatterKind::Frequency, "100"), ("100".to_string(), NumberScale::Plain));
}

#[test]
fn times_percent_ratio_semitones() {
    assert_eq!(number(FormatterKind::Milliseconds, "10.5 ms"), ("10.5".to_string(), NumberScale::Plain));
    assert_eq!(number(FormatterKind::Milliseconds, "3ms"), ("3".to_string(), NumberScale::Plain));
    assert_eq!(number(FormatterKind::Seconds, "1.5 s"), ("1.5".to_string(), NumberScale::Plain));
    assert_eq!(number(FormatterKind::Seconds, "2s"), ("2".to_string(), NumberScale::Plain));
    assert_eq!(number(FormatterKind::Percent, "75 %%"), ("75".to_string(), NumberScale::Percent));
    assert_eq!(number(FormatterKind::Ratio, "4.0:1"), ("4.0".to_string(), NumberScale::Plain));
    assert!(matches!(FormatterKind::Ratio.parse_text("∞:1"), ParsedText::PlusInfinity));
    assert!(matches!(FormatterKind::Ratio.parse_text("inf:1"), ParsedText::PlusInfinity));
    assert!(matches!(FormatterKind::Ratio.parse_text(" INFINITY:1 "), ParsedText::PlusInfinity));
    assert_eq!(number(FormatterKind::Ratio, "INF:1").0, "INF");
    assert_eq!(number(FormatterKind::Semitones, "+12 st"), ("+12".to_string(), NumberScale::Plain));
    assert_eq!(number(FormatterKind::Semitones, "-7st"), ("-7".to_string(), NumberScale::Plain));
}

#[test]
fn pan_positions() {
    assert!(matches!(FormatterKind::Pan.parse_text("C"), ParsedText::Zero));
    assert!(matches!(FormatterKind::Pan.parse_text(" center "), ParsedText::Zero));
    assert!(matches!(FormatterKind::Pan.parse_text("0"), ParsedText::Zero));
    assert_eq!(number(FormatterKind::Pan, "l50"), ("50".to_string(), NumberScale::NegativePercent));
    assert_eq!(number(FormatterKind::Pan, "R 25"), ("25".to_string(), NumberScale::Percent));
    assert_eq!(number(FormatterKind::Pan, "-0.5"), ("-0.5".to_string(), NumberScale::PanAuto));
    assert_eq!(number(FormatterKind::Pan, "r1e1"), ("1E1".to_string(), NumberScale::Percent));
}

#[test]
fn switches() {
    for on in ["on", "ON", " True ", "yes", "1", "Enabled"] {
        assert!(matches!(FormatterKind::Boolean.parse_text(on), ParsedText::One), "{}", on);
    }
    for off in ["off", "FALSE", "no", "0", "disabled"] {
        assert!(matches!(FormatterKind::Boolean.parse_text(off), ParsedText::Zero), "{}", off);
    }
    assert!(matches!(FormatterKind::Boolean.parse_text("maybe"), ParsedText::Invalid));
    assert!(matches!(FormatterKind::Boolean.parse_text(""), ParsedText::Invalid));
}

#[test]
fn unit_labels() {
    assert_eq!(FormatterKind::Decibel.units(), "dB");
    assert_eq!(FormatterKind::DecibelDirect.units(), "dB");
    assert_eq!(FormatterKind::Frequency.units(), "Hz");
    assert_eq!(FormatterKind::Milliseconds.units(), "ms");
    assert_eq!(FormatterKind::Seconds.units(), "s");
    assert_eq!(FormatterKind::Percent.units(), "%");
    assert_eq!(FormatterKind::Semitones.units(), "st");
    assert_eq!(FormatterKind::Float.units(), "");
    assert_eq!(FormatterKind::Pan.units(), "");
    assert_eq!(FormatterKind::Ratio.units(), "");
    assert_eq!(FormatterKind::Boolean.units(), "");
}

#[test]
fn surrounding_whitespace_does_not_matter() {
    let kinds = [
        FormatterKind::Float,
        FormatterKind::Decibel,
        FormatterKind::Frequency,
        FormatterKind::Pan,
        FormatterKind::Ratio,
        FormatterKind::Boolean,
    ];
    for kind in kinds {
        for text in ["440 Hz", "l50", "-inf dB", "on", "4:1"] {
            let padded = format!(" \t{}\u{2003}\n", text);
            assert_eq!(format!("{:?}", kind.parse_text(&padded)), format!("{:?}", kind.parse_text(text)));
        }
    }
}

fn chars(s: &str) -> Vec<char> {
    s.chars().collect()
}

#[test]
fn pan_from_folded_text() {
    assert!(matches!(parse_pan_upper(&chars("CENTER"), chars("Center")), ParsedText::Zero));
    match parse_pan_upper(&chars("L 30"), chars("l 30")) {
        ParsedText::Number { text, scale } => {
            assert_eq!(text.into_iter().collect::<String>(), "30");
            assert_eq!(scale, NumberScale::NegativePercent);
        }
        other => panic!("expected a number, got {:?}", other),
    }
    match parse_pan_upper(&chars("R100"), chars("r100")) {
        ParsedText::Number { text, scale } => {
            assert_eq!(text.into_iter().collect::<String>(), "100");
            assert_eq!(scale, NumberScale::Percent);
        }
        other => panic!("expected a number, got {:?}", other),
    }
    // A bare number keeps the trimmed text, not its upper-case form.
    match parse_pan_upper(&chars("-0.5E0"), chars("-0.5e0")) {
        ParsedText::Number { text, scale } => {
            assert_eq!(text.into_iter().collect::<String>(), "-0.5e0");
            assert_eq!(scale, NumberScale::PanAuto);
        }
        other => panic!("expected a number, got {:?}", other),
    }
}

#[test]
fn switch_from_folded_text() {
    assert!(matches!(parse_switch_lower(&chars("enabled")), ParsedText::One));
    assert!(matches!(parse_switch_lower(&chars("no")), ParsedText::Zero));
    // The words are matched in lower case only.
    assert!(matches!(parse_switch_lower(&chars("ON")), ParsedText::Invalid));
    assert!(matches!(parse_switch_lower(&chars("")), ParsedText::Invalid));
}
