use regex::Regex;
use sr_agent::messages::default_1;
use sr_agent::messages::default_2;
use sr_agent::messages::CompletionPatternDef;
use sr_agent::messages::OutputConfig;
use sr_agent::messages::ProgressPatternDef;
use sr_agent::messages::ProgressSpec;
use sr_agent::parser::CompiledPattern;
use sr_agent::parser::CompletionParser;
use sr_agent::parser::OutputParser;
use sr_agent::parser::ProgressParser;
use sr_agent::parser::ProgressReading;

fn fraction(regex: &str, numerator_group: u32, denominator_group: u32) -> ProgressPatternDef {
    ProgressPatternDef {
        regex: regex.to_string(),
        pattern_type: "fraction".to_string(),
        numerator_group,
        denominator_group,
        group: default_1(),
        info: String::new(),
    }
}

fn percentage(regex: &str, group: u32) -> ProgressPatternDef {
    ProgressPatternDef {
        regex: regex.to_string(),
        pattern_type: "percentage".to_string(),
        numerator_group: default_1(),
        denominator_group: default_2(),
        group,
        info: String::new(),
    }
}

fn spec_of(patterns: Vec<ProgressPatternDef>) -> ProgressSpec {
    ProgressSpec { patterns, completion_pattern: None, error_patterns: Vec::new() }
}

fn frac(numerator: &str, denominator: &str) -> ProgressReading {
    ProgressReading::Fraction {
        numerator: numerator.to_string(),
        denominator: denominator.to_string(),
    }
}

fn pct(value: &str) -> ProgressReading {
    ProgressReading::Percentage { value: value.to_string() }
}

/// The value of one reading, where its numerals make one.
fn value_of(reading: &ProgressReading) -> Option<f32> {
    match reading {
        ProgressReading::Fraction { numerator, denominator } => {
            let num: f32 = numerator.parse().ok()?;
            let den: f32 = denominator.parse().ok()?;
            if den > 0.0 {
                Some((num / den) * 100.0)
            } else {
                None
            }
        }
        ProgressReading::Percentage { value } => value.parse().ok(),
    }
}

/// The percentage of the first reading that evaluates to a number from 0 to 100.
fn evaluate(readings: &[ProgressReading]) -> Option<f32> {
    readings.iter().filter_map(value_of).find(|value| (0.0..=100.0).contains(value))
}

#[test]
fn default_groups() {
    assert_eq!(default_1(), 1);
    assert_eq!(default_2(), 2);
}

#[test]
fn fraction_pattern_reads_frame_3_of_12_as_25_percent() {
    let parser = ProgressParser::new(&spec_of(vec![fraction(r"Frame (\d+)/(\d+)", 1, 2)]));
    let readings = parser.parse_line("Frame 3/12 done");
    assert_eq!(readings, vec![frac("3", "12")]);
    assert_eq!(evaluate(&readings), Some(25.0));
}

#[test]
fn fraction_groups_may_be_swapped() {
    let parser = ProgressParser::new(&spec_of(vec![fraction(r"of (\d+): (\d+)", 2, 1)]));
    assert_eq!(parser.parse_line("of 8: 2"), vec![frac("2", "8")]);
}

#[test]
fn percentage_pattern_reads_its_group() {
    let parser = ProgressParser::new(&spec_of(vec![percentage(r"(\d+(?:\.\d+)?)%", 1)]));
    let readings = parser.parse_line("rendering 42.5% complete");
    assert_eq!(readings, vec![pct("42.5")]);
    assert_eq!(evaluate(&readings), Some(42.5));
}

#[test]
fn line_without_match_has_no_reading() {
    let parser = ProgressParser::new(&spec_of(vec![
        fraction(r"Frame (\d+)/(\d+)", 1, 2),
        percentage(r"(\d+)%", 1),
    ]));
    assert_eq!(parser.parse_line("loading scene"), Vec::new());
    assert_eq!(evaluate(&parser.parse_line("loading scene")), None);
}

#[test]
fn parser_without_patterns_reads_nothing() {
    let parser = ProgressParser::new(&spec_of(Vec::new()));
    assert_eq!(parser.parse_line("Frame 3/12 50%"), Vec::new());
}

#[test]
fn readings_come_in_definition_order() {
    let parser = ProgressParser::new(&spec_of(vec![
        percentage(r"(\d+)%", 1),
        fraction(r"Frame (\d+)/(\d+)", 1, 2),
    ]));
    let readings = parser.parse_line("Frame 3/12 at 30%");
    assert_eq!(readings, vec![pct("30"), frac("3", "12")]);
    assert_eq!(evaluate(&readings), Some(30.0));
}

#[test]
fn only_matching_patterns_contribute() {
    let parser = ProgressParser::new(&spec_of(vec![
        percentage(r"(\d+)%", 1),
        fraction(r"Frame (\d+)/(\d+)", 1, 2),
        percentage(r"pct=(\d+)", 1),
    ]));
    assert_eq!(parser.parse_line("Frame 1/4"), vec![frac("1", "4")]);
    assert_eq!(parser.parse_line("pct=7"), vec![pct("7")]);
}

#[test]
fn invalid_regex_is_dropped_and_the_rest_goes_on() {
    let parser = ProgressParser::new(&spec_of(vec![
        fraction(r"Frame (\d+/(\d+)", 1, 2),
        percentage(r"(\d+)%", 1),
    ]));
    assert_eq!(parser.parse_line("Frame 3/12 at 30%"), vec![pct("30")]);
}

#[test]
fn unknown_pattern_type_is_dropped() {
    let mut odd = percentage(r"(\d+)%", 1);
    odd.pattern_type = "ratio".to_string();
    let parser = ProgressParser::new(&spec_of(vec![odd, fraction(r"(\d+)/(\d+)", 1, 2)]));
    assert_eq!(parser.parse_line("3/4 75%"), vec![frac("3", "4")]);
}

#[test]
fn pattern_type_is_case_sensitive() {
    let mut odd = percentage(r"(\d+)%", 1);
    odd.pattern_type = "Percentage".to_string();
    let parser = ProgressParser::new(&spec_of(vec![odd]));
    assert_eq!(parser.parse_line("75%"), Vec::new());
}

#[test]
fn group_index_out_of_range_skips_the_pattern() {
    let parser = ProgressParser::new(&spec_of(vec![
        fraction(r"Frame (\d+)/(\d+)", 1, 3),
        percentage(r"(\d+)%", 2),
        percentage(r"(\d+)%", 1),
    ]));
    assert_eq!(parser.parse_line("Frame 3/12 at 30%"), vec![pct("30")]);
}

#[test]
fn group_that_took_no_part_skips_the_pattern() {
    let parser = ProgressParser::new(&spec_of(vec![
        percentage(r"done(?: (\d+)%)?", 1),
        percentage(r"(\w+)$", 1),
    ]));
    assert_eq!(parser.parse_line("done"), vec![pct("done")]);
    assert_eq!(parser.parse_line("done 80%"), vec![pct("80")]);
}

#[test]
fn group_zero_is_the_whole_match() {
    let parser = ProgressParser::new(&spec_of(vec![percentage(r"\d+", 0)]));
    assert_eq!(parser.parse_line("step 17 of 20"), vec![pct("17")]);
}

#[test]
fn non_numeric_reading_leaves_the_next_one_to_evaluate() {
    let parser = ProgressParser::new(&spec_of(vec![
        fraction(r"(\w+)/(\w+)", 1, 2),
        percentage(r"(\d+)%", 1),
    ]));
    let readings = parser.parse_line("a/b 60%");
    assert_eq!(readings, vec![frac("a", "b"), pct("60")]);
    assert_eq!(evaluate(&readings), Some(60.0));
}

#[test]
fn zero_denominator_leaves_the_next_reading_to_evaluate() {
    let parser = ProgressParser::new(&spec_of(vec![
        fraction(r"(\d+)/(\d+)", 1, 2),
        percentage(r"(\d+)%", 1),
    ]));
    let readings = parser.parse_line("0/0 5%");
    assert_eq!(readings, vec![frac("0", "0"), pct("5")]);
    assert_eq!(evaluate(&readings), Some(5.0));
    assert_eq!(evaluate(&parser.parse_line("0/0")), None);
}

#[test]
fn reading_that_is_no_number_from_0_to_100_leaves_the_next_one_to_evaluate() {
    let parser = ProgressParser::new(&spec_of(vec![
        percentage(r"at (\w+)", 1),
        fraction(r"(\d+)/(\d+)", 1, 2),
        percentage(r"(\d+)%", 1),
    ]));
    let readings = parser.parse_line("at NaN 9/2 45%");
    assert_eq!(readings, vec![pct("NaN"), frac("9", "2"), pct("45")]);
    assert_eq!(evaluate(&readings), Some(45.0));
    assert_eq!(evaluate(&parser.parse_line("at inf")), None);
}

#[test]
fn parser_from_outcomes_keeps_what_compiled_in_order() {
    let spec = spec_of(vec![
        percentage(r"(\d+)%", 1),
        fraction(r"(\d+)/(\d+)", 1, 2),
        percentage(r"pct=(\d+)", 1),
    ]);
    let outcomes = vec![Regex::new(r"(\d+)%").ok(), None, Regex::new(r"pct=(\d+)").ok()];
    let parser = ProgressParser::from_outcomes(&spec, outcomes);
    assert_eq!(parser.parse_line("1/2 30% pct=7"), vec![pct("30"), pct("7")]);
}

#[test]
fn parser_from_outcomes_pairs_each_outcome_with_its_definition() {
    let spec = spec_of(vec![percentage(r"a(\d)", 1), fraction(r"b(\d)(\d)", 1, 2)]);
    let outcomes = vec![Regex::new(r"x(\d)").ok(), Regex::new(r"y(\d)(\d)").ok()];
    let parser = ProgressParser::from_outcomes(&spec, outcomes);
    assert_eq!(parser.parse_line("a1 b23 x4 y56"), vec![pct("4"), frac("5", "6")]);
}

#[test]
fn parser_from_outcomes_drops_unknown_types() {
    let mut odd = percentage(r"(\d+)%", 1);
    odd.pattern_type = "ratio".to_string();
    let spec = spec_of(vec![odd, percentage(r"(\d+)%", 1)]);
    let outcomes = vec![Regex::new(r"(\d+)%").ok(), Regex::new(r"(\d+)%").ok()];
    let parser = ProgressParser::from_outcomes(&spec, outcomes);
    assert_eq!(parser.parse_line("8%"), vec![pct("8")]);
}

#[test]
fn parser_from_outcomes_with_too_few_outcomes_leaves_the_rest_out() {
    let spec = spec_of(vec![percentage(r"(\d+)%", 1), fraction(r"(\d+)/(\d+)", 1, 2)]);
    let parser = ProgressParser::from_outcomes(&spec, vec![Regex::new(r"(\d+)%").ok()]);
    assert_eq!(parser.parse_line("1/2 30%"), vec![pct("30")]);
    let none = ProgressParser::from_outcomes(&spec, Vec::new());
    assert_eq!(none.parse_line("1/2 30%"), Vec::new());
}

#[test]
fn parser_from_outcomes_ignores_outcomes_without_a_definition() {
    let spec = spec_of(vec![percentage(r"(\d+)%", 1)]);
    let outcomes = vec![Regex::new(r"(\d+)%").ok(), Regex::new(r"(\d+)").ok(), None];
    let parser = ProgressParser::from_outcomes(&spec, outcomes);
    assert_eq!(parser.parse_line("30%"), vec![pct("30")]);
}

#[test]
fn leftmost_match_is_the_one_read() {
    let parser = ProgressParser::new(&spec_of(vec![percentage(r"(\d+)%", 1)]));
    assert_eq!(parser.parse_line("10% then 20%"), vec![pct("10")]);
}

#[test]
fn compiled_pattern_from_def_keeps_kind_and_groups() {
    let def = fraction(r"(\d+) of (\d+)", 1, 2);
    let pattern = CompiledPattern::from_def(&def, Regex::new(&def.regex).ok()).unwrap();
    assert_eq!(pattern.read("7 of 9"), Some(frac("7", "9")));
    assert_eq!(pattern.read("none"), None);
}

#[test]
fn compiled_pattern_from_def_without_regex_is_none() {
    let def = fraction(r"(\d+) of (\d+)", 1, 2);
    assert!(CompiledPattern::from_def(&def, None).is_none());
}

#[test]
fn compiled_pattern_from_def_of_unknown_type_is_none() {
    let mut def = fraction(r"(\d+) of (\d+)", 1, 2);
    def.pattern_type = String::new();
    assert!(CompiledPattern::from_def(&def, Regex::new(&def.regex).ok()).is_none());
}

#[test]
fn output_parser_is_absent_without_regex() {
    assert!(OutputParser::new(&OutputConfig { regex: None, capture_group: 1 }).is_none());
}

#[test]
fn output_parser_is_absent_for_empty_regex() {
    assert!(OutputParser::new(&OutputConfig { regex: Some(String::new()), capture_group: 1 }).is_none());
}

#[test]
fn output_parser_is_absent_for_invalid_regex() {
    assert!(OutputParser::new(&OutputConfig { regex: Some("(".to_string()), capture_group: 1 }).is_none());
}

#[test]
fn output_parser_extracts_its_group() {
    let parser = OutputParser::new(
        &OutputConfig { regex: Some(r"Saved: '(.+)'".to_string()), capture_group: default_1() },
    )
        .unwrap();
    assert_eq!(parser.parse_line("Saved: '/out/frame_0001.png'"), Some("/out/frame_0001.png".to_string()));
    assert_eq!(parser.parse_line("Saving..."), None);
}

#[test]
fn output_parser_with_group_out_of_range_finds_nothing() {
    let parser = OutputParser::new(
        &OutputConfig { regex: Some(r"Saved: '(.+)'".to_string()), capture_group: 2 },
    )
        .unwrap();
    assert_eq!(parser.parse_line("Saved: '/out/frame_0001.png'"), None);
}

#[test]
fn output_parser_from_compiled() {
    assert!(OutputParser::from_compiled(None, 1).is_none());
    let parser = OutputParser::from_compiled(Regex::new(r"-> (\S+) \((\d+) bytes\)").ok(), 2).unwrap();
    assert_eq!(parser.parse_line("-> a.exr (2048 bytes)"), Some("2048".to_string()));
}

#[test]
fn completion_parser_is_absent_for_empty_regex() {
    let def = CompletionPatternDef { regex: String::new(), info: String::new() };
    assert!(CompletionParser::new(&def).is_none());
}

#[test]
fn completion_parser_is_absent_for_invalid_regex() {
    let def = CompletionPatternDef { regex: "[".to_string(), info: String::new() };
    assert!(CompletionParser::new(&def).is_none());
}

#[test]
fn completion_parser_matches_anywhere_in_the_line() {
    let def = CompletionPatternDef { regex: r"Finished frame \d+".to_string(), info: String::new() };
    let parser = CompletionParser::new(&def).unwrap();
    assert!(parser.matches("[12:00] Finished frame 7 in 3s"));
    assert!(!parser.matches("Finished frame"));
    assert!(!parser.matches(""));
}

#[test]
fn completion_parser_from_compiled() {
    assert!(CompletionParser::from_compiled(None).is_none());
    let parser = CompletionParser::from_compiled(Regex::new("^done$").ok()).unwrap();
    assert!(parser.matches("done"));
    assert!(!parser.matches("done."));
}
