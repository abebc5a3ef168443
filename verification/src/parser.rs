//! The pattern engine: progress, output-path and completion matchers, each
//! compiled once from its definition and then asked about one line at a time.

use crate::messages::CompletionPatternDef;
use crate::messages::OutputConfig;
use crate::messages::ProgressPatternDef;
use crate::messages::ProgressSpec;
use crate::pattern::capture_groups;
use crate::pattern::group_text;
use crate::pattern::regex_captures;
use crate::pattern::regex_matches;
use crate::pattern::regex_source;
use regex::Regex;
use vstd::prelude::*;
use vstd::string::*;

verus! {

/// How a progress pattern turns its capture groups into a percentage.
#[derive(Debug, Clone, Copy, PartialEq, Eq)]
pub enum PatternKind {
    /// Two groups: numerator and denominator.
    Fraction { num_group: usize, den_group: usize },
    /// One group that holds the percentage itself.
    Percentage { group: usize },
}

/// A compiled progress pattern as the contracts see it.
pub struct PatternModel {
    pub regex: Regex,
    pub kind: PatternKind,
}

/// The numerals a progress pattern captured from a line, as written there.
///
/// A fraction reads as `numerator / denominator * 100` provided both numerals
/// parse and the denominator is positive; a percentage reads as its numeral.
#[derive(Debug, Clone, PartialEq, Eq)]
pub enum ProgressReading {
    Fraction { numerator: String, denominator: String },
    Percentage { value: String },
}

/// The content of a [`ProgressReading`].
pub enum ReadingModel {
    Fraction { numerator: Seq<char>, denominator: Seq<char> },
    Percentage { value: Seq<char> },
}

impl DeepView for ProgressReading {
    type V = ReadingModel;

    open spec fn deep_view(&self) -> ReadingModel {
        match self {
            ProgressReading::Fraction { numerator, denominator } => ReadingModel::Fraction {
                numerator: numerator@,
                denominator: denominator@,
            },
            ProgressReading::Percentage { value } => ReadingModel::Percentage { value: value@ },
        }
    }
}

/// The kind a definition asks for, or `None` where its type is neither
/// `"fraction"` nor `"percentage"`.
pub open spec fn kind_of(def: ProgressPatternDef) -> Option<PatternKind> {
    if def.pattern_type@ == "fraction"@ {
        Some(
            PatternKind::Fraction {
                num_group: def.numerator_group as usize,
                den_group: def.denominator_group as usize,
            },
        )
    } else if def.pattern_type@ == "percentage"@ {
        Some(PatternKind::Percentage { group: def.group as usize })
    } else {
        None
    }
}

/// What a definition contributes to a parser when compiling its regex gave
/// `compiled`: a pattern, or nothing where the regex did not compile or the
/// type is unknown.
pub open spec fn contribution(def: ProgressPatternDef, compiled: Option<Regex>) -> Option<
    PatternModel,
> {
    match (compiled, kind_of(def)) {
        (Some(regex), Some(kind)) => Some(PatternModel { regex, kind }),
        _ => None,
    }
}

/// The outcome on record for the definition at `index`: `compiled[index]`, or
/// none where `compiled` holds no outcome for it.
pub open spec fn outcome_at(compiled: Seq<Option<Regex>>, index: int) -> Option<Regex> {
    if 0 <= index < compiled.len() {
        compiled[index]
    } else {
        None
    }
}

/// The patterns a parser keeps from `defs`, in their order, when compiling the
/// regex of `defs[i]` gave `compiled[i]`. A definition without an outcome
/// counts as one whose regex did not compile.
pub open spec fn kept_patterns(defs: Seq<ProgressPatternDef>, compiled: Seq<Option<Regex>>) -> Seq<
    PatternModel,
>
    decreases defs.len(),
{
    if defs.len() == 0 {
        Seq::empty()
    } else {
        let earlier = kept_patterns(defs.drop_last(), compiled);
        match contribution(defs.last(), outcome_at(compiled, defs.len() - 1)) {
            Some(pattern) => earlier.push(pattern),
            None => earlier,
        }
    }
}

/// Whether `compiled` can be the outcome of compiling the regexes of `defs`,
/// one for one: each regex that came out has the text of its definition as
/// its source.
pub open spec fn compiled_from(
    compiled: Seq<Option<Regex>>,
    defs: Seq<ProgressPatternDef>,
) -> bool {
    &&& compiled.len() == defs.len()
    &&& forall|i: int|
        0 <= i < compiled.len() ==> (#[trigger] compiled[i] matches Some(re) ==> regex_source(re)
            == defs[i].regex@)
}

/// Whether `patterns` is what the definitions give for some outcome of
/// compiling their regexes.
pub open spec fn patterns_built_from(
    patterns: Seq<PatternModel>,
    defs: Seq<ProgressPatternDef>,
) -> bool {
    exists|compiled: Seq<Option<Regex>>|
        compiled_from(compiled, defs) && patterns == #[trigger] kept_patterns(defs, compiled)
}

/// Definitions beyond the recorded outcomes contribute nothing.
pub proof fn lemma_kept_patterns_beyond_outcomes(
    defs: Seq<ProgressPatternDef>,
    compiled: Seq<Option<Regex>>,
    count: int,
)
    requires
        compiled.len() <= count <= defs.len(),
    ensures
        kept_patterns(defs, compiled) == kept_patterns(defs.take(count), compiled),
    decreases defs.len(),
{
    if count == defs.len() {
        assert(defs.take(count) =~= defs);
    } else {
        lemma_kept_patterns_beyond_outcomes(defs.drop_last(), compiled, count);
        assert(defs.drop_last().take(count) =~= defs.take(count));
    }
}

/// What one pattern reads from a line: the captured numerals where the pattern
/// matches and every group it names took part in the match.
pub open spec fn reading_of(pattern: PatternModel, line: Seq<char>) -> Option<ReadingModel> {
    match regex_captures(pattern.regex, line) {
        None => None,
        Some(groups) => match pattern.kind {
            PatternKind::Fraction { num_group, den_group } => match (
                group_text(groups, num_group as int),
                group_text(groups, den_group as int),
            ) {
                (Some(numerator), Some(denominator)) => Some(
                    ReadingModel::Fraction { numerator, denominator },
                ),
                _ => None,
            },
            PatternKind::Percentage { group } => match group_text(groups, group as int) {
                Some(value) => Some(ReadingModel::Percentage { value }),
                None => None,
            },
        },
    }
}

/// The readings of a line: one for each pattern that yields one, in pattern order.
pub open spec fn readings_of(patterns: Seq<PatternModel>, line: Seq<char>) -> Seq<ReadingModel>
    decreases patterns.len(),
{
    if patterns.len() == 0 {
        Seq::empty()
    } else {
        let earlier = readings_of(patterns.drop_last(), line);
        match reading_of(patterns.last(), line) {
            Some(reading) => earlier.push(reading),
            None => earlier,
        }
    }
}

/// Copies the text of one capture group out of the groups of a match.
fn take_group(groups: &Vec<Option<String>>, index: usize) -> (text: Option<String>)
    ensures
        text.deep_view() == group_text(groups.deep_view(), index as int),
{
    if index < groups.len() {
        match &groups[index] {
            Some(s) => Some(s.clone()),
            None => None,
        }
    } else {
        None
    }
}

/// A progress pattern ready to be matched against lines.
#[derive(Debug)]
pub struct CompiledPattern {
    regex: Regex,
    kind: PatternKind,
}

impl View for CompiledPattern {
    type V = PatternModel;

    closed spec fn view(&self) -> PatternModel {
        PatternModel { regex: self.regex, kind: self.kind }
    }
}

impl CompiledPattern {
    /// Builds the pattern a definition asks for from the outcome of compiling
    /// its regex: `None` where the regex did not compile or the type is unknown.
    pub fn from_def(def: &ProgressPatternDef, compiled: Option<Regex>) -> (pattern: Option<
        CompiledPattern,
    >)
        ensures
            match pattern {
                Some(p) => Some(p@),
                None => None,
            } == contribution(*def, compiled),
    {
        let regex = match compiled {
            Some(re) => re,
            None => {
                return None;
            },
        };
        let fraction = String::from_str("fraction");
        let percentage = String::from_str("percentage");
        if def.pattern_type == fraction {
            Some(
                CompiledPattern {
                    regex,
                    kind: PatternKind::Fraction {
                        num_group: def.numerator_group as usize,
                        den_group: def.denominator_group as usize,
                    },
                },
            )
        } else if def.pattern_type == percentage {
            Some(
                CompiledPattern {
                    regex,
                    kind: PatternKind::Percentage { group: def.group as usize },
                },
            )
        } else {
            None
        }
    }

    /// Reads one line with this pattern.
    pub fn read(&self, line: &str) -> (reading: Option<ProgressReading>)
        ensures
            reading.deep_view() == reading_of(self@, line@),
    {
        let groups = match capture_groups(&self.regex, line) {
            Some(groups) => groups,
            None => {
                return None;
            },
        };
        match self.kind {
            PatternKind::Fraction { num_group, den_group } => {
                match (take_group(&groups, num_group), take_group(&groups, den_group)) {
                    (Some(numerator), Some(denominator)) => Some(
                        ProgressReading::Fraction { numerator, denominator },
                    ),
                    _ => None,
                }
            },
            PatternKind::Percentage { group } => {
                match take_group(&groups, group) {
                    Some(value) => Some(ProgressReading::Percentage { value }),
                    None => None,
                }
            },
        }
    }
}

/// The progress matcher: the patterns of a [`ProgressSpec`] that compiled, in
/// definition order.
#[derive(Debug)]
pub struct ProgressParser {
    patterns: Vec<CompiledPattern>,
}

impl View for ProgressParser {
    type V = Seq<PatternModel>;

    closed spec fn view(&self) -> Seq<PatternModel> {
        Seq::new(self.patterns@.len(), |i: int| self.patterns@[i]@)
    }
}

impl ProgressParser {
    /// Compiles the progress patterns of `spec`. A definition whose regex does
    /// not compile, or whose type is unknown, is left out; the others keep
    /// their order.
    pub fn new(spec: &ProgressSpec) -> (parser: Self)
        ensures
            patterns_built_from(parser@, spec.patterns@),
    {
        let mut outcomes: Vec<Option<Regex>> = Vec::new();
        let mut i: usize = 0;
        while i < spec.patterns.len()
            invariant
                i <= spec.patterns@.len(),
                compiled_from(outcomes@, spec.patterns@.take(i as int)),
            decreases spec.patterns@.len() - i,
        {
            outcomes.push(Regex::new(spec.patterns[i].regex.as_str()).ok());
            i += 1;
        }
        assert(spec.patterns@.take(i as int) =~= spec.patterns@);
        ProgressParser::from_outcomes(spec, outcomes)
    }

    /// Builds the parser from the definitions of `spec` and the outcomes of
    /// compiling their regexes, `outcomes[i]` for the definition at `i`: the
    /// definitions whose regex compiled and whose type is known, in their
    /// order. A definition without an outcome is left out, and an outcome
    /// without a definition is ignored.
    pub fn from_outcomes(spec: &ProgressSpec, outcomes: Vec<Option<Regex>>) -> (parser: Self)
        ensures
            parser@ == kept_patterns(spec.patterns@, outcomes@),
    {
        let mut parser = ProgressParser { patterns: Vec::new() };
        let ghost defs = spec.patterns@;
        let ghost all = outcomes@;
        let mut index: usize = 0;
        proof {
            vstd::std_specs::vec::axiom_spec_len(&outcomes);
            assert(parser@ =~= kept_patterns(defs.take(0), all));
        }
        for outcome in it: outcomes
            invariant
                defs == spec.patterns@,
                it.seq() == all,
                all.len() <= usize::MAX,
                index == it.index(),
                parser@ == kept_patterns(
                    defs.take(vstd::math::min(index as int, defs.len() as int)),
                    all,
                ),
        {
            if index < spec.patterns.len() {
                let ghost before = parser@;
                proof {
                    assert(defs.take(index + 1).drop_last() =~= defs.take(index as int));
                }
                match CompiledPattern::from_def(&spec.patterns[index], outcome) {
                    Some(pattern) => {
                        parser.patterns.push(pattern);
                        assert(parser@ =~= before.push(pattern@));
                    },
                    None => {},
                }
            }
            index += 1;
        }
        proof {
            if all.len() <= defs.len() {
                lemma_kept_patterns_beyond_outcomes(defs, all, all.len() as int);
            } else {
                assert(defs.take(defs.len() as int) =~= defs);
            }
        }
        parser
    }

    /// Reads a line with every pattern, in definition order, and returns what
    /// each matching pattern captured. The first reading that evaluates to a
    /// percentage is the line's progress; a line without readings has none.
    pub fn parse_line(&self, line: &str) -> (readings: Vec<ProgressReading>)
        ensures
            readings.deep_view() == readings_of(self@, line@),
    {
        let mut readings: Vec<ProgressReading> = Vec::new();
        let mut i: usize = 0;
        while i < self.patterns.len()
            invariant
                i <= self.patterns@.len(),
                self@.len() == self.patterns@.len(),
                readings.deep_view() == readings_of(self@.take(i as int), line@),
            decreases self.patterns@.len() - i,
        {
            proof {
                assert(self@.take(i + 1).drop_last() =~= self@.take(i as int));
            }
            match self.patterns[i].read(line) {
                Some(reading) => {
                    readings.push(reading);
                },
                None => {},
            }
            i += 1;
        }
        assert(self@.take(i as int) =~= self@);
        readings
    }
}

/// An output matcher as the contracts see it.
pub struct OutputModel {
    pub regex: Regex,
    pub group: usize,
}

/// The path an output matcher detects in a line: the text of its group in the
/// leftmost match, if there is a match and the group took part in it.
pub open spec fn output_path(matcher: OutputModel, line: Seq<char>) -> Option<Seq<char>> {
    match regex_captures(matcher.regex, line) {
        None => None,
        Some(groups) => group_text(groups, matcher.group as int),
    }
}

/// Whether `matcher` is what `config` gives for some outcome of compiling its
/// regex: none without a regex or with an empty one; else none, or the matcher
/// with that regex and the configured group.
pub open spec fn output_built_from(matcher: Option<OutputModel>, config: OutputConfig) -> bool {
    match matcher {
        None => true,
        Some(m) => {
            &&& config.regex matches Some(pattern) && pattern@.len() > 0 && regex_source(m.regex)
                == pattern@
            &&& m.group == config.capture_group as usize
        },
    }
}

/// The output matcher: extracts the path of a written file from a line.
#[derive(Debug)]
pub struct OutputParser {
    regex: Regex,
    group: usize,
}

impl View for OutputParser {
    type V = OutputModel;

    closed spec fn view(&self) -> OutputModel {
        OutputModel { regex: self.regex, group: self.group }
    }
}

impl OutputParser {
    /// Compiles the output pattern of `config`. An absent or empty regex
    /// disables detection, and so does one that does not compile.
    pub fn new(config: &OutputConfig) -> (parser: Option<Self>)
        ensures
            output_built_from(
                match parser {
                    Some(p) => Some(p@),
                    None => None,
                },
                *config,
            ),
    {
        let pattern = match &config.regex {
            Some(pattern) => pattern,
            None => {
                return None;
            },
        };
        if pattern.as_str().is_empty() {
            return None;
        }
        let compiled = Regex::new(pattern.as_str()).ok();
        OutputParser::from_compiled(compiled, config.capture_group)
    }

    /// Builds the matcher from the outcome of compiling its regex.
    pub fn from_compiled(compiled: Option<Regex>, capture_group: u32) -> (parser: Option<Self>)
        ensures
            match parser {
                Some(p) => Some(p@),
                None => None,
            } == match compiled {
                Some(regex) => Some(OutputModel { regex, group: capture_group as usize }),
                None => None,
            },
    {
        match compiled {
            Some(regex) => Some(OutputParser { regex, group: capture_group as usize }),
            None => None,
        }
    }

    /// The path this line reports, if any.
    pub fn parse_line(&self, line: &str) -> (path: Option<String>)
        ensures
            path.deep_view() == output_path(self@, line@),
    {
        match capture_groups(&self.regex, line) {
            Some(groups) => take_group(&groups, self.group),
            None => None,
        }
    }
}

/// Whether `matcher` is the regex of the completion matcher that `def` gives
/// for some outcome of compiling its regex: none for an empty regex; else
/// none, or a regex compiled from the text of the definition.
pub open spec fn completion_built_from(matcher: Option<Regex>, def: CompletionPatternDef) -> bool {
    match matcher {
        None => true,
        Some(re) => def.regex@.len() > 0 && regex_source(re) == def.regex@,
    }
}

/// The completion matcher: tells whether a line reports a finished frame.
#[derive(Debug)]
pub struct CompletionParser {
    regex: Regex,
}

impl View for CompletionParser {
    type V = Regex;

    /// The regex that decides.
    closed spec fn view(&self) -> Regex {
        self.regex
    }
}

impl CompletionParser {
    /// Compiles the completion pattern. An empty regex gives no matcher, and
    /// neither does one that does not compile.
    pub fn new(def: &CompletionPatternDef) -> (parser: Option<Self>)
        ensures
            completion_built_from(
                match parser {
                    Some(p) => Some(p@),
                    None => None,
                },
                *def,
            ),
    {
        if def.regex.as_str().is_empty() {
            return None;
        }
        let compiled = Regex::new(def.regex.as_str()).ok();
        CompletionParser::from_compiled(compiled)
    }

    /// Builds the matcher from the outcome of compiling its regex.
    pub fn from_compiled(compiled: Option<Regex>) -> (parser: Option<Self>)
        ensures
            match parser {
                Some(p) => Some(p@),
                None => None,
            } == compiled,
    {
        match compiled {
            Some(regex) => Some(CompletionParser { regex }),
            None => None,
        }
    }

    /// Whether the line matches the completion pattern.
    pub fn matches(&self, line: &str) -> (found: bool)
        ensures
            found == regex_matches(self@, line@),
    {
        self.regex.is_match(line)
    }
}

} // verus!
