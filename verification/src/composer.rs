//! Pretend to install packages with a PHP-style package manager: a fixed
//! preamble, one install line per chosen package with a version-like string
//! built from clustered samples, and a fixed closing sequence. The exit
//! signal is checked once per package.

use vstd::prelude::*;
use vstd::string::StringExecFns;

use crate::engine::{single_line, single_span_line, span_is, Line, Script, Span, Stage, Style};
use crate::generators::{choose_without_replacement, hex_digit_char, hex_digit_str, random_delay,
    views_of};
use crate::module::{Module, PlanInputs};

verus! {

/// The decimal rendering of a number: most significant digit first, no
/// leading zeroes (a lone zero for zero itself).
pub open spec fn dec_rep(n: int) -> Seq<char>
    decreases n,
{
    if n < 10 {
        seq![hex_digit_char(n)]
    } else {
        dec_rep(n / 10).push(hex_digit_char(n % 10))
    }
}

pub fn u64_to_decimal(n: u64) -> (r: String)
    ensures
        r@ == dec_rep(n as int),
    decreases n,
{
    if n < 10 {
        let r = String::from_str(hex_digit_str(n));
        proof {
            assert(r@ =~= dec_rep(n as int));
        }
        r
    } else {
        let mut s = u64_to_decimal(n / 10);
        s.append(hex_digit_str(n % 10));
        proof {
            assert(s@ =~= dec_rep(n as int));
        }
        s
    }
}

/// A three-component, dot-separated numeric version string.
pub open spec fn version_rep(major: int, minor: int, patch: int) -> Seq<char> {
    dec_rep(major) + "."@ + dec_rep(minor) + "."@ + dec_rep(patch)
}

/// Formats a version-like string from three components. The components come
/// from the clustering distribution (the host owns that sampler), which makes
/// them skew low with a long tail, as real version numbers do.
pub fn gen_package_version(major: u64, minor: u64, patch: u64) -> (r: String)
    ensures
        r@ == version_rep(major as int, minor as int, patch as int),
{
    let mut s = u64_to_decimal(major);
    s.append(".");
    let m = u64_to_decimal(minor);
    s.append(m.as_str());
    s.append(".");
    let p = u64_to_decimal(patch);
    s.append(p.as_str());
    proof {
        assert(s@ =~= version_rep(major as int, minor as int, patch as int));
    }
    s
}

/// The localized strings the install simulation prints, resolved once by the
/// host's translation collaborator.
pub struct ComposerText {
    pub loading_repos: String,
    pub updating_deps: String,
    pub installing: String,
    pub loading_cache: String,
    pub writing_lock: String,
    pub generating_autoload: String,
}

pub struct Composer {
    pub text: ComposerText,
}

/// The fixed two-line preamble stage.
pub open spec fn preamble_ok(text: ComposerText, st: Stage) -> bool {
    st.lines@.len() == 2 && single_span_line(st.lines@[0], text.loading_repos@, Style::Green)
        && single_span_line(st.lines@[1], text.updating_deps@, Style::Green) && st.delay == 0
        && !st.checks_exit
}

/// The fixed two-line closing stage.
pub open spec fn closing_ok(text: ComposerText, st: Stage) -> bool {
    st.lines@.len() == 2 && single_span_line(st.lines@[0], text.writing_lock@, Style::Green)
        && single_span_line(st.lines@[1], text.generating_autoload@, Style::Green) && st.delay == 0
        && !st.checks_exit
}

/// One install line: indentation, the installing label, the package name in
/// green, the version in yellow between parentheses, the cache note.
pub open spec fn package_line_ok(text: ComposerText, l: Line, version: Seq<char>) -> bool {
    l.spans@.len() == 8 && span_is(l.spans@[0], "  - "@, Style::Plain) && span_is(
        l.spans@[1],
        text.installing@,
        Style::Plain,
    ) && span_is(l.spans@[2], " "@, Style::Plain) && l.spans@[3].style == Style::Green && span_is(
        l.spans@[4],
        " ("@,
        Style::Plain,
    ) && span_is(l.spans@[5], version, Style::Yellow) && span_is(l.spans@[6], "): "@, Style::Plain)
        && span_is(l.spans@[7], text.loading_cache@, Style::Plain)
}

/// One per-package stage: a single install line, a delay of 100 to 2000 time
/// units, and a poll of the exit signal.
pub open spec fn package_stage_ok(text: ComposerText, st: Stage, version: Seq<char>) -> bool {
    st.checks_exit && 100 <= st.delay < 2000 && st.lines@.len() == 1 && package_line_ok(
        text,
        st.lines@[0],
        version,
    )
}

/// The package name printed by the i-th install stage of the script.
pub open spec fn package_name_of(s: Script, i: int) -> Seq<char> {
    s.stages@[i + 1].lines@[0].spans@[3].text@
}

impl Module for Composer {
    open spec fn spec_name(&self) -> Seq<char> {
        "composer"@
    }

    open spec fn spec_signature(&self) -> Seq<char> {
        "composer install"@
    }

    open spec fn inputs_ok(&self, inputs: &PlanInputs) -> bool {
        inputs.count <= inputs.candidates@.len() && inputs.clustered@.len() >= 3 * inputs.count
            && views_of(inputs.candidates@).no_duplicates()
    }

    open spec fn plan_ok(&self, inputs: &PlanInputs, s: Script) -> bool {
        let n = inputs.count as int;
        &&& s.stages@.len() == n + 2
        &&& preamble_ok(self.text, s.stages@[0])
        &&& closing_ok(self.text, s.stages@[n + 1])
        &&& forall|i: int|
            0 <= i < n ==> package_stage_ok(
                self.text,
                #[trigger] s.stages@[i + 1],
                version_rep(
                    inputs.clustered@[3 * i] as int,
                    inputs.clustered@[3 * i + 1] as int,
                    inputs.clustered@[3 * i + 2] as int,
                ),
            )
        &&& forall|i: int|
            0 <= i < n ==> views_of(inputs.candidates@).contains(#[trigger] package_name_of(s, i))
        &&& forall|i: int, j: int|
            0 <= i < j < n ==> #[trigger] package_name_of(s, i) != #[trigger] package_name_of(
                s,
                j,
            )
    }

    fn name(&self) -> (r: String) {
        String::from_str("composer")
    }

    fn signature(&self) -> (r: String) {
        String::from_str("composer install")
    }

    fn plan(&self, inputs: &PlanInputs) -> (s: Script) {
        let ghost cand = inputs.candidates@;
        let clustered_len = inputs.clustered.len();
        let names = choose_without_replacement(&inputs.candidates, inputs.count);
        let mut stages: Vec<Stage> = Vec::new();
        let mut pre_lines: Vec<Line> = Vec::new();
        pre_lines.push(single_line(self.text.loading_repos.clone(), Style::Green));
        pre_lines.push(single_line(self.text.updating_deps.clone(), Style::Green));
        stages.push(Stage { lines: pre_lines, delay: 0, checks_exit: false });
        let mut i: usize = 0;
        while i < inputs.count
            invariant
                inputs.count <= inputs.candidates@.len(),
                inputs.clustered@.len() >= 3 * inputs.count,
                inputs.clustered@.len() == clustered_len,
                i <= inputs.count,
                names@.len() == inputs.count,
                views_of(names@).no_duplicates(),
                forall|k: int|
                    0 <= k < names@.len() ==> views_of(cand).contains(#[trigger] names@[k]@),
                cand == inputs.candidates@,
                stages@.len() == i + 1,
                preamble_ok(self.text, stages@[0]),
                forall|j: int|
                    0 <= j < i ==> package_stage_ok(
                        self.text,
                        #[trigger] stages@[j + 1],
                        version_rep(
                            inputs.clustered@[3 * j] as int,
                            inputs.clustered@[3 * j + 1] as int,
                            inputs.clustered@[3 * j + 2] as int,
                        ),
                    ),
                forall|j: int|
                    0 <= j < i ==> #[trigger] stages@[j + 1].lines@[0].spans@[3].text@
                        == names@[j]@,
            decreases inputs.count - i,
        {
            let v_major = inputs.clustered[3 * i];
            let v_minor = inputs.clustered[3 * i + 1];
            let v_patch = inputs.clustered[3 * i + 2];
            let version = gen_package_version(v_major, v_minor, v_patch);
            let mut spans: Vec<Span> = Vec::new();
            spans.push(Span { text: String::from_str("  - "), style: Style::Plain });
            spans.push(Span { text: self.text.installing.clone(), style: Style::Plain });
            spans.push(Span { text: String::from_str(" "), style: Style::Plain });
            spans.push(Span { text: names[i].clone(), style: Style::Green });
            spans.push(Span { text: String::from_str(" ("), style: Style::Plain });
            spans.push(Span { text: version, style: Style::Yellow });
            spans.push(Span { text: String::from_str("): "), style: Style::Plain });
            spans.push(Span { text: self.text.loading_cache.clone(), style: Style::Plain });
            let mut lines: Vec<Line> = Vec::new();
            lines.push(Line { spans });
            let delay = random_delay(100, 2000);
            stages.push(Stage { lines, delay, checks_exit: true });
            i = i + 1;
        }
        let mut closing: Vec<Line> = Vec::new();
        closing.push(single_line(self.text.writing_lock.clone(), Style::Green));
        closing.push(single_line(self.text.generating_autoload.clone(), Style::Green));
        stages.push(Stage { lines: closing, delay: 0, checks_exit: false });
        let s = Script { stages };
        proof {
            let n = inputs.count as int;
            assert forall|k: int| 0 <= k < n implies views_of(cand).contains(
                #[trigger] package_name_of(s, k),
            ) by {
                assert(package_name_of(s, k) == names@[k]@);
                assert(views_of(cand).contains(names@[k]@));
            }
            assert forall|k: int, j: int| 0 <= k < j < n implies #[trigger] package_name_of(s, k)
                != #[trigger] package_name_of(s, j) by {
                assert(package_name_of(s, k) == names@[k]@);
                assert(package_name_of(s, j) == names@[j]@);
                assert(views_of(names@)[k] == names@[k]@);
                assert(views_of(names@)[j] == names@[j]@);
                assert(views_of(names@)[k] != views_of(names@)[j]);
            }
        }
        s
    }
}

} // verus!
