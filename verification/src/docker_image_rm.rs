//! Pretend to delete container images: for each chosen image an untag line,
//! a digest-qualified untag line, then a batch of synthetic layer-deletion
//! lines, with one delay per image and an exit-signal poll after it.

use vstd::prelude::*;
use vstd::string::StringExecFns;

use crate::engine::{span_is, Line, Script, Span, Stage, Style};
use crate::generators::{choose_without_replacement, gen_hex_string, is_hex_digit, random_delay,
    random_index, views_of};
use crate::module::{Module, PlanInputs};

verus! {

/// The localized strings the cleanup simulation prints.
pub struct DockerText {
    pub untagged: String,
    pub deleted: String,
}

pub struct DockerImageRm {
    pub text: DockerText,
}

/// A plain span holding exactly 64 lowercase hexadecimal characters.
pub open spec fn hex_span(sp: Span) -> bool {
    sp.style == Style::Plain && sp.text@.len() == 64 && forall|i: int|
        0 <= i < sp.text@.len() ==> is_hex_digit(#[trigger] sp.text@[i])
}

/// The plain untag event line: label, image name, tag.
pub open spec fn untag_line_ok(text: DockerText, l: Line, name: Seq<char>, tag: Seq<char>) -> bool {
    l.spans@.len() == 5 && span_is(l.spans@[0], text.untagged@, Style::Plain) && span_is(
        l.spans@[1],
        ": "@,
        Style::Plain,
    ) && span_is(l.spans@[2], name, Style::Plain) && span_is(l.spans@[3], ":"@, Style::Plain)
        && span_is(l.spans@[4], tag, Style::Plain)
}

/// The digest-qualified untag event line: as above, plus a 64-digit digest.
pub open spec fn digest_untag_line_ok(
    text: DockerText,
    l: Line,
    name: Seq<char>,
    tag: Seq<char>,
) -> bool {
    l.spans@.len() == 7 && span_is(l.spans@[0], text.untagged@, Style::Plain) && span_is(
        l.spans@[1],
        ": "@,
        Style::Plain,
    ) && span_is(l.spans@[2], name, Style::Plain) && span_is(l.spans@[3], ":"@, Style::Plain)
        && span_is(l.spans@[4], tag, Style::Plain) && span_is(
        l.spans@[5],
        "@sha256:"@,
        Style::Plain,
    ) && hex_span(l.spans@[6])
}

/// One synthetic layer-deletion line with its own 64-digit digest.
pub open spec fn deleted_line_ok(text: DockerText, l: Line) -> bool {
    l.spans@.len() == 3 && span_is(l.spans@[0], text.deleted@, Style::Plain) && span_is(
        l.spans@[1],
        ": sha256:"@,
        Style::Plain,
    ) && hex_span(l.spans@[2])
}

/// The image name printed by the i-th stage of the script.
pub open spec fn image_name_of(s: Script, i: int) -> Seq<char> {
    s.stages@[i].lines@[0].spans@[2].text@
}

/// The tag printed by the i-th stage of the script.
pub open spec fn image_tag_of(s: Script, i: int) -> Seq<char> {
    s.stages@[i].lines@[0].spans@[4].text@
}

/// One per-image stage: both untag lines, 10 to 30 deletion lines, a delay of
/// 500 to 5000 time units, and a poll of the exit signal.
pub open spec fn image_stage_ok(text: DockerText, st: Stage, name: Seq<char>, tag: Seq<char>) -> bool {
    st.checks_exit && 500 <= st.delay < 5000 && 12 <= st.lines@.len() < 32 && untag_line_ok(
        text,
        st.lines@[0],
        name,
        tag,
    ) && digest_untag_line_ok(text, st.lines@[1], name, tag) && forall|k: int|
        2 <= k < st.lines@.len() ==> deleted_line_ok(text, #[trigger] st.lines@[k])
}

impl Module for DockerImageRm {
    open spec fn spec_name(&self) -> Seq<char> {
        "docker_image_rm"@
    }

    open spec fn spec_signature(&self) -> Seq<char> {
        "docker image rm 04880416f1bf"@
    }

    open spec fn inputs_ok(&self, inputs: &PlanInputs) -> bool {
        inputs.count <= inputs.candidates@.len() && views_of(inputs.candidates@).no_duplicates()
            && inputs.tags@.len() > 0
    }

    open spec fn plan_ok(&self, inputs: &PlanInputs, s: Script) -> bool {
        let n = inputs.count as int;
        &&& s.stages@.len() == n
        &&& forall|i: int|
            0 <= i < n ==> image_stage_ok(
                self.text,
                #[trigger] s.stages@[i],
                image_name_of(s, i),
                image_tag_of(s, i),
            )
        &&& forall|i: int|
            0 <= i < n ==> views_of(inputs.candidates@).contains(#[trigger] image_name_of(s, i))
        &&& forall|i: int|
            0 <= i < n ==> views_of(inputs.tags@).contains(#[trigger] image_tag_of(s, i))
        &&& forall|i: int, j: int|
            0 <= i < j < n ==> #[trigger] image_name_of(s, i) != #[trigger] image_name_of(s, j)
    }

    fn name(&self) -> (r: String) {
        String::from_str("docker_image_rm")
    }

    fn signature(&self) -> (r: String) {
        String::from_str("docker image rm 04880416f1bf")
    }

    fn plan(&self, inputs: &PlanInputs) -> (s: Script) {
        let ghost cand = inputs.candidates@;
        let names = choose_without_replacement(&inputs.candidates, inputs.count);
        let mut stages: Vec<Stage> = Vec::new();
        let mut i: usize = 0;
        while i < inputs.count
            invariant
                inputs.count <= inputs.candidates@.len(),
                inputs.tags@.len() > 0,
                i <= inputs.count,
                names@.len() == inputs.count,
                views_of(names@).no_duplicates(),
                forall|k: int|
                    0 <= k < names@.len() ==> views_of(cand).contains(#[trigger] names@[k]@),
                cand == inputs.candidates@,
                stages@.len() == i,
                forall|j: int|
                    0 <= j < i ==> #[trigger] stages@[j].lines@[0].spans@[2].text@ == names@[j]@,
                forall|j: int|
                    0 <= j < i ==> image_stage_ok(
                        self.text,
                        #[trigger] stages@[j],
                        stages@[j].lines@[0].spans@[2].text@,
                        stages@[j].lines@[0].spans@[4].text@,
                    ),
                forall|j: int|
                    0 <= j < i ==> views_of(inputs.tags@).contains(
                        #[trigger] stages@[j].lines@[0].spans@[4].text@,
                    ),
            decreases inputs.count - i,
        {
            let tidx = random_index(inputs.tags.len());
            let ghost gname = names@[i as int]@;
            let ghost gtag = inputs.tags@[tidx as int]@;
            proof {
                assert(views_of(inputs.tags@)[tidx as int] == gtag);
                assert(views_of(inputs.tags@).contains(gtag));
            }
            let mut lines: Vec<Line> = Vec::new();
            let mut spans: Vec<Span> = Vec::new();
            spans.push(Span { text: self.text.untagged.clone(), style: Style::Plain });
            spans.push(Span { text: String::from_str(": "), style: Style::Plain });
            spans.push(Span { text: names[i].clone(), style: Style::Plain });
            spans.push(Span { text: String::from_str(":"), style: Style::Plain });
            spans.push(Span { text: inputs.tags[tidx].clone(), style: Style::Plain });
            lines.push(Line { spans });
            let mut spans2: Vec<Span> = Vec::new();
            spans2.push(Span { text: self.text.untagged.clone(), style: Style::Plain });
            spans2.push(Span { text: String::from_str(": "), style: Style::Plain });
            spans2.push(Span { text: names[i].clone(), style: Style::Plain });
            spans2.push(Span { text: String::from_str(":"), style: Style::Plain });
            spans2.push(Span { text: inputs.tags[tidx].clone(), style: Style::Plain });
            spans2.push(Span { text: String::from_str("@sha256:"), style: Style::Plain });
            spans2.push(Span { text: gen_hex_string(64), style: Style::Plain });
            lines.push(Line { spans: spans2 });
            let num_hashes = random_delay(10, 30);
            let mut h: u64 = 0;
            while h < num_hashes
                invariant
                    10 <= num_hashes < 30,
                    h <= num_hashes,
                    lines@.len() == 2 + h,
                    untag_line_ok(self.text, lines@[0], gname, gtag),
                    digest_untag_line_ok(self.text, lines@[1], gname, gtag),
                    forall|k: int|
                        2 <= k < lines@.len() ==> deleted_line_ok(self.text, #[trigger] lines@[k]),
                decreases num_hashes - h,
            {
                let mut dspans: Vec<Span> = Vec::new();
                dspans.push(Span { text: self.text.deleted.clone(), style: Style::Plain });
                dspans.push(Span { text: String::from_str(": sha256:"), style: Style::Plain });
                dspans.push(Span { text: gen_hex_string(64), style: Style::Plain });
                lines.push(Line { spans: dspans });
                h = h + 1;
            }
            let delay = random_delay(500, 5000);
            stages.push(Stage { lines, delay, checks_exit: true });
            i = i + 1;
        }
        let s = Script { stages };
        proof {
            let n = inputs.count as int;
            assert forall|k: int| 0 <= k < n implies views_of(cand).contains(
                #[trigger] image_name_of(s, k),
            ) by {
                assert(image_name_of(s, k) == names@[k]@);
                assert(views_of(cand).contains(names@[k]@));
            }
            assert forall|k: int, j: int| 0 <= k < j < n implies #[trigger] image_name_of(s, k)
                != #[trigger] image_name_of(s, j) by {
                assert(image_name_of(s, k) == names@[k]@);
                assert(image_name_of(s, j) == names@[j]@);
                assert(views_of(names@)[k] == names@[k]@);
                assert(views_of(names@)[j] == names@[j]@);
                assert(views_of(names@)[k] != views_of(names@)[j]);
            }
        }
        s
    }
}

} // verus!
