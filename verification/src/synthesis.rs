//! The ordered synthesis engine: one request for each dialogue line, all in
//! flight at once, each result applied to the line it was issued for.
//!
//! The engine sends nothing itself. It hands out the requests, takes each
//! completion as it arrives, in whatever order, and gives the annotated
//! script back once every line is resolved.

use crate::script::{is_first_speaker, DialogueLine, Script, ScriptView, Speaker};
use crate::voice::Voice;
use vstd::prelude::*;

verus! {

/// What is asked of the synthesis service for one line.
#[derive(Debug, PartialEq, Eq)]
pub struct SynthesisRequest {
    /// Position of the line in the dialogue.
    pub line_index: usize,
    /// The text to speak.
    pub text: String,
    /// The voice of the line's speaker.
    pub voice: Voice,
}

/// Why a line could not be synthesized.
#[derive(Debug, PartialEq, Eq)]
pub enum SynthesisError {
    /// The service refused or failed the request.
    Service(String),
    /// The audio could not be stored.
    Io(String),
}

/// How the request for one line ended: with the path of the rendered file, or
/// with an error.
#[derive(Debug, PartialEq, Eq)]
pub struct Completion {
    /// Position of the line the request was issued for.
    pub line_index: usize,
    pub result: Result<String, SynthesisError>,
}

/// The position of the first speaker with the given index.
pub open spec fn first_speaker(speakers: Seq<Speaker>, index: usize) -> int {
    choose|at: int| is_first_speaker(speakers, index, at)
}

/// The request for the line at position `k`: the line's text, in the voice of
/// the line's speaker.
pub open spec fn spec_request(script: ScriptView, k: int) -> SynthesisRequest {
    SynthesisRequest {
        line_index: k as usize,
        text: script.dialogue[k].text,
        voice: script.speakers[first_speaker(
            script.speakers,
            script.dialogue[k].speaker_index,
        )].voice.unwrap(),
    }
}

/// One request for each line, in the order of the lines.
pub open spec fn spec_requests(script: ScriptView) -> Seq<SynthesisRequest> {
    Seq::new(script.dialogue.len(), |k: int| spec_request(script, k))
}

/// The requests for a script whose speakers all have a voice: one for each
/// line, in line order, each naming its line.
pub fn synthesis_requests(script: &Script) -> (requests: Vec<SynthesisRequest>)
    requires
        script.wf(),
        script.voices_assigned(),
    ensures
        requests@ == spec_requests(script@),
{
    let mut requests: Vec<SynthesisRequest> = Vec::new();
    let mut k: usize = 0;
    while k < script.dialogue.len()
        invariant
            k <= script.dialogue.len(),
            script.wf(),
            script.voices_assigned(),
            requests@ == spec_requests(script@).take(k as int),
        decreases script.dialogue.len() - k,
    {
        let line = &script.dialogue[k];
        let found = script.find_speaker(line.speaker_index);
        assert(found is Some);
        let at: usize = found.unwrap();
        assert(first_speaker(script@.speakers, line.speaker_index) == at);
        let voice = script.speakers[at].voice.unwrap();
        requests.push(SynthesisRequest { line_index: k, text: line.text.clone(), voice });
        assert(requests@ == spec_requests(script@).take(k as int + 1));
        k += 1;
    }
    assert(requests@ == spec_requests(script@));
    requests
}

/// A line after the request for it has ended with `result`: with the path of
/// the rendered file if there is one, as it was if the request failed.
pub open spec fn landed(line: DialogueLine, result: Result<String, SynthesisError>)
    -> DialogueLine {
    match result {
        Ok(path) => line.with_audio(path),
        Err(_) => line,
    }
}

/// Whether a completion is taken: it names a line of the dialogue, and that
/// line is not resolved yet.
pub open spec fn lands(lines: Seq<DialogueLine>, resolved: Seq<bool>, completion: Completion)
    -> bool {
    &&& completion.line_index < lines.len()
    &&& completion.line_index < resolved.len()
    &&& !resolved[completion.line_index as int]
}

/// The dialogue after a completion: the result is applied to the line the
/// completion names, and to no other.
pub open spec fn resolve_lines(
    lines: Seq<DialogueLine>,
    resolved: Seq<bool>,
    completion: Completion,
) -> Seq<DialogueLine> {
    if lands(lines, resolved, completion) {
        lines.update(
            completion.line_index as int,
            landed(lines[completion.line_index as int], completion.result),
        )
    } else {
        lines
    }
}

/// Which lines are resolved after a completion.
pub open spec fn resolve_flags(
    lines: Seq<DialogueLine>,
    resolved: Seq<bool>,
    completion: Completion,
) -> Seq<bool> {
    if lands(lines, resolved, completion) {
        resolved.update(completion.line_index as int, true)
    } else {
        resolved
    }
}

/// Every line is resolved.
pub open spec fn all_resolved(resolved: Seq<bool>) -> bool {
    forall|k: int| 0 <= k < resolved.len() ==> #[trigger] resolved[k]
}

/// No line is resolved.
pub open spec fn none_resolved(count: nat) -> Seq<bool> {
    Seq::new(count, |k: int| false)
}

/// The synthesis of one script in progress.
#[derive(Debug)]
pub struct SynthesisEngine {
    script: Script,
    resolved: Vec<bool>,
}

impl SynthesisEngine {
    #[verifier::type_invariant]
    spec fn shape(self) -> bool {
        self.resolved@.len() == self.script.dialogue@.len()
    }

    /// The script as annotated so far.
    pub closed spec fn script(self) -> ScriptView {
        self.script@
    }

    /// For each line, whether its request has ended.
    pub closed spec fn resolved(self) -> Seq<bool> {
        self.resolved@
    }

    /// An engine for `script`, with every line unresolved.
    pub fn new(script: Script) -> (engine: SynthesisEngine)
        ensures
            engine.script() == script@,
            engine.resolved() == none_resolved(script@.dialogue.len()),
            engine.resolved().len() == engine.script().dialogue.len(),
    {
        let mut resolved: Vec<bool> = Vec::new();
        let mut k: usize = 0;
        while k < script.dialogue.len()
            invariant
                k <= script.dialogue.len(),
                resolved@ == none_resolved(k as nat),
            decreases script.dialogue.len() - k,
        {
            resolved.push(false);
            assert(resolved@ == none_resolved((k + 1) as nat));
            k += 1;
        }
        SynthesisEngine { script, resolved }
    }

    /// Whether every line is resolved.
    pub fn is_complete(&self) -> (complete: bool)
        ensures
            complete == all_resolved(self.resolved()),
    {
        let mut k: usize = 0;
        while k < self.resolved.len()
            invariant
                k <= self.resolved.len(),
                forall|m: int| 0 <= m < k ==> #[trigger] self.resolved@[m],
            decreases self.resolved.len() - k,
        {
            if !self.resolved[k] {
                return false;
            }
            k += 1;
        }
        true
    }

    /// Takes the completion of one request. Its result goes to the line it
    /// names, whichever request ended first; a completion that names no line,
    /// or a line already resolved, changes nothing. Returns whether every
    /// line is resolved now.
    pub fn resolve(&mut self, completion: Completion) -> (complete: bool)
        ensures
            final(self).script().speakers == old(self).script().speakers,
            final(self).script().dialogue == resolve_lines(
                old(self).script().dialogue,
                old(self).resolved(),
                completion,
            ),
            final(self).resolved() == resolve_flags(
                old(self).script().dialogue,
                old(self).resolved(),
                completion,
            ),
            complete == all_resolved(final(self).resolved()),
            final(self).resolved().len() == final(self).script().dialogue.len(),
    {
        proof {
            use_type_invariant(&*self);
        }
        let index: usize = completion.line_index;
        if index < self.resolved.len() && !self.resolved[index] {
            match completion.result {
                Ok(path) => {
                    self.script.dialogue[index].audio = Some(path);
                },
                Err(_) => {},
            }
            self.resolved[index] = true;
        }
        self.is_complete()
    }

    /// The script as annotated so far.
    pub fn annotated(&self) -> (script: &Script)
        ensures
            script@ == self.script(),
    {
        &self.script
    }

    /// Gives the annotated script back once every line is resolved. Before
    /// that nothing is given out, and the engine comes back as it was.
    pub fn publish(self) -> (outcome: Result<Script, SynthesisEngine>)
        ensures
            match outcome {
                Ok(script) => all_resolved(self.resolved()) && script@ == self.script(),
                Err(engine) => !all_resolved(self.resolved()) && engine == self,
            },
    {
        if self.is_complete() {
            Ok(self.script)
        } else {
            Err(self)
        }
    }
}

/// The dialogue after a run of completions, taken one after the other.
pub open spec fn lines_after(
    lines: Seq<DialogueLine>,
    resolved: Seq<bool>,
    completions: Seq<Completion>,
) -> Seq<DialogueLine>
    decreases completions.len(),
{
    if completions.len() == 0 {
        lines
    } else {
        resolve_lines(
            lines_after(lines, resolved, completions.drop_last()),
            flags_after(lines, resolved, completions.drop_last()),
            completions.last(),
        )
    }
}

/// Which lines are resolved after a run of completions.
pub open spec fn flags_after(
    lines: Seq<DialogueLine>,
    resolved: Seq<bool>,
    completions: Seq<Completion>,
) -> Seq<bool>
    decreases completions.len(),
{
    if completions.len() == 0 {
        resolved
    } else {
        resolve_flags(
            lines_after(lines, resolved, completions.drop_last()),
            flags_after(lines, resolved, completions.drop_last()),
            completions.last(),
        )
    }
}

/// Each completion of the run names a line of its own.
pub open spec fn one_per_line(completions: Seq<Completion>) -> bool {
    forall|i: int, j: int|
        0 <= i < j < completions.len() ==> (#[trigger] completions[i]).line_index != (
        #[trigger] completions[j]).line_index
}

/// Each completion of the run names one of `count` lines.
pub open spec fn within(completions: Seq<Completion>, count: nat) -> bool {
    forall|j: int| 0 <= j < completions.len() ==> (#[trigger] completions[j]).line_index < count
}

/// Some completion of the run names the line at position `k`.
pub open spec fn mentions(completions: Seq<Completion>, k: int) -> bool {
    exists|j: int| 0 <= j < completions.len() && (#[trigger] completions[j]).line_index == k
}

/// Index-addressed reassembly. Let one request be issued for each line and
/// let the completions arrive in any order. Then each result is found on the
/// line its request was issued for, a line whose request has not ended is as
/// it was, and a line counts as resolved exactly when its request has ended.
pub proof fn lemma_results_land_by_index(lines: Seq<DialogueLine>, completions: Seq<Completion>)
    requires
        one_per_line(completions),
        within(completions, lines.len()),
    ensures
        lines_after(lines, none_resolved(lines.len()), completions).len() == lines.len(),
        flags_after(lines, none_resolved(lines.len()), completions).len() == lines.len(),
        forall|j: int|
            0 <= j < completions.len() ==> lines_after(
                lines,
                none_resolved(lines.len()),
                completions,
            )[(#[trigger] completions[j]).line_index as int] == landed(
                lines[completions[j].line_index as int],
                completions[j].result,
            ),
        forall|k: int|
            0 <= k < lines.len() && !mentions(completions, k) ==> #[trigger] lines_after(
                lines,
                none_resolved(lines.len()),
                completions,
            )[k] == lines[k],
        forall|k: int|
            0 <= k < lines.len() ==> (#[trigger] flags_after(
                lines,
                none_resolved(lines.len()),
                completions,
            )[k] <==> mentions(completions, k)),
    decreases completions.len(),
{
    let fresh = none_resolved(lines.len());
    if completions.len() > 0 {
        let earlier = completions.drop_last();
        let last = completions.last();
        let at = last.line_index as int;
        lemma_results_land_by_index(lines, earlier);
        let lines_before = lines_after(lines, fresh, earlier);
        let flags_before = flags_after(lines, fresh, earlier);
        assert(!mentions(earlier, at)) by {
            if mentions(earlier, at) {
                let j = choose|j: int|
                    0 <= j < earlier.len() && (#[trigger] earlier[j]).line_index == at;
                assert(completions[j].line_index != completions[completions.len() - 1].line_index);
            }
        }
        assert(!flags_before[at]);
        assert(lands(lines_before, flags_before, last));
        assert forall|j: int| 0 <= j < completions.len() implies lines_after(
            lines,
            fresh,
            completions,
        )[(#[trigger] completions[j]).line_index as int] == landed(
            lines[completions[j].line_index as int],
            completions[j].result,
        ) by {
            if j < completions.len() - 1 {
                assert(earlier[j] == completions[j]);
                assert(completions[j].line_index != completions[completions.len() - 1].line_index);
            }
        }
        assert forall|k: int| 0 <= k < lines.len() implies (#[trigger] flags_after(
            lines,
            fresh,
            completions,
        )[k] <==> mentions(completions, k)) by {
            if k == at {
                assert(completions[completions.len() - 1].line_index == k);
            } else if mentions(completions, k) {
                let j = choose|j: int|
                    0 <= j < completions.len() && (#[trigger] completions[j]).line_index == k;
                assert(earlier[j].line_index == k);
            } else if mentions(earlier, k) {
                let j = choose|j: int|
                    0 <= j < earlier.len() && (#[trigger] earlier[j]).line_index == k;
                assert(completions[j].line_index == k);
            }
        }
        assert forall|k: int|
            0 <= k < lines.len() && !mentions(completions, k) implies #[trigger] lines_after(
            lines,
            fresh,
            completions,
        )[k] == lines[k] by {
            assert(k != at) by {
                if k == at {
                    assert(completions[completions.len() - 1].line_index == k);
                }
            }
            if mentions(earlier, k) {
                let j = choose|j: int|
                    0 <= j < earlier.len() && (#[trigger] earlier[j]).line_index == k;
                assert(completions[j].line_index == k);
            }
        }
    } else {
        assert forall|k: int| 0 <= k < lines.len() implies !mentions(completions, k) by {}
    }
}

/// The order in which requests end does not matter. Two runs that hold the
/// same completions, one for each line they name, leave the same dialogue and
/// the same lines resolved.
pub proof fn lemma_completion_order_is_irrelevant(
    lines: Seq<DialogueLine>,
    one: Seq<Completion>,
    other: Seq<Completion>,
)
    requires
        one_per_line(one),
        one_per_line(other),
        within(one, lines.len()),
        forall|c: Completion| one.contains(c) <==> other.contains(c),
    ensures
        lines_after(lines, none_resolved(lines.len()), one) == lines_after(
            lines,
            none_resolved(lines.len()),
            other,
        ),
        flags_after(lines, none_resolved(lines.len()), one) == flags_after(
            lines,
            none_resolved(lines.len()),
            other,
        ),
{
    let fresh = none_resolved(lines.len());
    assert forall|j: int| 0 <= j < other.len() implies (#[trigger] other[j]).line_index
        < lines.len() by {
        assert(other.contains(other[j]));
        let i = choose|i: int| 0 <= i < one.len() && one[i] == other[j];
        assert(one[i].line_index < lines.len());
    }
    lemma_results_land_by_index(lines, one);
    lemma_results_land_by_index(lines, other);
    let via_one = lines_after(lines, fresh, one);
    let via_other = lines_after(lines, fresh, other);
    assert forall|k: int| 0 <= k < lines.len() implies mentions(one, k) == mentions(other, k) by {
        if mentions(one, k) {
            let i = choose|i: int| 0 <= i < one.len() && (#[trigger] one[i]).line_index == k;
            assert(one.contains(one[i]));
            let j = choose|j: int| 0 <= j < other.len() && other[j] == one[i];
            assert(other[j].line_index == k);
        }
        if mentions(other, k) {
            let j = choose|j: int| 0 <= j < other.len() && (#[trigger] other[j]).line_index == k;
            assert(other.contains(other[j]));
            let i = choose|i: int| 0 <= i < one.len() && one[i] == other[j];
            assert(one[i].line_index == k);
        }
    }
    assert forall|k: int| 0 <= k < lines.len() implies via_one[k] == via_other[k] by {
        if mentions(one, k) {
            let i = choose|i: int| 0 <= i < one.len() && (#[trigger] one[i]).line_index == k;
            assert(one.contains(one[i]));
            let j = choose|j: int| 0 <= j < other.len() && other[j] == one[i];
            assert(via_one[one[i].line_index as int] == landed(lines[k], one[i].result));
            assert(via_other[other[j].line_index as int] == landed(lines[k], other[j].result));
        } else {
            assert(!mentions(other, k));
        }
    }
    assert(via_one =~= via_other);
    assert(flags_after(lines, fresh, one) =~= flags_after(lines, fresh, other));
}

/// Nothing is published early. Once the request of every line has ended,
/// every line is resolved, and until then some line is not.
pub proof fn lemma_complete_when_every_request_ended(
    lines: Seq<DialogueLine>,
    completions: Seq<Completion>,
)
    requires
        one_per_line(completions),
        within(completions, lines.len()),
    ensures
        all_resolved(flags_after(lines, none_resolved(lines.len()), completions)) <==> (forall|
            k: int,
        |
            0 <= k < lines.len() ==> mentions(completions, k)),
{
    lemma_results_land_by_index(lines, completions);
    let flags = flags_after(lines, none_resolved(lines.len()), completions);
    if all_resolved(flags) {
        assert forall|k: int| 0 <= k < lines.len() implies mentions(completions, k) by {
            assert(flags[k]);
        }
    }
}

} // verus!
