//! A narration event: a script that is being synthesized, or one that is
//! ready and being played.

use crate::script::{spec_assign_voices, DialogueLine, Script};
use crate::synthesis::{
    all_resolved, none_resolved, spec_requests, synthesis_requests, SynthesisEngine,
    SynthesisRequest,
};
use vstd::prelude::*;

verus! {

/// The state of one narration event. An event starts as `Generating`, becomes
/// `Playing` once every line is synthesized, and never goes back.
#[derive(Debug, PartialEq, Eq)]
pub enum AudioNarration {
    /// The script is to be synthesized; the audio goes beside the given save
    /// file.
    Generating(Script, String),
    /// The script is annotated with its audio and can be played.
    Playing(Script),
    Stopped,
}

/// One file to play, and the line it belongs to.
#[derive(Debug, PartialEq, Eq)]
pub struct PlayStep {
    /// Position of the line in the dialogue.
    pub line: usize,
    /// The line's audio file.
    pub file: String,
}

/// What a narration event asks its caller to do.
#[derive(Debug)]
pub enum NarrationAction {
    /// Send each request, hand each completion to the engine, and publish
    /// the script when the engine says it is complete.
    Synthesize { engine: SynthesisEngine, requests: Vec<SynthesisRequest>, save_path: String },
    /// Play the files one after the other, each to its end.
    Play { steps: Vec<PlayStep> },
    Nothing,
}

/// The files to play for a dialogue: the audio of each line that has one, in
/// the order of the lines. A line without audio is passed over.
pub open spec fn spec_playback_plan(lines: Seq<DialogueLine>) -> Seq<PlayStep>
    decreases lines.len(),
{
    if lines.len() == 0 {
        Seq::empty()
    } else {
        let before = spec_playback_plan(lines.drop_last());
        match lines.last().audio {
            Some(file) => before.push(PlayStep { line: (lines.len() - 1) as usize, file }),
            None => before,
        }
    }
}

/// The files to play for a script, in playback order.
pub fn playback_plan(script: &Script) -> (steps: Vec<PlayStep>)
    ensures
        steps@ == spec_playback_plan(script@.dialogue),
{
    let mut steps: Vec<PlayStep> = Vec::new();
    let mut k: usize = 0;
    while k < script.dialogue.len()
        invariant
            k <= script.dialogue.len(),
            steps@ == spec_playback_plan(script@.dialogue.take(k as int)),
        decreases script.dialogue.len() - k,
    {
        assert(script@.dialogue.take(k as int + 1).drop_last() == script@.dialogue.take(k as int));
        match &script.dialogue[k].audio {
            Some(file) => {
                steps.push(PlayStep { line: k, file: file.clone() });
            },
            None => {},
        }
        k += 1;
    }
    assert(script@.dialogue.take(k as int) == script@.dialogue);
    steps
}

/// Starts the synthesis of a script: every speaker that has none gets a
/// voice, then one request is made for each line. Returns the engine that
/// takes the completions, and the requests to send.
pub fn generate_narration(script: Script) -> (started: (SynthesisEngine, Vec<SynthesisRequest>))
    requires
        script.wf(),
    ensures
        started.0.script().speakers == spec_assign_voices(script@.speakers),
        started.0.script().dialogue == script@.dialogue,
        started.0.resolved() == none_resolved(script@.dialogue.len()),
        started.1@ == spec_requests(started.0.script()),
{
    let mut script = script;
    script.assign_voices();
    let requests = synthesis_requests(&script);
    (SynthesisEngine::new(script), requests)
}

/// Turns a finished synthesis into the event to play. Before every line is
/// resolved there is no such event, and the engine comes back as it was.
pub fn complete_narration(engine: SynthesisEngine) -> (outcome: Result<
    AudioNarration,
    SynthesisEngine,
>)
    ensures
        match outcome {
            Ok(narration) => {
                &&& all_resolved(engine.resolved())
                &&& narration matches AudioNarration::Playing(script)
                &&& script@ == engine.script()
            },
            Err(unfinished) => !all_resolved(engine.resolved()) && unfinished == engine,
        },
{
    match engine.publish() {
        Ok(script) => Ok(AudioNarration::Playing(script)),
        Err(unfinished) => Err(unfinished),
    }
}

impl AudioNarration {
    /// Says what is to be done for the event. A script to generate is
    /// started, with its audio going beside the event's save file; a script
    /// to play gives the list of its files; a stopped event asks for nothing.
    /// The event itself is left as it is.
    pub fn handle_audio(&self) -> (action: NarrationAction)
        requires
            self matches AudioNarration::Generating(script, _) ==> script.wf(),
        ensures
            match *self {
                AudioNarration::Generating(script, save_path) => {
                    &&& action matches NarrationAction::Synthesize { engine, requests, save_path: to }
                    &&& to == save_path
                    &&& engine.script().speakers == spec_assign_voices(script@.speakers)
                    &&& engine.script().dialogue == script@.dialogue
                    &&& engine.resolved() == none_resolved(script@.dialogue.len())
                    &&& requests@ == spec_requests(engine.script())
                },
                AudioNarration::Playing(script) => {
                    &&& action matches NarrationAction::Play { steps }
                    &&& steps@ == spec_playback_plan(script@.dialogue)
                },
                AudioNarration::Stopped => action is Nothing,
            },
    {
        match self {
            AudioNarration::Generating(script, save_path) => {
                let (engine, requests) = generate_narration(script.clone());
                NarrationAction::Synthesize { engine, requests, save_path: save_path.clone() }
            },
            AudioNarration::Playing(script) => NarrationAction::Play {
                steps: playback_plan(script),
            },
            AudioNarration::Stopped => NarrationAction::Nothing,
        }
    }
}

impl Clone for AudioNarration {
    fn clone(&self) -> (copy: AudioNarration)
        ensures
            match *self {
                AudioNarration::Generating(script, save_path) => {
                    &&& copy matches AudioNarration::Generating(s, p)
                    &&& s@ == script@
                    &&& p == save_path
                },
                AudioNarration::Playing(script) => {
                    &&& copy matches AudioNarration::Playing(s)
                    &&& s@ == script@
                },
                AudioNarration::Stopped => copy is Stopped,
            },
    {
        match self {
            AudioNarration::Generating(script, save_path) => AudioNarration::Generating(
                script.clone(),
                save_path.clone(),
            ),
            AudioNarration::Playing(script) => AudioNarration::Playing(script.clone()),
            AudioNarration::Stopped => AudioNarration::Stopped,
        }
    }
}

/// Playback follows the order of the lines and passes over lines without
/// audio: the lines of the plan go strictly upwards, each step plays the
/// audio of its own line, and every line that has audio is in the plan.
pub proof fn lemma_playback_in_line_order(lines: Seq<DialogueLine>)
    requires
        lines.len() <= usize::MAX,
    ensures
        forall|m: int, n: int|
            0 <= m < n < spec_playback_plan(lines).len() ==> (#[trigger] spec_playback_plan(
                lines,
            )[m]).line < (#[trigger] spec_playback_plan(lines)[n]).line,
        forall|m: int|
            0 <= m < spec_playback_plan(lines).len() ==> {
                let step = #[trigger] spec_playback_plan(lines)[m];
                step.line < lines.len() && lines[step.line as int].audio == Some(step.file)
            },
        forall|k: int|
            0 <= k < lines.len() && (#[trigger] lines[k]).audio is Some ==> exists|m: int|
                0 <= m < spec_playback_plan(lines).len() && (#[trigger] spec_playback_plan(
                    lines,
                )[m]).line == k,
    decreases lines.len(),
{
    if lines.len() > 0 {
        let earlier = lines.drop_last();
        lemma_playback_in_line_order(earlier);
        let before = spec_playback_plan(earlier);
        let plan = spec_playback_plan(lines);
        assert forall|m: int| 0 <= m < before.len() implies (#[trigger] plan[m]) == before[m] by {}
        assert forall|k: int|
            0 <= k < lines.len() && (#[trigger] lines[k]).audio is Some implies exists|m: int|
            0 <= m < plan.len() && (#[trigger] plan[m]).line == k by {
            if k < lines.len() - 1 {
                assert(earlier[k].audio is Some);
                let m = choose|m: int| 0 <= m < before.len() && (#[trigger] before[m]).line == k;
                assert(plan[m].line == k);
            } else {
                assert(plan[plan.len() - 1].line == k);
            }
        }
        assert forall|m: int| 0 <= m < plan.len() implies {
            let step = #[trigger] plan[m];
            step.line < lines.len() && lines[step.line as int].audio == Some(step.file)
        } by {
            if m < before.len() {
                assert(plan[m] == before[m]);
                assert(earlier[before[m].line as int] == lines[before[m].line as int]);
            }
        }
        assert forall|m: int, n: int| 0 <= m < n < plan.len() implies (#[trigger] plan[m]).line < (
        #[trigger] plan[n]).line by {
            assert(plan[m] == before[m]);
            if n < before.len() {
                assert(plan[n] == before[n]);
            }
        }
    }
}

} // verus!
