//! A dialogue script: who speaks, and the lines in the order they are heard.

use crate::voice::Voice;
use vstd::prelude::*;

verus! {

/// One speaker of a script.
#[derive(Clone, Copy, Debug, PartialEq, Eq)]
pub struct Speaker {
    /// The number by which dialogue lines refer to this speaker.
    pub index: usize,
    /// The synthesis voice, once one is assigned.
    pub voice: Option<Voice>,
}

/// One line of dialogue. Its position in the script is its place in the
/// playback order.
#[derive(Debug, PartialEq, Eq)]
pub struct DialogueLine {
    /// The `index` of the speaker who says the line.
    pub speaker_index: usize,
    /// The text to synthesize.
    pub text: String,
    /// Where the rendered audio lies, once the line is synthesized.
    pub audio: Option<String>,
}

/// Ordered dialogue and the roster of its speakers.
#[derive(Debug, PartialEq, Eq)]
pub struct Script {
    pub speakers: Vec<Speaker>,
    pub dialogue: Vec<DialogueLine>,
}

/// A script as a pair of sequences.
pub struct ScriptView {
    pub speakers: Seq<Speaker>,
    pub dialogue: Seq<DialogueLine>,
}

impl View for Script {
    type V = ScriptView;

    open spec fn view(&self) -> ScriptView {
        ScriptView { speakers: self.speakers@, dialogue: self.dialogue@ }
    }
}

impl Speaker {
    /// The speaker after voice assignment: a speaker without a voice gets the
    /// one that belongs to its index, a speaker with a voice keeps it.
    pub open spec fn spec_assign_voice(self) -> Speaker {
        match self.voice {
            Some(_) => self,
            None => Speaker { index: self.index, voice: Some(Voice::spec_for_speaker(self.index)) },
        }
    }

    /// Gives the speaker a voice unless it has one.
    pub fn assign_voice(&mut self)
        ensures
            *final(self) == old(self).spec_assign_voice(),
    {
        if self.voice.is_none() {
            self.voice = Some(Voice::for_speaker(self.index));
        }
    }
}

impl DialogueLine {
    /// The line with its audio set to `path`.
    pub open spec fn with_audio(self, path: String) -> DialogueLine {
        DialogueLine { speaker_index: self.speaker_index, text: self.text, audio: Some(path) }
    }
}

impl Clone for DialogueLine {
    fn clone(&self) -> (copy: DialogueLine)
        ensures
            copy == *self,
    {
        DialogueLine {
            speaker_index: self.speaker_index,
            text: self.text.clone(),
            audio: match &self.audio {
                Some(path) => Some(path.clone()),
                None => None,
            },
        }
    }
}

/// Every speaker after voice assignment.
pub open spec fn spec_assign_voices(speakers: Seq<Speaker>) -> Seq<Speaker> {
    Seq::new(speakers.len(), |i: int| speakers[i].spec_assign_voice())
}

/// No two speakers share an index.
pub open spec fn unique_speakers(speakers: Seq<Speaker>) -> bool {
    forall|i: int, j: int|
        0 <= i < j < speakers.len() ==> (#[trigger] speakers[i]).index != (
        #[trigger] speakers[j]).index
}

/// Some speaker has the given index.
pub open spec fn has_speaker(speakers: Seq<Speaker>, index: usize) -> bool {
    exists|i: int| 0 <= i < speakers.len() && (#[trigger] speakers[i]).index == index
}

/// `at` is the position of the first speaker with the given index.
pub open spec fn is_first_speaker(speakers: Seq<Speaker>, index: usize, at: int) -> bool {
    &&& 0 <= at < speakers.len()
    &&& speakers[at].index == index
    &&& forall|j: int| 0 <= j < at ==> (#[trigger] speakers[j]).index != index
}

/// Every speaker has a voice.
pub open spec fn all_voiced(speakers: Seq<Speaker>) -> bool {
    forall|i: int| 0 <= i < speakers.len() ==> (#[trigger] speakers[i]).voice is Some
}

impl ScriptView {
    /// The invariant of a script: speaker indices are unique, and every line
    /// refers to a speaker of the roster.
    pub open spec fn wf(self) -> bool {
        &&& unique_speakers(self.speakers)
        &&& forall|k: int|
            0 <= k < self.dialogue.len() ==> has_speaker(
                self.speakers,
                (#[trigger] self.dialogue[k]).speaker_index,
            )
    }
}

impl Script {
    /// The invariant of a script: speaker indices are unique, and every line
    /// refers to a speaker of the roster.
    pub open spec fn wf(&self) -> bool {
        self@.wf()
    }

    /// Every speaker has a voice.
    pub open spec fn voices_assigned(&self) -> bool {
        all_voiced(self.speakers@)
    }

    /// The position of the first speaker with the given index.
    pub fn find_speaker(&self, index: usize) -> (found: Option<usize>)
        ensures
            match found {
                Some(at) => is_first_speaker(self.speakers@, index, at as int),
                None => !has_speaker(self.speakers@, index),
            },
    {
        let mut at: usize = 0;
        while at < self.speakers.len()
            invariant
                at <= self.speakers.len(),
                forall|j: int| 0 <= j < at ==> (#[trigger] self.speakers@[j]).index != index,
            decreases self.speakers.len() - at,
        {
            if self.speakers[at].index == index {
                return Some(at);
            }
            at += 1;
        }
        None
    }

    /// Whether the script meets its invariant.
    pub fn is_well_formed(&self) -> (ok: bool)
        ensures
            ok == self.wf(),
    {
        let count: usize = self.speakers.len();
        let mut i: usize = 0;
        while i < count
            invariant
                count == self.speakers.len(),
                i <= count,
                forall|a: int, b: int|
                    0 <= a < b < count && a < i ==> (#[trigger] self.speakers@[a]).index != (
                    #[trigger] self.speakers@[b]).index,
            decreases count - i,
        {
            let mut j: usize = i + 1;
            while j < count
                invariant
                    count == self.speakers.len(),
                    i < j <= count,
                    forall|b: int|
                        i < b < j ==> self.speakers@[i as int].index != (
                        #[trigger] self.speakers@[b]).index,
                decreases count - j,
            {
                if self.speakers[i].index == self.speakers[j].index {
                    return false;
                }
                j += 1;
            }
            i += 1;
        }
        let mut k: usize = 0;
        while k < self.dialogue.len()
            invariant
                k <= self.dialogue.len(),
                unique_speakers(self.speakers@),
                forall|m: int|
                    0 <= m < k ==> has_speaker(
                        self.speakers@,
                        (#[trigger] self.dialogue@[m]).speaker_index,
                    ),
            decreases self.dialogue.len() - k,
        {
            if self.find_speaker(self.dialogue[k].speaker_index).is_none() {
                return false;
            }
            k += 1;
        }
        true
    }

    /// Whether every speaker has a voice.
    pub fn has_voices(&self) -> (ok: bool)
        ensures
            ok == self.voices_assigned(),
    {
        let mut i: usize = 0;
        while i < self.speakers.len()
            invariant
                i <= self.speakers.len(),
                forall|a: int| 0 <= a < i ==> (#[trigger] self.speakers@[a]).voice is Some,
            decreases self.speakers.len() - i,
        {
            if self.speakers[i].voice.is_none() {
                return false;
            }
            i += 1;
        }
        true
    }

    /// Gives every speaker that has none a voice. Speakers that have a voice
    /// keep it, and the dialogue is not touched.
    pub fn assign_voices(&mut self)
        ensures
            final(self)@.speakers == spec_assign_voices(old(self)@.speakers),
            final(self)@.dialogue == old(self)@.dialogue,
            final(self).voices_assigned(),
            old(self).wf() ==> final(self).wf(),
    {
        let count: usize = self.speakers.len();
        let mut i: usize = 0;
        while i < count
            invariant
                count == old(self).speakers.len(),
                self.speakers.len() == count,
                i <= count,
                self.dialogue == old(self).dialogue,
                forall|a: int|
                    0 <= a < i ==> #[trigger] self.speakers@[a] == old(
                        self,
                    ).speakers@[a].spec_assign_voice(),
                forall|a: int| i <= a < count ==> #[trigger] self.speakers@[a] == old(self).speakers@[a],
            decreases count - i,
        {
            self.speakers[i].assign_voice();
            i += 1;
        }
        proof {
            lemma_assignment_keeps_invariant(old(self)@);
        }
    }
}

impl Clone for Script {
    fn clone(&self) -> (copy: Script)
        ensures
            copy@ == self@,
    {
        let mut speakers: Vec<Speaker> = Vec::new();
        let mut i: usize = 0;
        while i < self.speakers.len()
            invariant
                i <= self.speakers.len(),
                speakers@ == self.speakers@.take(i as int),
            decreases self.speakers.len() - i,
        {
            speakers.push(self.speakers[i]);
            i += 1;
        }
        let mut dialogue: Vec<DialogueLine> = Vec::new();
        let mut k: usize = 0;
        while k < self.dialogue.len()
            invariant
                k <= self.dialogue.len(),
                dialogue@ == self.dialogue@.take(k as int),
            decreases self.dialogue.len() - k,
        {
            dialogue.push(self.dialogue[k].clone());
            k += 1;
        }
        assert(speakers@ == self.speakers@);
        assert(dialogue@ == self.dialogue@);
        Script { speakers, dialogue }
    }
}

/// Voice assignment changes no speaker's index, so a script that meets its
/// invariant still meets it afterwards.
pub proof fn lemma_assignment_keeps_invariant(script: ScriptView)
    ensures
        all_voiced(spec_assign_voices(script.speakers)),
        script.wf() ==> (ScriptView {
            speakers: spec_assign_voices(script.speakers),
            dialogue: script.dialogue,
        }).wf(),
{
    let assigned = spec_assign_voices(script.speakers);
    if script.wf() {
        assert forall|k: int| 0 <= k < script.dialogue.len() implies has_speaker(
            assigned,
            (#[trigger] script.dialogue[k]).speaker_index,
        ) by {
            let index = script.dialogue[k].speaker_index;
            let at = choose|i: int|
                0 <= i < script.speakers.len() && (#[trigger] script.speakers[i]).index == index;
            assert(assigned[at].index == index);
        }
        assert forall|i: int, j: int| 0 <= i < j < assigned.len() implies (
        #[trigger] assigned[i]).index != (#[trigger] assigned[j]).index by {
            assert(script.speakers[i].index != script.speakers[j].index);
        }
    }
}

/// Voice assignment is idempotent: assigning a second time changes nothing,
/// and a voice that was there before the first time is still there.
pub proof fn lemma_assign_voices_idempotent(speakers: Seq<Speaker>)
    ensures
        spec_assign_voices(spec_assign_voices(speakers)) == spec_assign_voices(speakers),
        forall|i: int|
            0 <= i < speakers.len() && (#[trigger] speakers[i]).voice is Some
                ==> spec_assign_voices(speakers)[i] == speakers[i],
{
}

} // verus!
