use narrator::script::{DialogueLine, Script, Speaker};
use narrator::voice::{Voice, VOICE_COUNT};

fn line(speaker_index: usize, text: &str) -> DialogueLine {
    DialogueLine { speaker_index, text: text.to_string(), audio: None }
}

fn two_speaker_script() -> Script {
    Script {
        speakers: vec![Speaker { index: 0, voice: None }, Speaker { index: 1, voice: None }],
        dialogue: vec![line(0, "Hello"), line(1, "Hi there")],
    }
}

#[test]
fn voices_follow_the_catalogue_by_speaker_index() {
    assert_eq!(Voice::for_speaker(0), Voice::Alloy);
    assert_eq!(Voice::for_speaker(1), Voice::Ash);
    assert_eq!(Voice::for_speaker(2), Voice::Coral);
    assert_eq!(Voice::for_speaker(8), Voice::Shimmer);
    assert_eq!(Voice::for_speaker(9), Voice::Alloy);
    assert_eq!(Voice::for_speaker(VOICE_COUNT + 3), Voice::Echo);
}

#[test]
fn the_catalogue_holds_nine_voices() {
    assert_eq!(VOICE_COUNT, 9);
    assert_eq!(Voice::at(0), Voice::Alloy);
    assert_eq!(Voice::at(3), Voice::Echo);
    assert_eq!(Voice::at(5), Voice::Onyx);
    assert_eq!(Voice::at(6), Voice::Nova);
    assert_eq!(Voice::at(7), Voice::Sage);
}

#[test]
fn assign_voice_fills_an_empty_voice() {
    let mut speaker = Speaker { index: 4, voice: None };
    speaker.assign_voice();
    assert_eq!(speaker, Speaker { index: 4, voice: Some(Voice::Fable) });
}

#[test]
fn assign_voice_keeps_a_voice_that_is_there() {
    let mut speaker = Speaker { index: 4, voice: Some(Voice::Nova) };
    speaker.assign_voice();
    assert_eq!(speaker.voice, Some(Voice::Nova));
}

#[test]
fn assigning_voices_twice_changes_nothing() {
    let mut script = two_speaker_script();
    script.speakers.push(Speaker { index: 7, voice: Some(Voice::Echo) });
    script.assign_voices();
    let after_first = script.clone();
    assert_eq!(
        script.speakers,
        vec![
            Speaker { index: 0, voice: Some(Voice::Alloy) },
            Speaker { index: 1, voice: Some(Voice::Ash) },
            Speaker { index: 7, voice: Some(Voice::Echo) },
        ]
    );
    script.assign_voices();
    assert_eq!(script, after_first);
    assert!(script.has_voices());
}

#[test]
fn assigning_voices_leaves_the_dialogue_alone() {
    let mut script = two_speaker_script();
    script.assign_voices();
    assert_eq!(script.dialogue, vec![line(0, "Hello"), line(1, "Hi there")]);
}

#[test]
fn a_script_with_known_speakers_is_well_formed() {
    assert!(two_speaker_script().is_well_formed());
    assert!(Script { speakers: vec![], dialogue: vec![] }.is_well_formed());
}

#[test]
fn a_line_without_speaker_breaks_the_script() {
    let mut script = two_speaker_script();
    script.dialogue.push(line(5, "Who am I?"));
    assert!(!script.is_well_formed());
}

#[test]
fn two_speakers_with_one_index_break_the_script() {
    let mut script = two_speaker_script();
    script.speakers.push(Speaker { index: 1, voice: None });
    assert!(!script.is_well_formed());
}

#[test]
fn find_speaker_gives_the_first_position() {
    let script = Script {
        speakers: vec![
            Speaker { index: 3, voice: None },
            Speaker { index: 9, voice: None },
            Speaker { index: 3, voice: None },
        ],
        dialogue: vec![],
    };
    assert_eq!(script.find_speaker(3), Some(0));
    assert_eq!(script.find_speaker(9), Some(1));
    assert_eq!(script.find_speaker(4), None);
}

#[test]
fn has_voices_needs_every_speaker() {
    let mut script = two_speaker_script();
    assert!(!script.has_voices());
    script.speakers[0].voice = Some(Voice::Sage);
    assert!(!script.has_voices());
    script.speakers[1].voice = Some(Voice::Sage);
    assert!(script.has_voices());
}

#[test]
fn a_cloned_script_equals_its_source() {
    let mut script = two_speaker_script();
    script.dialogue[1].audio = Some("/saves/logs/a.mp3".to_string());
    assert_eq!(script.clone(), script);
}
