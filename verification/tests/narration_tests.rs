use narrator::narration::{
    complete_narration, generate_narration, playback_plan, AudioNarration, NarrationAction,
    PlayStep,
};
use narrator::script::{DialogueLine, Script, Speaker};
use narrator::synthesis::{
    synthesis_requests, Completion, SynthesisEngine, SynthesisError, SynthesisRequest,
};
use narrator::voice::Voice;

fn spoken(speaker_index: usize, text: &str) -> DialogueLine {
    DialogueLine { speaker_index, text: text.to_string(), audio: None }
}

fn hello_script() -> Script {
    Script {
        speakers: vec![Speaker { index: 0, voice: None }, Speaker { index: 1, voice: None }],
        dialogue: vec![spoken(0, "Hello"), spoken(1, "Hi there")],
    }
}

fn rendered(line_index: usize, path: &str) -> Completion {
    Completion { line_index, result: Ok(path.to_string()) }
}

fn failed(line_index: usize) -> Completion {
    Completion { line_index, result: Err(SynthesisError::Service("quota".to_string())) }
}

fn files_of(narration: &AudioNarration) -> Vec<PlayStep> {
    match narration.handle_audio() {
        NarrationAction::Play { steps } => steps,
        other => panic!("expected a play action, got {:?}", other),
    }
}

#[test]
fn both_lines_synthesized_are_played_in_order() {
    let narration = AudioNarration::Generating(hello_script(), "/saves/game.json".to_string());
    let (mut engine, requests) = match narration.handle_audio() {
        NarrationAction::Synthesize { engine, requests, save_path } => {
            assert_eq!(save_path, "/saves/game.json");
            (engine, requests)
        }
        other => panic!("expected a synthesis action, got {:?}", other),
    };
    assert_eq!(
        requests,
        vec![
            SynthesisRequest { line_index: 0, text: "Hello".to_string(), voice: Voice::Alloy },
            SynthesisRequest { line_index: 1, text: "Hi there".to_string(), voice: Voice::Ash },
        ]
    );
    assert!(!engine.resolve(rendered(0, "/saves/logs/first.mp3")));
    assert!(engine.resolve(rendered(1, "/saves/logs/second.mp3")));
    let playing = complete_narration(engine).expect("every line is resolved");
    match &playing {
        AudioNarration::Playing(script) => {
            assert_eq!(script.dialogue[0].audio, Some("/saves/logs/first.mp3".to_string()));
            assert_eq!(script.dialogue[1].audio, Some("/saves/logs/second.mp3".to_string()));
            assert_eq!(script.dialogue[0].text, "Hello");
            assert_eq!(script.dialogue[1].text, "Hi there");
        }
        other => panic!("expected a playing event, got {:?}", other),
    }
    assert_eq!(
        files_of(&playing),
        vec![
            PlayStep { line: 0, file: "/saves/logs/first.mp3".to_string() },
            PlayStep { line: 1, file: "/saves/logs/second.mp3".to_string() },
        ]
    );
}

#[test]
fn a_failed_second_line_is_skipped_in_playback() {
    let (mut engine, _requests) = generate_narration(hello_script());
    assert!(!engine.resolve(rendered(0, "/saves/logs/first.mp3")));
    assert!(engine.resolve(failed(1)));
    let playing = complete_narration(engine).expect("every line is resolved");
    match &playing {
        AudioNarration::Playing(script) => {
            assert_eq!(script.dialogue[0].audio, Some("/saves/logs/first.mp3".to_string()));
            assert_eq!(script.dialogue[1].audio, None);
        }
        other => panic!("expected a playing event, got {:?}", other),
    }
    assert_eq!(
        files_of(&playing),
        vec![PlayStep { line: 0, file: "/saves/logs/first.mp3".to_string() }]
    );
}

#[test]
fn the_slowest_request_still_lands_on_its_line() {
    let script = Script {
        speakers: vec![Speaker { index: 0, voice: Some(Voice::Onyx) }],
        dialogue: vec![spoken(0, "one"), spoken(0, "two"), spoken(0, "three"), spoken(0, "four")],
    };
    let (mut engine, requests) = generate_narration(script);
    assert_eq!(requests.len(), 4);
    assert!(!engine.resolve(rendered(3, "d.mp3")));
    assert!(!engine.resolve(rendered(0, "a.mp3")));
    assert!(!engine.resolve(rendered(2, "c.mp3")));
    assert!(engine.resolve(rendered(1, "b.mp3")));
    let script = engine.publish().expect("every line is resolved");
    let audio: Vec<Option<String>> = script.dialogue.iter().map(|l| l.audio.clone()).collect();
    assert_eq!(
        audio,
        vec![
            Some("a.mp3".to_string()),
            Some("b.mp3".to_string()),
            Some("c.mp3".to_string()),
            Some("d.mp3".to_string()),
        ]
    );
}

#[test]
fn any_order_of_completions_gives_the_same_script() {
    let orders: [[usize; 3]; 6] =
        [[0, 1, 2], [0, 2, 1], [1, 0, 2], [1, 2, 0], [2, 0, 1], [2, 1, 0]];
    let mut outcomes: Vec<Script> = Vec::new();
    for order in orders.iter() {
        let script = Script {
            speakers: vec![Speaker { index: 2, voice: None }],
            dialogue: vec![spoken(2, "a"), spoken(2, "b"), spoken(2, "c")],
        };
        let (mut engine, _requests) = generate_narration(script);
        for &k in order.iter() {
            let completion = if k == 1 { failed(1) } else { rendered(k, &format!("{}.mp3", k)) };
            engine.resolve(completion);
        }
        outcomes.push(engine.publish().expect("every line is resolved"));
    }
    for outcome in outcomes.iter() {
        assert_eq!(outcome, &outcomes[0]);
    }
    assert_eq!(outcomes[0].dialogue[0].audio, Some("0.mp3".to_string()));
    assert_eq!(outcomes[0].dialogue[1].audio, None);
    assert_eq!(outcomes[0].dialogue[2].audio, Some("2.mp3".to_string()));
}

#[test]
fn nothing_is_published_while_a_request_is_pending() {
    let (mut engine, _requests) = generate_narration(hello_script());
    assert!(!engine.is_complete());
    engine.resolve(rendered(1, "second.mp3"));
    let engine = match complete_narration(engine) {
        Ok(narration) => panic!("published early: {:?}", narration),
        Err(engine) => engine,
    };
    assert!(!engine.is_complete());
    assert_eq!(engine.annotated().dialogue[1].audio, Some("second.mp3".to_string()));
    assert_eq!(engine.annotated().dialogue[0].audio, None);
}

#[test]
fn a_second_completion_for_a_line_is_ignored() {
    let (mut engine, _requests) = generate_narration(hello_script());
    engine.resolve(rendered(0, "first.mp3"));
    assert!(!engine.resolve(rendered(0, "again.mp3")));
    assert_eq!(engine.annotated().dialogue[0].audio, Some("first.mp3".to_string()));
}

#[test]
fn a_completion_for_no_line_is_ignored() {
    let (mut engine, _requests) = generate_narration(hello_script());
    assert!(!engine.resolve(rendered(2, "stray.mp3")));
    assert_eq!(engine.annotated().dialogue, hello_script().dialogue);
}

#[test]
fn an_empty_script_is_complete_at_once() {
    let (engine, requests) = generate_narration(Script { speakers: vec![], dialogue: vec![] });
    assert!(requests.is_empty());
    assert!(engine.is_complete());
    assert_eq!(
        complete_narration(engine).ok(),
        Some(AudioNarration::Playing(Script { speakers: vec![], dialogue: vec![] }))
    );
}

#[test]
fn generating_assigns_voices_once() {
    let mut script = hello_script();
    script.speakers[1].voice = Some(Voice::Shimmer);
    let (engine, requests) = generate_narration(script);
    assert_eq!(requests[0].voice, Voice::Alloy);
    assert_eq!(requests[1].voice, Voice::Shimmer);
    assert_eq!(
        engine.annotated().speakers,
        vec![
            Speaker { index: 0, voice: Some(Voice::Alloy) },
            Speaker { index: 1, voice: Some(Voice::Shimmer) },
        ]
    );
}

#[test]
fn requests_name_the_voice_of_the_speaker_of_each_line() {
    let script = Script {
        speakers: vec![
            Speaker { index: 10, voice: Some(Voice::Fable) },
            Speaker { index: 20, voice: Some(Voice::Sage) },
        ],
        dialogue: vec![spoken(20, "x"), spoken(10, "y"), spoken(20, "z")],
    };
    let requests = synthesis_requests(&script);
    assert_eq!(
        requests,
        vec![
            SynthesisRequest { line_index: 0, text: "x".to_string(), voice: Voice::Sage },
            SynthesisRequest { line_index: 1, text: "y".to_string(), voice: Voice::Fable },
            SynthesisRequest { line_index: 2, text: "z".to_string(), voice: Voice::Sage },
        ]
    );
}

#[test]
fn playback_passes_over_lines_without_audio() {
    let mut script = hello_script();
    script.dialogue.push(spoken(0, "third"));
    script.dialogue.push(spoken(1, "fourth"));
    script.dialogue[1].audio = Some("b.mp3".to_string());
    script.dialogue[3].audio = Some("d.mp3".to_string());
    assert_eq!(
        playback_plan(&script),
        vec![
            PlayStep { line: 1, file: "b.mp3".to_string() },
            PlayStep { line: 3, file: "d.mp3".to_string() },
        ]
    );
}

#[test]
fn playback_of_a_silent_script_plays_nothing() {
    assert_eq!(playback_plan(&hello_script()), vec![]);
    assert_eq!(files_of(&AudioNarration::Playing(hello_script())), vec![]);
}

#[test]
fn a_stopped_event_asks_for_nothing() {
    assert!(matches!(AudioNarration::Stopped.handle_audio(), NarrationAction::Nothing));
}

#[test]
fn handling_an_event_leaves_it_as_it_is() {
    let narration = AudioNarration::Generating(hello_script(), "/saves/game.json".to_string());
    let _ = narration.handle_audio();
    assert_eq!(
        narration,
        AudioNarration::Generating(hello_script(), "/saves/game.json".to_string())
    );
}

#[test]
fn a_new_engine_holds_the_script_unresolved() {
    let engine = SynthesisEngine::new(hello_script());
    assert!(!engine.is_complete());
    assert_eq!(engine.annotated(), &hello_script());
    assert!(engine.publish().is_err());
}

#[test]
fn an_io_failure_leaves_the_line_without_audio() {
    let (mut engine, _requests) = generate_narration(hello_script());
    engine.resolve(Completion {
        line_index: 0,
        result: Err(SynthesisError::Io("disk full".to_string())),
    });
    engine.resolve(rendered(1, "second.mp3"));
    let script = engine.publish().expect("every line is resolved");
    assert_eq!(script.dialogue[0].audio, None);
    assert_eq!(script.dialogue[1].audio, Some("second.mp3".to_string()));
}
