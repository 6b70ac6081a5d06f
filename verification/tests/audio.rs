use quantum_sdk::audio::{DialogueRequest, DialogueTurn};
use quantum_sdk::error::Error;

fn turn(speaker: &str, text: &str, voice: Option<&str>) -> DialogueTurn {
    DialogueTurn {
        speaker: speaker.into(),
        text: text.into(),
        voice: voice.map(String::from),
    }
}

#[test]
fn from_turns_maps_every_speaker() {
    let req = DialogueRequest::from_turns(
        vec![
            DialogueTurn {
                speaker: "A".into(),
                text: "Hi".into(),
                voice: None,
            },
            DialogueTurn {
                speaker: "B".into(),
                text: "Hello".into(),
                voice: Some("vb".into()),
            },
            DialogueTurn {
                speaker: "A".into(),
                text: "Bye".into(),
                voice: Some("va".into()),
            },
        ],
        None,
    )
    .unwrap();
    assert_eq!(req.text, "A: Hi\nB: Hello\nA: Bye");
    assert_eq!(req.voices.len(), 2);
    assert_eq!(req.voices[0].name, "B");
    assert_eq!(req.voices[1].voice_id, "va");
}

#[test]
fn from_turns_rejects_unmapped_and_conflicting_speakers() {
    let unmapped = DialogueRequest::from_turns(
        vec![DialogueTurn {
            speaker: "A".into(),
            text: "Hi".into(),
            voice: None,
        }],
        None,
    );
    match unmapped {
        Err(Error::Api(e)) => {
            assert_eq!(e.code, "invalid_request");
            assert_eq!(e.status_code, 0);
        }
        other => panic!("expected local invalid_request, got {other:?}"),
    }

    let conflict = DialogueRequest::from_turns(
        vec![
            DialogueTurn {
                speaker: "A".into(),
                text: "Hi".into(),
                voice: Some("v1".into()),
            },
            DialogueTurn {
                speaker: "A".into(),
                text: "Again".into(),
                voice: Some("v2".into()),
            },
        ],
        None,
    );
    assert!(matches!(conflict, Err(Error::Api(e)) if e.message.contains("v2")));
}

#[test]
fn the_messages_quote_the_speaker_and_voices() {
    match DialogueRequest::from_turns(
        vec![turn("A", "Hi", Some("v1")), turn("A", "Again", Some("v2"))],
        None,
    ) {
        Err(Error::Api(e)) => {
            assert_eq!(e.message, "speaker \"A\" maps to both voice \"v1\" and voice \"v2\"");
            assert!(e.request_id.is_empty());
        }
        other => panic!("expected a conflict, got {other:?}"),
    }
    match DialogueRequest::from_turns(
        vec![turn("A", "Hi", Some("v1")), turn("B", "Yo", None), turn("C", "Hey", None)],
        None,
    ) {
        Err(Error::Api(e)) => {
            assert_eq!(e.message, "speaker \"B\" has no voice on any turn")
        }
        other => panic!("expected an unmapped speaker, got {other:?}"),
    }
}

#[test]
fn a_conflict_is_reported_before_an_unmapped_speaker() {
    match DialogueRequest::from_turns(
        vec![turn("X", "..", None), turn("A", "1", Some("v1")), turn("A", "2", Some("v2"))],
        None,
    ) {
        Err(Error::Api(e)) => assert!(e.message.contains("maps to both voice")),
        other => panic!("expected a conflict, got {other:?}"),
    }
}

#[test]
fn repeating_the_same_voice_is_fine_and_the_model_rides_along() {
    let req = DialogueRequest::from_turns(
        vec![turn("A", "1", Some("v1")), turn("A", "2", Some("v1")), turn("A", "3", None)],
        Some("eleven_v3".into()),
    )
    .unwrap();
    assert_eq!(req.text, "A: 1\nA: 2\nA: 3");
    assert_eq!(req.voices.len(), 1);
    assert_eq!(req.voices[0].name, "A");
    assert_eq!(req.voices[0].voice_id, "v1");
    assert_eq!(req.model.as_deref(), Some("eleven_v3"));
    assert!(req.output_format.is_none());
    assert!(req.seed.is_none());
}

#[test]
fn no_turns_make_an_empty_script() {
    let req = DialogueRequest::from_turns(Vec::new(), None).unwrap();
    assert_eq!(req.text, "");
    assert!(req.voices.is_empty());
}

#[test]
fn turns_are_accepted_exactly_when_every_speaker_has_one_voice() {
    let ok = vec![
        turn("Ann", "hi", Some("v1")),
        turn("Bob", "yo", None),
        turn("Bob", "so", Some("v2")),
        turn("Ann", "bye", Some("v1")),
    ];
    assert!(DialogueRequest::from_turns(ok, None).is_ok());
    let unvoiced = vec![turn("Ann", "hi", Some("v1")), turn("Bob", "yo", None)];
    assert!(DialogueRequest::from_turns(unvoiced, None).is_err());
    let disagree = vec![turn("Ann", "hi", Some("v1")), turn("Ann", "again", Some("v2"))];
    assert!(DialogueRequest::from_turns(disagree, None).is_err());
}
