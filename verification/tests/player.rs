use ansiart::music::{
    Articulation, Music, MusicEntity, MusicOperation, Note, NoteInfo, NoteSign, SoundNumber,
};
use ansiart::player::{frequency_index, PlayAction, PlayerState};

fn play_str(string: &str) -> (PlayerState, Vec<PlayAction>) {
    let mut state = PlayerState::new();
    let music = Music::from_str(string);
    let actions = music
        .entities()
        .iter()
        .map(|entity| state.step(entity))
        .collect();
    (state, actions)
}

fn sounds(actions: &[PlayAction]) -> usize {
    actions
        .iter()
        .filter(|action| **action != PlayAction::Silence)
        .count()
}

#[test]
fn lib_test() {
    let (state, actions) = play_str(";;;900000");
    assert_eq!(state, PlayerState::new());
    assert_eq!(sounds(&actions), 1);
}

#[test]
fn tutor_tune() {
    let (state, actions) = play_str("T200 L8 O4 C < B > C F4 C < G#4 A > C4 < F MS GGG MN G4 A# 892.32;1;8;;-19.04 O3 L2 F P2");
    assert_eq!(
        state,
        PlayerState {
            tempo: 200,
            length: 2,
            octave: 3,
            articulation: Articulation::Normal
        }
    );
    assert_eq!(actions.len(), 29);
    assert_eq!(sounds(&actions), 17);
}

#[test]
fn tutor_bird_call() {
    let (_, actions) = play_str("1397;4;2;250 2600;1.2;4;;150");
    assert_eq!(sounds(&actions), 2);
}

#[test]
fn tutor_steam_ship() {
    let (_, actions) = play_str("57;15 37;25");
    assert_eq!(sounds(&actions), 2);
}

#[test]
fn zapped_by_martians() {
    let (_, actions) = play_str("7000;.12;200;25;-100");
    assert_eq!(sounds(&actions), 1);
}

#[test]
fn tutor_variation() {
    let (_, actions) = play_str("100;2;10;5;*");
    assert_eq!(sounds(&actions), 1);
}

#[test]
fn the_state_of_the_player_runs_on() {
    let mut state = PlayerState::new();
    assert_eq!(
        state,
        PlayerState {
            tempo: 120,
            length: 1,
            octave: 4,
            articulation: Articulation::Normal
        }
    );
    let music = Music::from_str("T90 L8 O2 ML > C+4, N3 P8 < < < < A-");
    let actions: Vec<PlayAction> = music.entities().iter().map(|entity| state.step(entity)).collect();
    assert_eq!(
        state,
        PlayerState {
            tempo: 90,
            length: 8,
            octave: 0,
            articulation: Articulation::Legato
        }
    );
    assert_eq!(
        actions,
        vec![
            PlayAction::Silence,
            PlayAction::Silence,
            PlayAction::Silence,
            PlayAction::Silence,
            PlayAction::Silence,
            PlayAction::Note {
                index: Some(37),
                length: Some(4),
                dots: 1
            },
            PlayAction::RawNote(3),
            PlayAction::Pause(8),
            PlayAction::Silence,
            PlayAction::Silence,
            PlayAction::Silence,
            PlayAction::Silence,
            PlayAction::Note {
                index: Some(8),
                length: None,
                dots: 0
            },
        ]
    );
    assert_eq!(state.step(&MusicEntity::Operation(MusicOperation::Foreground)), PlayAction::Silence);
    assert_eq!(state.articulation, Articulation::Legato);
    state.octave = usize::MAX;
    state.step(&MusicEntity::IncreaseOctave);
    assert_eq!(state.octave, usize::MAX);
}

#[test]
fn notes_have_a_place_among_the_frequencies() {
    assert_eq!(frequency_index(0, Note::C, NoteSign::Natural), Some(0));
    assert_eq!(frequency_index(0, Note::C, NoteSign::Flat), None);
    assert_eq!(frequency_index(4, Note::A, NoteSign::Natural), Some(57));
    assert_eq!(frequency_index(6, Note::B, NoteSign::Natural), Some(83));
    assert_eq!(frequency_index(6, Note::B, NoteSign::Sharp), None);
    assert_eq!(frequency_index(7, Note::C, NoteSign::Flat), Some(83));
    assert_eq!(frequency_index(7, Note::C, NoteSign::Natural), None);
    assert_eq!(frequency_index(usize::MAX, Note::C, NoteSign::Natural), None);
}

#[test]
fn music_is_written_as_it_is_read() {
    let music = Music::from_str("t120 l4 c4 MB mn a#8,, < > N5 P8 O3 g- 7000;.12;200;25;-100 100;2;10;5;* ;;;9");
    assert_eq!(
        music.to_string(),
        "T120 L4 C4 MB MN A+8.. < > N5 P8 O3 G- 7000;0.12;200;25;-100 100;2;10;5;* ;;;9;"
    );
    assert_eq!(Music::from_str("").to_string(), "");
    assert_eq!(
        NoteInfo {
            sign: NoteSign::Flat,
            length: None,
            dots: 3
        }
        .to_string(),
        "-..."
    );
    let number = |negative, whole, fraction, fraction_digits| SoundNumber {
        negative,
        whole,
        fraction,
        fraction_digits,
    };
    assert_eq!(number(true, 12, 50, 3).to_string(), "-12.050");
    assert_eq!(number(false, 0, 0, 0).to_string(), "0");
    assert_eq!(number(false, 3, 0, 2).to_string(), "3.00");
    assert_eq!(number(false, 3, 123, 2).to_string(), "3.123");
    assert_eq!(MusicOperation::Undefined.to_string(), "M");
    assert_eq!(Articulation::Stacato.to_string(), "MS");
}

