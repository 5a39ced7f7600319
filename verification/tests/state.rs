use rf_comp::index::{SIDECHAIN_HPF, THRESHOLD};
use rf_comp::settings::Settings;
use rf_comp::state::{layout_count, load_state, save_state, STATE_BYTES};

fn sample_words() -> [u32; 18] {
    let mut words = [0_u32; 18];
    for (n, word) in words.iter_mut().enumerate() {
        *word = (n as u32).wrapping_mul(0x9E37_79B9) ^ 0x3F80_0000;
    }
    words
}

/// The settings block as the words the state holds.
fn words_of(settings: &Settings) -> [u32; 18] {
    settings.as_array().map(|value| value as u32)
}

/// The settings a block of words restores, as the engine reads them back.
fn settings_of(block: &[u8]) -> Option<Settings> {
    let mut words = [0_u32; 18];
    let count = load_state(block, &mut words)?;
    let values = words.map(|word| word as i32);
    Settings::from_slice(&values[..count])
}

#[test]
fn engine_state_round_trips_and_a_bad_length_is_refused() {
    let mut settings = Settings::default();
    assert!(settings.set(THRESHOLD, -245));
    assert!(settings.set(SIDECHAIN_HPF, 20));
    let mut block = [0_u8; STATE_BYTES];
    assert_eq!(save_state(&words_of(&settings), &mut block), Some(STATE_BYTES));
    let other = settings_of(&block).expect("a saved block loads");
    assert_eq!(other.get(THRESHOLD), Some(-245));
    assert_eq!(other.get(SIDECHAIN_HPF), Some(20));
    assert!(settings_of(&block[..7]).is_none());
    assert!(settings_of(&block[..8]).is_none());
}

#[test]
fn lib_state_round_trips_and_a_bad_length_is_refused() {
    let mut settings = Settings::default();
    assert!(settings.set(THRESHOLD, -265));
    let mut block = [0_u8; 4096];
    assert_eq!(save_state(&words_of(&settings), &mut block), Some(STATE_BYTES));
    let other = settings_of(&block[..STATE_BYTES]).expect("a saved block loads");
    assert_eq!(other.get(THRESHOLD), Some(-265));
    assert!(settings_of(&block[..STATE_BYTES - 4]).is_none());
}

#[test]
fn raw_words_round_trip() {
    let words = sample_words();
    let mut block = [0_u8; STATE_BYTES];
    assert_eq!(save_state(&words, &mut block), Some(STATE_BYTES));
    let mut read = [0_u32; 18];
    assert_eq!(load_state(&block, &mut read), Some(18));
    assert_eq!(read, words);
    let mut untouched = [5_u32; 18];
    assert!(load_state(&block[..7], &mut untouched).is_none());
    assert!(load_state(&block[..8], &mut untouched).is_none());
    assert_eq!(untouched, [5_u32; 18]);
}

#[test]
fn words_are_written_least_significant_byte_first() {
    let mut words = [0_u32; 18];
    words[0] = 0x3F80_0000;
    words[17] = 0x0102_0304;
    let mut block = [0xAA_u8; 80];
    assert_eq!(save_state(&words, &mut block), Some(72));
    assert_eq!(&block[..4], &[0x00, 0x00, 0x80, 0x3F]);
    assert_eq!(&block[68..72], &[0x04, 0x03, 0x02, 0x01]);
    assert_eq!(&block[72..], &[0xAA; 8]);
}

#[test]
fn a_destination_too_small_is_left_untouched() {
    let words = sample_words();
    let mut block = [7_u8; STATE_BYTES - 1];
    assert_eq!(save_state(&words, &mut block), None);
    assert_eq!(block, [7_u8; STATE_BYTES - 1]);
}

#[test]
fn an_earlier_layout_is_read() {
    let words = sample_words();
    let mut block = [0_u8; STATE_BYTES];
    save_state(&words, &mut block).unwrap();
    let mut read = [1_u32; 18];
    assert_eq!(load_state(&block[..56], &mut read), Some(14));
    assert_eq!(&read[..14], &words[..14]);
    assert_eq!(&read[14..], &[1_u32; 4]);
}

#[test]
fn only_layout_lengths_are_counted() {
    assert_eq!(layout_count(72), Some(18));
    assert_eq!(layout_count(56), Some(14));
    assert_eq!(layout_count(68), None);
    assert_eq!(layout_count(71), None);
    assert_eq!(layout_count(0), None);
}
