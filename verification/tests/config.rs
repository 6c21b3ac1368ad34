use chiprust_cli::config::{parse_frequency, Config, ConfigError, FrequencyField};

#[test]
fn frequencies_parse_as_unsigned_decimals() {
    assert_eq!(parse_frequency(&b"60".to_vec()), Some(60));
    assert_eq!(parse_frequency(&b"0".to_vec()), Some(0));
    assert_eq!(parse_frequency(&b"007".to_vec()), Some(7));
    assert_eq!(parse_frequency(&b"4294967295".to_vec()), Some(u32::MAX));
}

#[test]
fn bad_frequencies_are_rejected() {
    assert_eq!(parse_frequency(&b"".to_vec()), None);
    assert_eq!(parse_frequency(&b"12a".to_vec()), None);
    assert_eq!(parse_frequency(&b"-5".to_vec()), None);
    assert_eq!(parse_frequency(&b"4294967296".to_vec()), None);
    assert_eq!(parse_frequency(&b"99999999999999999999".to_vec()), None);
}

#[test]
fn good_parts_build_a_config() {
    let cfg = Config::from_parts(
        &b"60".to_vec(),
        &b"500".to_vec(),
        &b"0".to_vec(),
        true,
        vec![0x12, 0x00],
    )
    .unwrap();
    assert_eq!(cfg.draw_freq, 60);
    assert_eq!(cfg.cpu_freq, 500);
    assert_eq!(cfg.timers_freq, 0);
    assert!(cfg.is_debug);
    assert_eq!(cfg.program, vec![0x12, 0x00]);
}

#[test]
fn each_bad_frequency_names_its_field() {
    let e = Config::from_parts(&b"x".to_vec(), &b"1".to_vec(), &b"1".to_vec(), false, vec![]);
    assert_eq!(e, Err(ConfigError::BadFrequency(FrequencyField::Draw)));
    let e = Config::from_parts(&b"1".to_vec(), &b"x".to_vec(), &b"1".to_vec(), false, vec![]);
    assert_eq!(e, Err(ConfigError::BadFrequency(FrequencyField::Cpu)));
    let e = Config::from_parts(&b"1".to_vec(), &b"1".to_vec(), &b"x".to_vec(), false, vec![]);
    assert_eq!(e, Err(ConfigError::BadFrequency(FrequencyField::Timers)));
}

#[test]
fn oversized_programs_are_rejected_at_the_limit() {
    let just_fits = vec![0u8; 3582];
    assert!(Config::from_parts(
        &b"1".to_vec(),
        &b"1".to_vec(),
        &b"1".to_vec(),
        false,
        just_fits
    )
    .is_ok());
    let too_big = vec![0u8; 3583];
    assert_eq!(
        Config::from_parts(&b"1".to_vec(), &b"1".to_vec(), &b"1".to_vec(), false, too_big),
        Err(ConfigError::ProgramTooBig(3583))
    );
}
