use guild_music::dca::{DcaWrapper, MAX_FRAME_LEN};

#[test]
fn new_stream_is_empty() {
    assert_eq!(DcaWrapper::new().raw(), Vec::<u8>::new());
}

#[test]
fn frame_is_length_then_payload() {
    let mut dca = DcaWrapper::new();
    assert!(dca.write_audio_data(&[1, 2, 3]));
    assert_eq!(dca.raw(), vec![3, 0, 1, 2, 3]);
}

#[test]
fn frames_follow_each_other() {
    let mut dca = DcaWrapper::new();
    assert!(dca.write_audio_data(&[9]));
    assert!(dca.write_audio_data(&[]));
    assert!(dca.write_audio_data(&[7, 8]));
    assert_eq!(dca.raw(), vec![1, 0, 9, 0, 0, 2, 0, 7, 8]);
}

#[test]
fn length_is_written_low_byte_first() {
    let mut dca = DcaWrapper::new();
    let payload = vec![5u8; 300];
    assert!(dca.write_audio_data(&payload));
    let raw = dca.raw();
    assert_eq!(raw.len(), 302);
    assert_eq!(&raw[..2], &[44, 1]);
    assert_eq!(&raw[2..], &payload[..]);
}

#[test]
fn longest_payload_fits() {
    let mut dca = DcaWrapper::new();
    let payload = vec![1u8; MAX_FRAME_LEN];
    assert!(dca.write_audio_data(&payload));
    let raw = dca.raw();
    assert_eq!(raw.len(), MAX_FRAME_LEN + 2);
    assert_eq!(&raw[..2], &[255, 127]);
    assert_eq!(i16::from_le_bytes([raw[0], raw[1]]), i16::MAX);
}

#[test]
fn too_long_payload_is_not_written() {
    let mut dca = DcaWrapper::new();
    assert!(dca.write_audio_data(&[4, 4]));
    let payload = vec![1u8; MAX_FRAME_LEN + 1];
    assert!(!dca.write_audio_data(&payload));
    assert_eq!(dca.raw(), vec![2, 0, 4, 4]);
}

#[test]
fn reader_finds_the_payloads_again() {
    let payloads: Vec<Vec<u8>> = vec![vec![1, 2, 3], vec![], vec![0; 700], vec![255]];
    let mut dca = DcaWrapper::new();
    for payload in &payloads {
        assert!(dca.write_audio_data(payload));
    }
    let raw = dca.raw();
    let mut found: Vec<Vec<u8>> = Vec::new();
    let mut at = 0;
    while at + 2 <= raw.len() {
        let len = i16::from_le_bytes([raw[at], raw[at + 1]]) as usize;
        found.push(raw[at + 2..at + 2 + len].to_vec());
        at += 2 + len;
    }
    assert_eq!(at, raw.len());
    assert_eq!(found, payloads);
}
