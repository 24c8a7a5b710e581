use fsdr_blocks::stream::riff_wav::build_riff_wav_header;

#[test]
fn header_for_sixteen_bit_samples() {
    let header = build_riff_wav_header(16);
    let expected: Vec<u8> = vec![
        b'R', b'I', b'F', b'F', // marks the file as RIFF
        0x24, 0x40, 0x9c, 0x00, // 10240000 + 36
        b'W', b'A', b'V', b'E', //
        b'f', b'm', b't', b' ', //
        16, 0, 0, 0, // length of the format chunk
        1, 0, // PCM
        1, 0, // one channel
        0x80, 0xbb, 0x00, 0x00, // 48000 samples per second
        0x00, 0x77, 0x01, 0x00, // 96000 bytes per second
        2, 0, // bytes per sample frame
        16, 0, // bits per sample
        b'd', b'a', b't', b'a', b' ', //
        0x00, 0x40, 0x9c, 0x00, // 10240000
    ];
    assert_eq!(header, expected);
}

#[test]
fn header_for_eight_bit_samples() {
    let header = build_riff_wav_header(8);
    assert_eq!(header.len(), 45);
    assert_eq!(&header[0..4], b"RIFF");
    assert_eq!(&header[4..8], &(10240000u32 + 36).to_le_bytes());
    assert_eq!(&header[8..16], b"WAVEfmt ");
    assert_eq!(&header[24..28], &48000u32.to_le_bytes());
    assert_eq!(&header[28..32], &48000u32.to_le_bytes());
    assert_eq!(&header[32..34], &1u16.to_le_bytes());
    assert_eq!(&header[34..36], &8u16.to_le_bytes());
    assert_eq!(&header[36..41], b"data ");
    assert_eq!(&header[41..45], &10240000u32.to_le_bytes());
}

#[test]
fn header_keeps_the_low_bits_of_a_wide_sample_size() {
    // 65544 = 0x10008: the field holds sixteen bits, so 8 is written.
    let header = build_riff_wav_header(65544);
    assert_eq!(&header[34..36], &8u16.to_le_bytes());
    assert_eq!(&header[28..32], &(48000u32 * 65544 / 8).to_le_bytes());
    assert_eq!(&header[32..34], &8193u16.to_le_bytes());
}

#[test]
fn header_for_no_bits_at_all() {
    let header = build_riff_wav_header(0);
    assert_eq!(header.len(), 45);
    assert_eq!(&header[28..36], &[0u8; 8]);
}

#[test]
fn header_at_the_largest_sample_size() {
    let header = build_riff_wav_header(89478);
    assert_eq!(&header[28..32], &(48000u32 * 89478 / 8).to_le_bytes());
    assert_eq!(&header[34..36], &(89478u32 as u16).to_le_bytes());
}
