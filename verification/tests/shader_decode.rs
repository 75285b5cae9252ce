use ash_sandbox::shader::{parse_spirv, SPIRV_MAGIC};

#[test]
fn little_endian_magic_decodes() {
    let blob: Vec<u8> = vec![0x03, 0x02, 0x23, 0x07];
    let words = parse_spirv(&blob).unwrap();
    assert_eq!(words, vec![SPIRV_MAGIC]);
}

#[test]
fn big_endian_blob_is_byte_swapped() {
    let blob: Vec<u8> = vec![0x07, 0x23, 0x02, 0x03, 0x12, 0x34, 0x56, 0x78];
    let words = parse_spirv(&blob).unwrap();
    assert_eq!(words, vec![SPIRV_MAGIC, 0x12345678]);
}

#[test]
fn payload_words_follow_the_magic() {
    let blob: Vec<u8> = vec![0x03, 0x02, 0x23, 0x07, 0x78, 0x56, 0x34, 0x12];
    let words = parse_spirv(&blob).unwrap();
    assert_eq!(words.len(), blob.len() / 4);
    assert_eq!(words, vec![SPIRV_MAGIC, 0x12345678]);
}

#[test]
fn empty_blob_is_rejected() {
    assert!(parse_spirv(&[]).is_none());
}

#[test]
fn misaligned_blob_is_rejected() {
    let blob: Vec<u8> = vec![0x03, 0x02, 0x23, 0x07, 0xff];
    assert!(parse_spirv(&blob).is_none());
}

#[test]
fn wrong_magic_is_rejected() {
    let blob: Vec<u8> = vec![0xde, 0xad, 0xbe, 0xef];
    assert!(parse_spirv(&blob).is_none());
}
