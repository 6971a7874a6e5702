use rusty_sandbox::pod::{encode_slice, push_u16, push_u32, Pod};

#[test]
fn u16_words_are_written_low_byte_first() {
    let mut out = Vec::new();
    push_u16(&mut out, 0x1234);
    assert_eq!(out, vec![0x34, 0x12]);
    assert_eq!(out, 0x1234u16.to_le_bytes().to_vec());
}

#[test]
fn u32_words_are_written_low_byte_first() {
    let mut out = vec![9u8];
    push_u32(&mut out, 0xDEAD_BEEF);
    assert_eq!(out, vec![9, 0xEF, 0xBE, 0xAD, 0xDE]);
    for word in [0u32, 1, 255, 256, 65_535, 65_536, 0x00FF_FFFF, 0x0100_0000, u32::MAX] {
        let mut bytes = Vec::new();
        push_u32(&mut bytes, word);
        assert_eq!(bytes, word.to_le_bytes().to_vec());
    }
}

#[test]
fn element_sizes() {
    assert_eq!(<u16 as Pod>::size(), 2);
    assert_eq!(<u32 as Pod>::size(), 4);
}

#[test]
fn a_slice_is_encoded_element_by_element() {
    let bytes = encode_slice(&[1u16, 258, 0xFFFF]);
    assert_eq!(bytes, vec![1, 0, 2, 1, 255, 255]);
    let none: [u32; 0] = [];
    assert_eq!(encode_slice(&none), Vec::<u8>::new());
}

#[test]
fn encoding_agrees_with_the_memory_of_the_host() {
    let words = [0u32, 1, 0x3F80_0000, 0xBDB1_D0D5, u32::MAX];
    let cast: &[u8] = bytemuck::cast_slice(&words);
    if 1u16.to_ne_bytes() == 1u16.to_le_bytes() {
        assert_eq!(encode_slice(&words), cast.to_vec());
    }
    let halves = [0u16, 1, 4, 0xABCD];
    let cast: &[u8] = bytemuck::cast_slice(&halves);
    if 1u16.to_ne_bytes() == 1u16.to_le_bytes() {
        assert_eq!(encode_slice(&halves), cast.to_vec());
    }
}
