use fluid_sim::shader::{decode_shader, SPIRV_MAGIC};

#[test]
fn little_endian_module_decodes_to_its_words() {
    let mut bytes = Vec::new();
    for w in [SPIRV_MAGIC, 0x0001_0000, 7, 0xDEAD_BEEF] {
        bytes.extend_from_slice(&w.to_le_bytes());
    }
    assert_eq!(decode_shader(&bytes), Some(vec![SPIRV_MAGIC, 0x0001_0000, 7, 0xDEAD_BEEF]));
}

#[test]
fn big_endian_module_is_swapped_into_words() {
    let mut bytes = Vec::new();
    for w in [SPIRV_MAGIC, 0x0001_0300, 42] {
        bytes.extend_from_slice(&w.to_be_bytes());
    }
    assert_eq!(decode_shader(&bytes), Some(vec![SPIRV_MAGIC, 0x0001_0300, 42]));
}

#[test]
fn magic_number_alone_is_a_module() {
    assert_eq!(decode_shader(&vec![0x03, 0x02, 0x23, 0x07]), Some(vec![SPIRV_MAGIC]));
    assert_eq!(decode_shader(&vec![0x07, 0x23, 0x02, 0x03]), Some(vec![SPIRV_MAGIC]));
}

#[test]
fn length_not_a_multiple_of_four_is_refused() {
    assert_eq!(decode_shader(&vec![0x03, 0x02, 0x23, 0x07, 0x00]), None);
    assert_eq!(decode_shader(&vec![0x03, 0x02, 0x23]), None);
}

#[test]
fn missing_magic_number_is_refused() {
    assert_eq!(decode_shader(&vec![1, 2, 3, 4, 5, 6, 7, 8]), None);
    assert_eq!(decode_shader(&Vec::new()), None);
}
