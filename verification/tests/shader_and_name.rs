use vkboot::name::{str_from_i8, NameError};
use vkboot::shader::{
    pack_shader_words, shader_entry_point, shader_stage_flag, ShaderType, STAGE_FRAGMENT,
    STAGE_VERTEX,
};
use vkboot::BootstrapError;

#[test]
fn device_name_decodes_up_to_first_nul() {
    let buffer: Vec<i8> = b"GeForce\0junk after the terminator"
        .iter()
        .map(|&b| b as i8)
        .collect();
    assert_eq!(str_from_i8(&buffer), Ok(String::from("GeForce")));
}

#[test]
fn device_name_empty_before_terminator() {
    let buffer: [i8; 3] = [0, 65, 66];
    assert_eq!(str_from_i8(&buffer), Ok(String::new()));
}

#[test]
fn device_name_without_terminator_is_an_error() {
    let buffer: Vec<i8> = b"GeForce".iter().map(|&b| b as i8).collect();
    assert_eq!(str_from_i8(&buffer), Err(NameError::NoTerminator));
}

#[test]
fn device_name_with_invalid_utf8_is_an_error() {
    // 0xFF can begin no UTF-8 sequence.
    let buffer: [i8; 3] = [0xFFu8 as i8, 65, 0];
    assert_eq!(str_from_i8(&buffer), Err(NameError::InvalidUtf8));
}

#[test]
fn shader_words_assemble_little_endian() {
    let bytes: [u8; 8] = [0x03, 0x02, 0x23, 0x07, 0x00, 0x00, 0x01, 0x00];
    let words = pack_shader_words(&bytes).unwrap();
    assert_eq!(words, vec![0x0723_0203, 0x0001_0000]);
}

#[test]
fn shader_words_reject_partial_word() {
    let bytes: [u8; 5] = [1, 2, 3, 4, 5];
    assert_eq!(
        pack_shader_words(&bytes),
        Err(BootstrapError::ShaderCodeMisaligned)
    );
}

#[test]
fn shader_words_empty_code_is_empty() {
    let bytes: [u8; 0] = [];
    assert_eq!(pack_shader_words(&bytes), Ok(Vec::new()));
}

#[test]
fn shader_stage_flags_match_the_api() {
    assert_eq!(shader_stage_flag(&ShaderType::Vertex), STAGE_VERTEX);
    assert_eq!(shader_stage_flag(&ShaderType::Fragment), STAGE_FRAGMENT);
    assert_eq!(STAGE_VERTEX, 0x1);
    assert_eq!(STAGE_FRAGMENT, 0x10);
}

#[test]
fn shader_entry_point_is_main() {
    assert_eq!(shader_entry_point(), "main");
}
