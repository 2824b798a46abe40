use modeling::shader::{Shader, ShaderError, ENTRY_POINT, SPIRV_MAGIC};

#[test]
fn stage_files_follow_the_name() {
    let shader = Shader::new("obj vertex shader", "out/shader");
    assert_eq!(shader.label, "obj vertex shader");
    assert_eq!(shader.filename, "out/shader");
    assert_eq!(shader.vertex_file, "out/shader.vert.spv");
    assert_eq!(shader.fragment_file, "out/shader.frag.spv");
}

#[test]
fn empty_name_gives_bare_endings() {
    let shader = Shader::new("", "");
    assert_eq!(shader.vertex_file, ".vert.spv");
    assert_eq!(shader.fragment_file, ".frag.spv");
}

#[test]
fn entry_point_is_main() {
    assert_eq!(ENTRY_POINT, "main");
    assert_eq!(SPIRV_MAGIC, 0x0723_0203);
}

#[test]
fn accepts_a_module_that_starts_with_the_magic_number() {
    let bytes = [0x03, 0x02, 0x23, 0x07, 0, 0, 1, 0];
    assert_eq!(Shader::compile_shader(&bytes), Ok(()));
    assert_eq!(Shader::compile_shader(&bytes[..4]), Ok(()));
}

#[test]
fn refuses_a_length_that_is_no_multiple_of_four() {
    let bytes = [0x03, 0x02, 0x23, 0x07, 0];
    assert_eq!(Shader::compile_shader(&bytes), Err(ShaderError::Length));
    assert_eq!(Shader::compile_shader(&bytes[..3]), Err(ShaderError::Length));
}

#[test]
fn refuses_a_wrong_first_word() {
    assert_eq!(Shader::compile_shader(&[]), Err(ShaderError::Magic));
    assert_eq!(Shader::compile_shader(&[0x07, 0x23, 0x02, 0x03]), Err(ShaderError::Magic));
    assert_eq!(Shader::compile_shader(&[0x03, 0x02, 0x23, 0x08]), Err(ShaderError::Magic));
}
