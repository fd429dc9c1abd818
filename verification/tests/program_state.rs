use opengl::compile::CompileEvent;
use opengl::context::GraphicsContext;
use opengl::shader::SourceError;
use opengl::shader_program::ShaderProgram;
use opengl::uniforms::UNIFORM_NOT_FOUND;
use opengl::uniforms::UniformStore;

const VERTEX_SRC: &str = "#version 330 core\nlayout (location = 0) in vec3 pos;\nvoid main() { gl_Position = vec4(pos, 1.0); }\n";
const FRAGMENT_SRC: &str = "#version 330 core\nout vec4 color;\nvoid main() { color = vec4(1.0, 0.0, 0.0, 1.0); }\n";

fn compiled_program(id: u32) -> ShaderProgram {
    let mut program = ShaderProgram::from_source(VERTEX_SRC, FRAGMENT_SRC, id);
    let (mut session, _) = program.begin_compile().ok().unwrap();
    session.step(CompileEvent::StageOk(100 + id));
    session.step(CompileEvent::StageOk(200 + id));
    session.step(CompileEvent::LinkOk);
    program.finish_compile(&session);
    program
}

#[test]
fn red_triangle_pipeline_leaves_program_current() {
    let program = compiled_program(11);
    let mut context = GraphicsContext::new();
    assert_eq!(context.current_program(), 0);
    program.apply(&mut context);
    assert_eq!(context.current_program(), 11);
}

#[test]
fn two_programs_from_identical_source_supersede_each_other() {
    let first = compiled_program(1);
    let second = compiled_program(2);
    assert_ne!(first.id(), second.id());
    let mut context = GraphicsContext::new();
    first.apply(&mut context);
    assert_eq!(context.current_program(), 1);
    second.apply(&mut context);
    assert_eq!(context.current_program(), 2);
    assert_ne!(context.current_program(), first.id());
}

#[test]
fn absent_uniform_name_is_a_silent_no_op() {
    let program = compiled_program(6);
    let mut uniforms = UniformStore::new();
    program.set_int(&mut uniforms, 3, 42);
    program.set_int(&mut uniforms, UNIFORM_NOT_FOUND, 7);
    assert_eq!(uniforms.get(3), Some(42));
    assert_eq!(uniforms.get(UNIFORM_NOT_FOUND), None);
    assert_eq!(uniforms.get(5), None);
}

#[test]
fn uniform_writes_keep_other_locations() {
    let program = compiled_program(6);
    let mut uniforms = UniformStore::new();
    program.set_int(&mut uniforms, 0, 10);
    program.set_int(&mut uniforms, 1, 20);
    program.set_int(&mut uniforms, 0, 30);
    assert_eq!(uniforms.get(0), Some(30));
    assert_eq!(uniforms.get(1), Some(20));
}

#[test]
fn bool_uniforms_are_stored_as_one_or_zero() {
    let program = compiled_program(6);
    let mut uniforms = UniformStore::new();
    program.set_bool(&mut uniforms, 2, true);
    assert_eq!(uniforms.get(2), Some(1));
    program.set_bool(&mut uniforms, 2, false);
    assert_eq!(uniforms.get(2), Some(0));
}

#[test]
fn path_and_source_construction_agree_on_the_same_text() {
    let from_files = ShaderProgram::from_loaded_sources(
        Some(String::from(VERTEX_SRC)),
        Some(String::from(FRAGMENT_SRC)),
        "shaders/basic.vert",
        "shaders/basic.frag",
        8,
    )
    .ok()
    .unwrap();
    let from_text = ShaderProgram::from_source(VERTEX_SRC, FRAGMENT_SRC, 8);
    assert_eq!(from_files.id(), from_text.id());
    assert_eq!(from_files.vertex_shader_source(), from_text.vertex_shader_source());
    assert_eq!(from_files.fragment_shader_source(), from_text.fragment_shader_source());
    assert_eq!(from_files.is_compiled(), from_text.is_compiled());
}

#[test]
fn missing_vertex_file_reports_its_path() {
    let result = ShaderProgram::from_loaded_sources(
        None,
        Some(String::from(FRAGMENT_SRC)),
        "shaders/missing.vert",
        "shaders/basic.frag",
        8,
    );
    match result {
        Err(SourceError::SourceNotFound(path)) => assert_eq!(path, "shaders/missing.vert"),
        _ => panic!("an unreadable vertex file must report its path"),
    }
}

#[test]
fn missing_fragment_file_reports_its_path() {
    let result = ShaderProgram::from_loaded_sources(
        Some(String::from(VERTEX_SRC)),
        None,
        "shaders/basic.vert",
        "shaders/missing.frag",
        8,
    );
    match result {
        Err(SourceError::SourceNotFound(path)) => assert_eq!(path, "shaders/missing.frag"),
        _ => panic!("an unreadable fragment file must report its path"),
    }
}
