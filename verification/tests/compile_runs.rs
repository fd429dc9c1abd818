use opengl::compile::CompileAction;
use opengl::compile::CompileEvent;
use opengl::compile::CompilePhase;
use opengl::compile::StepNext;
use opengl::compile::validate_shader_compilation;
use opengl::compile::validate_shader_program_linkage;
use opengl::shader::CompileError;
use opengl::shader::ShaderStage;
use opengl::shader_program::ShaderProgram;

const VERTEX_SRC: &str = "#version 330 core\nlayout (location = 0) in vec3 pos;\nvoid main() { gl_Position = vec4(pos, 1.0); }\n";
const FRAGMENT_SRC: &str = "#version 330 core\nout vec4 color;\nvoid main() { color = vec4(1.0, 0.0, 0.0, 1.0); }\n";

#[test]
fn successful_run_requests_in_order_and_releases_both_units() {
    let program = ShaderProgram::from_source(VERTEX_SRC, FRAGMENT_SRC, 11);
    let (mut session, first) = program.begin_compile().ok().unwrap();
    match first {
        CompileAction::CompileStage(stage, source) => {
            assert_eq!(stage, ShaderStage::Vertex);
            assert_eq!(source, VERTEX_SRC);
        }
        _ => panic!("expected a vertex-stage compile request"),
    }
    assert_eq!(session.phase(), CompilePhase::VertexPending);

    let step = session.step(CompileEvent::StageOk(7));
    assert!(step.releases.is_empty());
    match step.next {
        StepNext::Request(CompileAction::CompileStage(stage, source)) => {
            assert_eq!(stage, ShaderStage::Fragment);
            assert_eq!(source, FRAGMENT_SRC);
        }
        _ => panic!("expected a fragment-stage compile request"),
    }
    assert_eq!(session.phase(), CompilePhase::FragmentPending(7));

    let step = session.step(CompileEvent::StageOk(8));
    assert!(step.releases.is_empty());
    match step.next {
        StepNext::Request(CompileAction::LinkProgram(program_id, vertex_unit, fragment_unit)) => {
            assert_eq!(program_id, 11);
            assert_eq!(vertex_unit, 7);
            assert_eq!(fragment_unit, 8);
        }
        _ => panic!("expected a link request"),
    }
    assert_eq!(session.phase(), CompilePhase::LinkPending(7, 8));

    let step = session.step(CompileEvent::LinkOk);
    assert_eq!(step.releases, vec![7, 8]);
    assert!(matches!(step.next, StepNext::Success));
    assert_eq!(session.phase(), CompilePhase::Succeeded);

    let mut program = program;
    assert!(!program.is_compiled());
    program.finish_compile(&session);
    assert!(program.is_compiled());
}

#[test]
fn vertex_error_fails_with_vertex_stage_and_releases_nothing() {
    let program = ShaderProgram::from_source("nonsense", FRAGMENT_SRC, 3);
    let (mut session, _) = program.begin_compile().ok().unwrap();
    let step = session.step(CompileEvent::StageError(String::from("0:1: syntax error")));
    assert!(step.releases.is_empty());
    match step.next {
        StepNext::Failure(CompileError::Stage(stage, log)) => {
            assert_eq!(stage, ShaderStage::Vertex);
            assert_eq!(log, "0:1: syntax error");
        }
        _ => panic!("expected a vertex-stage failure"),
    }
    assert_eq!(session.phase(), CompilePhase::Failed);
}

#[test]
fn fragment_error_fails_with_fragment_stage_and_releases_vertex_unit() {
    let program = ShaderProgram::from_source(VERTEX_SRC, "void broken(", 3);
    let (mut session, _) = program.begin_compile().ok().unwrap();
    let step = session.step(CompileEvent::StageOk(21));
    assert!(step.releases.is_empty());
    let step = session.step(CompileEvent::StageError(String::from("0:1: '(' unexpected")));
    assert_eq!(step.releases, vec![21]);
    match step.next {
        StepNext::Failure(CompileError::Stage(stage, log)) => {
            assert_eq!(stage, ShaderStage::Fragment);
            assert_eq!(log, "0:1: '(' unexpected");
        }
        _ => panic!("expected a fragment-stage failure"),
    }
    assert_eq!(session.phase(), CompilePhase::Failed);
}

#[test]
fn link_error_fails_with_link_log_and_releases_both_units() {
    let program = ShaderProgram::from_source(VERTEX_SRC, FRAGMENT_SRC, 5);
    let (mut session, _) = program.begin_compile().ok().unwrap();
    session.step(CompileEvent::StageOk(31));
    session.step(CompileEvent::StageOk(32));
    let step = session.step(CompileEvent::LinkError(String::from("mismatched interface")));
    assert_eq!(step.releases, vec![31, 32]);
    match step.next {
        StepNext::Failure(CompileError::Link(log)) => {
            assert_eq!(log, "mismatched interface");
        }
        _ => panic!("expected a link failure"),
    }
    assert_eq!(session.phase(), CompilePhase::Failed);
}

#[test]
fn second_compile_after_success_is_refused() {
    let mut program = ShaderProgram::from_source(VERTEX_SRC, FRAGMENT_SRC, 9);
    let (mut session, _) = program.begin_compile().ok().unwrap();
    session.step(CompileEvent::StageOk(1));
    session.step(CompileEvent::StageOk(2));
    session.step(CompileEvent::LinkOk);
    program.finish_compile(&session);
    match program.begin_compile() {
        Err(CompileError::AlreadyCompiled) => {}
        _ => panic!("a second compile run must be refused once one succeeded"),
    }
}

#[test]
fn failed_run_leaves_program_compilable_again() {
    let program = ShaderProgram::from_source(VERTEX_SRC, "void broken(", 4);
    let (mut session, _) = program.begin_compile().ok().unwrap();
    session.step(CompileEvent::StageOk(1));
    session.step(CompileEvent::StageError(String::from("bad")));
    assert!(!program.is_compiled());
    assert!(program.begin_compile().is_ok());
}

#[test]
fn status_classification_matches_backend_convention() {
    let event = validate_shader_compilation(0, 17, String::from("stage log"));
    match event {
        CompileEvent::StageError(log) => assert_eq!(log, "stage log"),
        _ => panic!("a zero status must classify as a stage error"),
    }
    let event = validate_shader_compilation(1, 17, String::from("ignored"));
    match event {
        CompileEvent::StageOk(unit) => assert_eq!(unit, 17),
        _ => panic!("a non-zero status must classify as a compiled stage"),
    }
    let event = validate_shader_program_linkage(0, String::from("link log"));
    match event {
        CompileEvent::LinkError(log) => assert_eq!(log, "link log"),
        _ => panic!("a zero status must classify as a link error"),
    }
    let event = validate_shader_program_linkage(1, String::from("ignored"));
    assert!(matches!(event, CompileEvent::LinkOk));
}
