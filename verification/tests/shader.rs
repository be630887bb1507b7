use gloom::shader::info_log_text;
use gloom::shader::BuildError;
use gloom::shader::CompiledStage;
use gloom::shader::LinkStatus;
use gloom::shader::LinkedProgram;
use gloom::shader::Shader;
use gloom::shader::ShaderBuilder;
use gloom::shader::ShaderType;

fn compiled_ok(shader_id: u32) -> CompiledStage {
    CompiledStage { shader_id, status: 1, info_log: String::new() }
}

fn compiled_bad(shader_id: u32, log: &str) -> CompiledStage {
    CompiledStage { shader_id, status: 0, info_log: log.to_string() }
}

#[test]
fn extension_names_the_stage_kind() {
    assert_eq!(ShaderType::from_ext("vert"), Ok(ShaderType::Vertex));
    assert_eq!(ShaderType::from_ext("frag"), Ok(ShaderType::Fragment));
    assert_eq!(ShaderType::from_ext("geom"), Ok(ShaderType::Geometry));
    assert_eq!(ShaderType::from_ext("tcs"), Ok(ShaderType::TessellationControl));
    assert_eq!(ShaderType::from_ext("tes"), Ok(ShaderType::TessellationEvaluation));
}

#[test]
fn unknown_extension_comes_back_as_the_error() {
    assert_eq!(ShaderType::from_ext("txt"), Err("txt".to_string()));
    assert_eq!(ShaderType::from_ext(""), Err(String::new()));
    assert_eq!(ShaderType::from_ext("VERT"), Err("VERT".to_string()));
    assert_eq!(ShaderType::from_ext(".vert"), Err(".vert".to_string()));
    assert_eq!(ShaderType::from_ext("vert "), Err("vert ".to_string()));
    assert_eq!(ShaderType::from_ext("ver"), Err("ver".to_string()));
    assert_eq!(ShaderType::from_ext("verte"), Err("verte".to_string()));
}

#[test]
fn stage_kinds_have_the_tags_of_the_bindings() {
    assert_eq!(u32::from(ShaderType::Vertex), 0x8B31);
    assert_eq!(u32::from(ShaderType::Fragment), 0x8B30);
    assert_eq!(u32::from(ShaderType::TessellationControl), 0x8E88);
    assert_eq!(u32::from(ShaderType::TessellationEvaluation), 0x8E87);
    assert_eq!(u32::from(ShaderType::Geometry), 0x8DD9);
    assert_eq!(u32::from(ShaderType::Vertex), gl::VERTEX_SHADER);
    assert_eq!(u32::from(ShaderType::Fragment), gl::FRAGMENT_SHADER);
    assert_eq!(u32::from(ShaderType::TessellationControl), gl::TESS_CONTROL_SHADER);
    assert_eq!(u32::from(ShaderType::TessellationEvaluation), gl::TESS_EVALUATION_SHADER);
    assert_eq!(u32::from(ShaderType::Geometry), gl::GEOMETRY_SHADER);
}

#[test]
fn into_gives_the_tag() {
    let tag: u32 = ShaderType::Fragment.into();
    assert_eq!(tag, 0x8B30);
}

#[test]
fn stage_kind_for_a_given_extension() {
    assert_eq!(ShaderType::for_extension("a/b.vert", Some("vert")), Ok(ShaderType::Vertex));
    assert_eq!(
        ShaderType::for_extension("a/b.glsl", Some("glsl")),
        Err(BuildError::UnknownExtension { extension: "glsl".to_string() })
    );
    assert_eq!(
        ShaderType::for_extension("a/b", None),
        Err(BuildError::MissingExtension { path: "a/b".to_string() })
    );
}

#[test]
fn stage_kind_for_a_file() {
    assert_eq!(ShaderType::for_file("./shaders/simple.frag"), Ok(ShaderType::Fragment));
    assert_eq!(ShaderType::for_file("./shaders/simple.vert"), Ok(ShaderType::Vertex));
    assert_eq!(ShaderType::for_file("simple.geom"), Ok(ShaderType::Geometry));
    assert_eq!(ShaderType::for_file("a.b/c.d.tcs"), Ok(ShaderType::TessellationControl));
    assert_eq!(ShaderType::for_file("/x/y.tes"), Ok(ShaderType::TessellationEvaluation));
}

#[test]
fn the_extension_is_that_of_the_file_name() {
    assert_eq!(ShaderType::for_file("shaders/simple.vert/"), Ok(ShaderType::Vertex));
    assert_eq!(ShaderType::for_file("..frag"), Ok(ShaderType::Fragment));
    assert_eq!(
        ShaderType::for_file("simple.vert/.."),
        Err(BuildError::MissingExtension { path: "simple.vert/..".to_string() })
    );
}

#[test]
fn file_without_extension() {
    for path in ["shader", "./shaders/simple", "dir.vert/simple", ".vert", "a/.frag", "", ".."] {
        assert_eq!(
            ShaderType::for_file(path),
            Err(BuildError::MissingExtension { path: path.to_string() })
        );
    }
}

#[test]
fn file_with_an_extension_that_names_no_stage() {
    assert_eq!(
        ShaderType::for_file("scene.obj"),
        Err(BuildError::UnknownExtension { extension: "obj".to_string() })
    );
    assert_eq!(
        ShaderType::for_file("simple.vert.bak"),
        Err(BuildError::UnknownExtension { extension: "bak".to_string() })
    );
    assert_eq!(
        ShaderType::for_file("simple."),
        Err(BuildError::UnknownExtension { extension: String::new() })
    );
    assert_eq!(
        ShaderType::for_file("simple.Vert"),
        Err(BuildError::UnknownExtension { extension: "Vert".to_string() })
    );
}

#[test]
fn new_builder_has_no_stage() {
    let builder = ShaderBuilder::new(9);
    assert_eq!(builder.program_id(), 9);
    assert_eq!(builder.shaders(), &Vec::<u32>::new());
}

#[test]
fn status_one_is_success_and_nothing_else() {
    for status in [0, -1, 2, i32::MIN, i32::MAX, i32::from(gl::FALSE)] {
        let stage = CompiledStage { shader_id: 1, status, info_log: String::new() };
        assert!(!ShaderBuilder::check_shader_errors(&stage));
        let link = LinkStatus { status, info_log: String::new() };
        assert!(!ShaderBuilder::check_linker_errors(&link));
    }
    for status in [1, i32::from(gl::TRUE)] {
        let stage = CompiledStage { shader_id: 1, status, info_log: String::new() };
        assert!(ShaderBuilder::check_shader_errors(&stage));
        let link = LinkStatus { status, info_log: String::new() };
        assert!(ShaderBuilder::check_linker_errors(&link));
    }
}

#[test]
fn info_log_is_what_the_driver_wrote() {
    let buffer = b"error: x\0\0\0\0";
    assert_eq!(info_log_text(buffer, 8), "error: x");
    assert_eq!(info_log_text(buffer, 5), "error");
    assert_eq!(info_log_text(buffer, 1), "e");
}

#[test]
fn info_log_of_nothing_written() {
    assert_eq!(info_log_text(b"stale bytes", 0), "");
    assert_eq!(info_log_text(b"stale bytes", -1), "");
    assert_eq!(info_log_text(b"stale bytes", i32::MIN), "");
    assert_eq!(info_log_text(b"", 0), "");
    assert_eq!(info_log_text(b"", 4), "");
}

#[test]
fn info_log_never_reads_beyond_the_buffer() {
    assert_eq!(info_log_text(b"abc", 3), "abc");
    assert_eq!(info_log_text(b"abc", 4), "abc");
    assert_eq!(info_log_text(b"abc", i32::MAX), "abc");
}

#[test]
fn info_log_that_is_not_utf8() {
    assert_eq!(info_log_text(&[b'a', 0xFF, b'b'], 3), "a\u{FFFD}b");
    assert_eq!(info_log_text("é".as_bytes(), 2), "é");
    assert_eq!(info_log_text("é".as_bytes(), 1), "\u{FFFD}");
}

#[test]
fn compiled_stages_are_collected_in_order() {
    let builder = ShaderBuilder::new(1)
        .compile_shader(compiled_ok(11))
        .unwrap()
        .compile_shader(compiled_ok(10))
        .unwrap()
        .compile_shader(compiled_ok(12))
        .unwrap();
    assert_eq!(builder.program_id(), 1);
    assert_eq!(builder.shaders(), &vec![11, 10, 12]);
}

#[test]
fn stage_that_does_not_compile_ends_the_build() {
    let builder = ShaderBuilder::new(1).compile_shader(compiled_ok(11)).unwrap();
    let answer = builder.compile_shader(compiled_bad(12, "0:3(1): error: syntax error"));
    assert_eq!(
        answer.unwrap_err(),
        BuildError::CompileFailed { info_log: "0:3(1): error: syntax error".to_string() }
    );
}

#[test]
fn log_of_a_stage_that_compiled_is_ignored() {
    let stage = CompiledStage { shader_id: 4, status: 1, info_log: "warning: unused".to_string() };
    let builder = ShaderBuilder::new(2).compile_shader(stage).unwrap();
    assert_eq!(builder.shaders(), &vec![4]);
}

#[test]
fn attach_file_takes_in_a_compiled_stage() {
    let builder = ShaderBuilder::new(5)
        .attach_file("./shaders/simple.frag", Some(compiled_ok(21)))
        .unwrap()
        .attach_file("./shaders/simple.vert", Some(compiled_ok(22)))
        .unwrap();
    assert_eq!(builder.program_id(), 5);
    assert_eq!(builder.shaders(), &vec![21, 22]);
}

#[test]
fn attach_file_without_extension() {
    let answer = ShaderBuilder::new(5).attach_file("./shaders/simple", Some(compiled_ok(21)));
    assert_eq!(
        answer.unwrap_err(),
        BuildError::MissingExtension { path: "./shaders/simple".to_string() }
    );
}

#[test]
fn attach_file_with_unknown_extension() {
    let answer = ShaderBuilder::new(5).attach_file("./shaders/simple.glsl", Some(compiled_ok(21)));
    assert_eq!(
        answer.unwrap_err(),
        BuildError::UnknownExtension { extension: "glsl".to_string() }
    );
}

#[test]
fn attach_file_that_could_not_be_read() {
    let answer = ShaderBuilder::new(5).attach_file("./shaders/missing.vert", None);
    assert_eq!(
        answer.unwrap_err(),
        BuildError::UnreadableSource { path: "./shaders/missing.vert".to_string() }
    );
}

#[test]
fn attach_file_that_does_not_compile() {
    let answer =
        ShaderBuilder::new(5).attach_file("bad.frag", Some(compiled_bad(3, "error: bad")));
    assert_eq!(answer.unwrap_err(), BuildError::CompileFailed { info_log: "error: bad".to_string() });
}

#[test]
fn the_path_is_judged_before_the_file_and_the_driver() {
    let answer = ShaderBuilder::new(5).attach_file("noext", None);
    assert_eq!(answer.unwrap_err(), BuildError::MissingExtension { path: "noext".to_string() });
    let answer = ShaderBuilder::new(5).attach_file("x.png", Some(compiled_bad(3, "error")));
    assert_eq!(answer.unwrap_err(), BuildError::UnknownExtension { extension: "png".to_string() });
}

#[test]
fn attach_stage_goes_by_the_extension_it_is_given() {
    let builder = ShaderBuilder::new(5)
        .attach_stage("anything", Some("geom"), Some(compiled_ok(8)))
        .unwrap();
    assert_eq!(builder.shaders(), &vec![8]);
    let answer = ShaderBuilder::new(5).attach_stage("a.vert", None, Some(compiled_ok(8)));
    assert_eq!(answer.unwrap_err(), BuildError::MissingExtension { path: "a.vert".to_string() });
    let answer = ShaderBuilder::new(5).attach_stage("a.vert", Some("vert"), None);
    assert_eq!(answer.unwrap_err(), BuildError::UnreadableSource { path: "a.vert".to_string() });
}

#[test]
fn link_hands_out_the_program_and_the_spent_stages() {
    let builder = ShaderBuilder::new(5)
        .compile_shader(compiled_ok(21))
        .unwrap()
        .compile_shader(compiled_ok(22))
        .unwrap();
    let done = builder.link(LinkStatus { status: 1, info_log: String::new() }).unwrap();
    assert_eq!(
        done,
        LinkedProgram { program: Shader { program_id: 5 }, spent_stages: vec![21, 22] }
    );
}

#[test]
fn link_of_an_empty_builder() {
    let done = ShaderBuilder::new(6).link(LinkStatus { status: 1, info_log: String::new() }).unwrap();
    assert_eq!(done.program.program_id, 6);
    assert_eq!(done.spent_stages, Vec::<u32>::new());
}

#[test]
fn program_that_does_not_link_ends_the_build_with_a_diagnostic() {
    let builder = ShaderBuilder::new(5)
        .compile_shader(compiled_ok(21))
        .unwrap()
        .compile_shader(compiled_ok(22))
        .unwrap();
    let log = "error: fragment shader input `colour` has no matching output";
    let error = builder.link(LinkStatus { status: 0, info_log: log.to_string() }).unwrap_err();
    assert_eq!(error, BuildError::LinkFailed { info_log: log.to_string() });
    assert_eq!(
        error.message(),
        "ERROR::SHADER::PROGRAM::COMPILATION_FAILED\nerror: fragment shader input `colour` has no matching output"
    );
}

#[test]
fn link_failure_is_reported_even_if_the_driver_says_nothing() {
    let error = ShaderBuilder::new(5).link(LinkStatus { status: 0, info_log: String::new() }).unwrap_err();
    assert_eq!(error.message(), "ERROR::SHADER::PROGRAM::COMPILATION_FAILED\n");
    assert!(!error.message().is_empty());
}

#[test]
fn messages() {
    assert_eq!(
        BuildError::MissingExtension { path: "a/b".to_string() }.message(),
        "Failed to read extension of file with path: a/b"
    );
    assert_eq!(
        BuildError::UnknownExtension { extension: "obj".to_string() }.message(),
        "Failed to parse file extension. obj"
    );
    assert_eq!(
        BuildError::UnreadableSource { path: "a/b.vert".to_string() }.message(),
        "Failed to read shader source. a/b.vert"
    );
    assert_eq!(
        BuildError::CompileFailed { info_log: "0:1: error\n".to_string() }.message(),
        "ERROR::Shader Compilation Failed!\n0:1: error\n"
    );
    assert_eq!(
        BuildError::LinkFailed { info_log: "mismatch".to_string() }.message(),
        "ERROR::SHADER::PROGRAM::COMPILATION_FAILED\nmismatch"
    );
}

#[test]
fn message_keeps_text_that_is_not_ascii() {
    assert_eq!(
        BuildError::CompileFailed { info_log: "erreur: caractère « é »".to_string() }.message(),
        "ERROR::Shader Compilation Failed!\nerreur: caractère « é »"
    );
}

fn build(program_id: u32, stages: Vec<CompiledStage>, link: LinkStatus) -> Result<LinkedProgram, BuildError> {
    let mut builder = ShaderBuilder::new(program_id);
    for stage in stages {
        builder = builder.compile_shader(stage)?;
    }
    builder.link(link)
}

#[test]
fn whole_build_of_stages_that_compile_and_link() {
    let done = build(
        3,
        vec![compiled_ok(7), compiled_ok(8), compiled_ok(9)],
        LinkStatus { status: 1, info_log: String::new() },
    );
    assert_eq!(
        done,
        Ok(LinkedProgram { program: Shader { program_id: 3 }, spent_stages: vec![7, 8, 9] })
    );
}

#[test]
fn whole_build_stops_at_the_first_stage_that_fails() {
    let answer = build(
        3,
        vec![compiled_ok(7), compiled_bad(8, "first"), compiled_ok(9), compiled_bad(10, "second")],
        LinkStatus { status: 1, info_log: String::new() },
    );
    assert_eq!(answer, Err(BuildError::CompileFailed { info_log: "first".to_string() }));
}

#[test]
fn whole_build_with_a_failed_stage_fails_whatever_the_link_says() {
    for status in [0, 1] {
        let answer = build(
            3,
            vec![compiled_bad(8, "syntax error")],
            LinkStatus { status, info_log: "link log".to_string() },
        );
        assert_eq!(answer, Err(BuildError::CompileFailed { info_log: "syntax error".to_string() }));
    }
}

#[test]
fn whole_build_that_fails_at_the_link() {
    let answer = build(
        3,
        vec![compiled_ok(7), compiled_ok(8)],
        LinkStatus { status: 0, info_log: "mismatch".to_string() },
    );
    assert_eq!(answer, Err(BuildError::LinkFailed { info_log: "mismatch".to_string() }));
}
