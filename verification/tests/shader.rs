use first_drawing::shader::{
    compile_failed, compile_failure_message, compile_report, fragment_shader_source, stage_label,
    vertex_shader_source, ShaderStage,
};

#[test]
fn stage_labels_identify_the_stage() {
    assert_eq!(stage_label(ShaderStage::Vertex), "Vertex shader");
    assert_eq!(stage_label(ShaderStage::Fragment), "Fragment shader");
}

#[test]
fn compile_status_one_is_success() {
    assert!(!compile_failed(1));
}

#[test]
fn compile_status_zero_is_failure() {
    assert!(compile_failed(0));
}

#[test]
fn compile_status_is_judged_by_its_low_byte() {
    // 256 has a zero low byte, so it reads as the driver's false.
    assert!(compile_failed(256));
    assert!(!compile_failed(257));
}

#[test]
fn a_failed_stage_gets_a_nonempty_diagnostic_naming_it() {
    let log = "0:1(1): error: syntax error, unexpected NEW_IDENTIFIER";
    let msg = compile_report(ShaderStage::Vertex, 0, log)
        .expect("a failed status must produce a diagnostic");
    assert!(!msg.is_empty());
    assert!(msg.starts_with("Vertex shader"));
    assert_eq!(msg, format!("Vertex shader compilation failed {}", log));

    let msg = compile_report(ShaderStage::Fragment, 0, log)
        .expect("a failed status must produce a diagnostic");
    assert!(!msg.is_empty());
    assert!(msg.starts_with("Fragment shader"));
    assert_eq!(msg, format!("Fragment shader compilation failed {}", log));
}

#[test]
fn a_failed_stage_with_an_empty_log_still_gets_a_diagnostic() {
    let msg = compile_failure_message(ShaderStage::Vertex, "");
    assert!(!msg.is_empty());
    assert!(msg.starts_with("Vertex shader"));
}

#[test]
fn a_successful_stage_gets_no_diagnostic() {
    assert_eq!(compile_report(ShaderStage::Vertex, 1, ""), None);
    assert_eq!(compile_report(ShaderStage::Fragment, 1, ""), None);
}

#[test]
fn the_fixed_sources_declare_glsl_330_core() {
    let vs = vertex_shader_source();
    let fs = fragment_shader_source();
    assert!(!vs.is_empty());
    assert!(!fs.is_empty());
    assert!(vs.starts_with("#version 330 core"));
    assert!(fs.starts_with("#version 330 core"));
    assert!(vs.contains("gl_Position = position;"));
    assert!(fs.contains("color = vec4(1.0, 0.0, 0.0, 1.0);"));
}
