use shadertui::shader_shell::{
    get_window_display_shader, inject_user_shader, user_injection_marker, validate_user_shader,
    ShaderShellError, ShellType,
};
use shadertui::validation::{validate_shader, validate_user_shader_for_reload};

#[test]
fn test_validate_user_shader_valid() {
    let valid_shader = r#"
            fn compute_color(coords: vec2<f32>) -> vec3<f32> {
                let uv = coords / uniforms.resolution;
                return vec3<f32>(uv.x, uv.y, 0.5);
            }
        "#;
    assert!(validate_user_shader(valid_shader).is_ok());
}

#[test]
fn test_validate_user_shader_missing_function() {
    let invalid_shader = r#"
            fn some_other_function() -> f32 {
                return 1.0;
            }
        "#;
    assert!(matches!(
        validate_user_shader(invalid_shader),
        Err(ShaderShellError::MissingComputeColorFunction)
    ));
}

#[test]
fn test_inject_user_shader_terminal() {
    let user_shader = r#"
            fn compute_color(coords: vec2<f32>) -> vec3<f32> {
                let uv = coords / uniforms.resolution;
                return vec3<f32>(uv.x, uv.y, 0.5);
            }
        "#;

    let result = inject_user_shader(user_shader, ShellType::Terminal);
    assert!(result.is_ok());

    let complete_shader = result.unwrap();
    assert!(complete_shader.contains("@group(0) @binding(0) var<storage, read_write> output"));
    assert!(complete_shader.contains("fn compute_color(coords: vec2<f32>) -> vec3<f32>"));
    assert!(!complete_shader.contains(user_injection_marker()));
}

#[test]
fn test_inject_user_shader_window() {
    let user_shader = r#"
            fn compute_color(coords: vec2<f32>) -> vec3<f32> {
                let uv = coords / uniforms.resolution;
                return vec3<f32>(uv.x, uv.y, 0.5);
            }
        "#;

    let result = inject_user_shader(user_shader, ShellType::Window);
    assert!(result.is_ok());

    let complete_shader = result.unwrap();
    assert!(
        complete_shader.contains("@group(0) @binding(0) var output_texture: texture_storage_2d")
    );
    assert!(complete_shader.contains("fn compute_color(coords: vec2<f32>) -> vec3<f32>"));
    assert!(!complete_shader.contains(user_injection_marker()));
}

#[test]
fn test_inject_replaces_marker_with_user_code() {
    let user_shader = "fn compute_color(coords: vec2<f32>) -> vec3<f32> { return vec3<f32>(0.0); }";
    let complete = inject_user_shader(user_shader, ShellType::Terminal).unwrap();
    assert!(complete.contains(user_shader));
    assert!(!complete.contains(user_injection_marker()));
}

#[test]
fn test_shader_shell_error_messages() {
    assert_eq!(
        ShaderShellError::MissingComputeColorFunction.message(),
        "User shader must contain 'fn compute_color(coords: vec2<f32>) -> vec3<f32>' function"
    );
    assert_eq!(
        ShaderShellError::InjectionMarkerNotFound.message(),
        "Shell template is missing injection marker"
    );
}

#[test]
fn test_validate_shader_accepts_valid_wgsl() {
    let source = "@compute @workgroup_size(1)\nfn main() { }\n";
    assert!(validate_shader(source).is_ok());
}

#[test]
fn test_validate_shader_rejects_bad_wgsl() {
    assert!(validate_shader("this is not wgsl").is_err());
}

#[test]
fn test_validate_user_shader_for_reload_terminal() {
    let user_shader = r#"
fn compute_color(coords: vec2<f32>) -> vec3<f32> {
    let uv = coords / uniforms.resolution;
    return vec3<f32>(uv.x, uv.y, 0.5);
}
"#;
    let r = validate_user_shader_for_reload(user_shader, ShellType::Terminal);
    assert!(r.is_ok(), "terminal shell with valid user shader: {:?}", r);
    let r = validate_user_shader_for_reload(user_shader, ShellType::Window);
    assert!(r.is_ok(), "window shell with valid user shader: {:?}", r);
}

#[test]
fn test_validate_user_shader_for_reload_rejects() {
    assert!(validate_user_shader_for_reload("fn nothing() { }", ShellType::Terminal).is_err());
    let bad_body = "fn compute_color(coords: vec2<f32>) -> vec3<f32> { return 7; }";
    assert!(validate_user_shader_for_reload(bad_body, ShellType::Terminal).is_err());
}

#[test]
fn test_window_display_shader_is_valid_wgsl() {
    assert!(validate_shader(get_window_display_shader()).is_ok());
}
