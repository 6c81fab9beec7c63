//! Shell templates for the two rendering modes: a user shader is spliced
//! into the matching template at a fixed injection marker, after a check
//! that it defines the entry function the shells call.

use vstd::prelude::*;
use crate::text::{
    chars_vec, contains_sub, contains_sub_exec, replace_all, spec_replace_all, string_from_chars,
};

verus! {

/// Which presentation the complete shader is built for.
#[derive(Clone, Copy, Debug)]
pub enum ShellType {
    Terminal,
    Window,
}

/// Why building a complete shader failed.
#[derive(Debug)]
pub enum ShaderShellError {
    MissingComputeColorFunction,
    InjectionMarkerNotFound,
}

impl ShaderShellError {
    /// A human-readable account of the failure.
    pub fn message(&self) -> (r: String)
        ensures
            self is MissingComputeColorFunction ==> r@
                == "User shader must contain 'fn compute_color(coords: vec2<f32>) -> vec3<f32>' function"@,
            self is InjectionMarkerNotFound ==> r@
                == "Shell template is missing injection marker"@,
    {
        match self {
            ShaderShellError::MissingComputeColorFunction => {
                "User shader must contain 'fn compute_color(coords: vec2<f32>) -> vec3<f32>' function".to_owned()
            },
            ShaderShellError::InjectionMarkerNotFound => {
                "Shell template is missing injection marker".to_owned()
            },
        }
    }
}

/// The line the shells leave for the user shader to replace.
pub open spec fn spec_injection_marker() -> Seq<char> {
    "// USER_SHADER_INJECTION_POINT"@
}

/// The marker text as it stands in the shell templates.
pub fn user_injection_marker() -> (r: &'static str)
    ensures
        r@ == spec_injection_marker(),
{
    "// USER_SHADER_INJECTION_POINT"
}

/// The entry-function signature every user shader must define.
pub open spec fn spec_required_signature() -> Seq<char> {
    "fn compute_color(coords: vec2<f32>) -> vec3<f32>"@
}

/// The required signature as text.
pub fn required_signature() -> (r: &'static str)
    ensures
        r@ == spec_required_signature(),
{
    "fn compute_color(coords: vec2<f32>) -> vec3<f32>"
}

/// The template wrapping a user shader for the terminal: the computed
/// colors land in a storage buffer of one vec4 per pixel.
pub open spec fn spec_terminal_shell() -> Seq<char> {
    "struct Uniforms {
    resolution: vec2<f32>,
    cursor: vec2<f32>,
    time: f32,
    frame: u32,
    delta_time: f32,
    _padding: f32,
};

@group(0) @binding(0) var<storage, read_write> output: array<vec4<f32>>;
@group(0) @binding(1) var<uniform> uniforms: Uniforms;

// USER_SHADER_INJECTION_POINT

@compute @workgroup_size(8, 8)
fn main(@builtin(global_invocation_id) gid: vec3<u32>) {
    let dims = vec2<u32>(u32(uniforms.resolution.x), u32(uniforms.resolution.y));
    if (gid.x >= dims.x || gid.y >= dims.y) {
        return;
    }
    let coords = vec2<f32>(f32(gid.x), f32(gid.y));
    let color = compute_color(coords);
    output[gid.y * dims.x + gid.x] = vec4<f32>(color, 1.0);
}
"@
}

/// The terminal shell template as text.
pub fn terminal_shell() -> (r: &'static str)
    ensures
        r@ == spec_terminal_shell(),
{
    "struct Uniforms {
    resolution: vec2<f32>,
    cursor: vec2<f32>,
    time: f32,
    frame: u32,
    delta_time: f32,
    _padding: f32,
};

@group(0) @binding(0) var<storage, read_write> output: array<vec4<f32>>;
@group(0) @binding(1) var<uniform> uniforms: Uniforms;

// USER_SHADER_INJECTION_POINT

@compute @workgroup_size(8, 8)
fn main(@builtin(global_invocation_id) gid: vec3<u32>) {
    let dims = vec2<u32>(u32(uniforms.resolution.x), u32(uniforms.resolution.y));
    if (gid.x >= dims.x || gid.y >= dims.y) {
        return;
    }
    let coords = vec2<f32>(f32(gid.x), f32(gid.y));
    let color = compute_color(coords);
    output[gid.y * dims.x + gid.x] = vec4<f32>(color, 1.0);
}
"
}

/// The template wrapping a user shader for the window: the computed
/// colors land in a storage texture.
pub open spec fn spec_window_shell() -> Seq<char> {
    "struct Uniforms {
    resolution: vec2<f32>,
    cursor: vec2<f32>,
    time: f32,
    frame: u32,
    delta_time: f32,
    _padding: f32,
};

@group(0) @binding(0) var output_texture: texture_storage_2d<rgba8unorm, write>;
@group(0) @binding(1) var<uniform> uniforms: Uniforms;

// USER_SHADER_INJECTION_POINT

@compute @workgroup_size(8, 8)
fn main(@builtin(global_invocation_id) gid: vec3<u32>) {
    let dims = vec2<u32>(u32(uniforms.resolution.x), u32(uniforms.resolution.y));
    if (gid.x >= dims.x || gid.y >= dims.y) {
        return;
    }
    let coords = vec2<f32>(f32(gid.x), f32(gid.y));
    let color = compute_color(coords);
    textureStore(output_texture, vec2<i32>(i32(gid.x), i32(gid.y)), vec4<f32>(color, 1.0));
}
"@
}

/// The window shell template as text.
pub fn window_shell() -> (r: &'static str)
    ensures
        r@ == spec_window_shell(),
{
    "struct Uniforms {
    resolution: vec2<f32>,
    cursor: vec2<f32>,
    time: f32,
    frame: u32,
    delta_time: f32,
    _padding: f32,
};

@group(0) @binding(0) var output_texture: texture_storage_2d<rgba8unorm, write>;
@group(0) @binding(1) var<uniform> uniforms: Uniforms;

// USER_SHADER_INJECTION_POINT

@compute @workgroup_size(8, 8)
fn main(@builtin(global_invocation_id) gid: vec3<u32>) {
    let dims = vec2<u32>(u32(uniforms.resolution.x), u32(uniforms.resolution.y));
    if (gid.x >= dims.x || gid.y >= dims.y) {
        return;
    }
    let coords = vec2<f32>(f32(gid.x), f32(gid.y));
    let color = compute_color(coords);
    textureStore(output_texture, vec2<i32>(i32(gid.x), i32(gid.y)), vec4<f32>(color, 1.0));
}
"
}

/// The shader that draws the window's storage texture to the surface.
pub open spec fn spec_window_display_shader() -> Seq<char> {
    "@group(0) @binding(0) var display_texture: texture_2d<f32>;
@group(0) @binding(1) var display_sampler: sampler;

struct VertexOutput {
    @builtin(position) position: vec4<f32>,
    @location(0) uv: vec2<f32>,
};

@vertex
fn vs_main(@builtin(vertex_index) index: u32) -> VertexOutput {
    var out: VertexOutput;
    let x = f32(i32(index) - 1);
    let y = f32(i32(index & 1u) * 2 - 1);
    out.position = vec4<f32>(x * 3.0, y * 3.0, 0.0, 1.0);
    out.uv = vec2<f32>(x * 1.5 + 0.5, 0.5 - y * 1.5);
    return out;
}

@fragment
fn fs_main(in: VertexOutput) -> @location(0) vec4<f32> {
    return textureSample(display_texture, display_sampler, in.uv);
}
"@
}

/// The window display shader as text.
pub fn get_window_display_shader() -> (r: &'static str)
    ensures
        r@ == spec_window_display_shader(),
{
    "@group(0) @binding(0) var display_texture: texture_2d<f32>;
@group(0) @binding(1) var display_sampler: sampler;

struct VertexOutput {
    @builtin(position) position: vec4<f32>,
    @location(0) uv: vec2<f32>,
};

@vertex
fn vs_main(@builtin(vertex_index) index: u32) -> VertexOutput {
    var out: VertexOutput;
    let x = f32(i32(index) - 1);
    let y = f32(i32(index & 1u) * 2 - 1);
    out.position = vec4<f32>(x * 3.0, y * 3.0, 0.0, 1.0);
    out.uv = vec2<f32>(x * 1.5 + 0.5, 0.5 - y * 1.5);
    return out;
}

@fragment
fn fs_main(in: VertexOutput) -> @location(0) vec4<f32> {
    return textureSample(display_texture, display_sampler, in.uv);
}
"
}

/// The shell template for the given mode.
pub open spec fn spec_shell(ty: ShellType) -> Seq<char> {
    match ty {
        ShellType::Terminal => spec_terminal_shell(),
        ShellType::Window => spec_window_shell(),
    }
}

/// Check that the user shader defines the entry function the shells call:
/// `Ok` exactly when the required signature stands somewhere in the text.
pub fn validate_user_shader(user_shader: &str) -> (r: Result<(), ShaderShellError>)
    ensures
        r is Ok <==> contains_sub(user_shader@, spec_required_signature()),
        r matches Err(e) ==> e is MissingComputeColorFunction,
{
    let user = chars_vec(user_shader);
    let sig = chars_vec(required_signature());
    if contains_sub_exec(&user, &sig) {
        Ok(())
    } else {
        Err(ShaderShellError::MissingComputeColorFunction)
    }
}

/// Splice the user shader into the shell template for the given mode, in
/// place of every stand of the injection marker. Fails when the user
/// shader lacks the required entry function, or when the template lacks
/// the marker.
pub fn inject_user_shader(user_shader: &str, shell_type: ShellType) -> (r: Result<
    String,
    ShaderShellError,
>)
    ensures
        !contains_sub(user_shader@, spec_required_signature()) ==> (r matches Err(e) && e
            is MissingComputeColorFunction),
        contains_sub(user_shader@, spec_required_signature()) && !contains_sub(
            spec_shell(shell_type),
            spec_injection_marker(),
        ) ==> (r matches Err(e) && e is InjectionMarkerNotFound),
        contains_sub(user_shader@, spec_required_signature()) && contains_sub(
            spec_shell(shell_type),
            spec_injection_marker(),
        ) ==> (r matches Ok(s) && s@ == spec_replace_all(
            spec_shell(shell_type),
            spec_injection_marker(),
            user_shader@,
        )),
{
    if let Err(e) = validate_user_shader(user_shader) {
        return Err(e);
    }
    let shell_text = match shell_type {
        ShellType::Terminal => terminal_shell(),
        ShellType::Window => window_shell(),
    };
    let shell = chars_vec(shell_text);
    let marker = chars_vec(user_injection_marker());
    if !contains_sub_exec(&shell, &marker) {
        return Err(ShaderShellError::InjectionMarkerNotFound);
    }
    let user = chars_vec(user_shader);
    proof {
        reveal_strlit("// USER_SHADER_INJECTION_POINT");
    }
    let complete = replace_all(&shell, &marker, &user);
    Ok(string_from_chars(&complete))
}

} // verus!
