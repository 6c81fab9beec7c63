//! Shader validation without a compute device: the WGSL front end parses
//! and type-checks a source, so a bad edit is caught before it reaches
//! the device.

use vstd::prelude::*;
use crate::shader_shell::{
    inject_user_shader, spec_injection_marker, spec_required_signature, spec_shell, ShellType,
};
use crate::text::{contains_sub, spec_replace_all};

verus! {

/// Whether the WGSL front end accepts a source text. The verdict depends
/// on the text alone.
pub uninterp spec fn wgsl_valid(source: Seq<char>) -> bool;

/// Relies on `naga::front::wgsl::parse_str` and
/// `naga::valid::Validator::validate`: a source is accepted or rejected
/// on its text alone, and the first error is reported as a message.
#[verifier::external_body]
pub fn validate_shader(shader_source: &str) -> (r: Result<(), String>)
    ensures
        r is Ok <==> wgsl_valid(shader_source@),
{
    let module = match naga::front::wgsl::parse_str(shader_source) {
        Ok(m) => m,
        Err(e) => return Err(e.to_string()),
    };
    let mut validator = naga::valid::Validator::new(
        naga::valid::ValidationFlags::all(),
        naga::valid::Capabilities::all(),
    );
    match validator.validate(&module) {
        Ok(_) => Ok(()),
        Err(e) => Err(e.to_string()),
    }
}

/// Validate a user shader for hot reload: splice it into the shell for
/// the given mode and hold the complete shader to the WGSL front end.
/// `Ok` exactly when the splice succeeds and the spliced shader is valid.
pub fn validate_user_shader_for_reload(user_shader_source: &str, shell_type: ShellType) -> (r:
    Result<(), String>)
    ensures
        r is Ok <==> (contains_sub(user_shader_source@, spec_required_signature())
            && contains_sub(spec_shell(shell_type), spec_injection_marker()) && wgsl_valid(
            spec_replace_all(
                spec_shell(shell_type),
                spec_injection_marker(),
                user_shader_source@,
            ),
        )),
{
    let complete_shader = match inject_user_shader(user_shader_source, shell_type) {
        Ok(s) => s,
        Err(e) => {
            return Err(e.message());
        },
    };
    validate_shader(complete_shader.as_str())
}

} // verus!
