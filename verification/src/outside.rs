//! What this crate takes on trust: the items of the graphics bindings and of
//! the standard library that it uses without a proof of what they do. Each
//! stands here once, with the contract that the rest of the crate builds on.

use std::path::Path;
use vstd::prelude::*;
use vstd::utf8::decode_utf8;
use vstd::utf8::valid_utf8;

verus! {

/// The constant `gl::VERTEX_SHADER`, which the bindings define as `0x8B31`.
#[verifier::external_body]
pub(crate) fn gl_vertex_shader() -> (tag: u32)
    ensures
        tag == 0x8B31,
{
    gl::VERTEX_SHADER
}

/// The constant `gl::FRAGMENT_SHADER`, which the bindings define as `0x8B30`.
#[verifier::external_body]
pub(crate) fn gl_fragment_shader() -> (tag: u32)
    ensures
        tag == 0x8B30,
{
    gl::FRAGMENT_SHADER
}

/// The constant `gl::TESS_CONTROL_SHADER`, which the bindings define as
/// `0x8E88`.
#[verifier::external_body]
pub(crate) fn gl_tess_control_shader() -> (tag: u32)
    ensures
        tag == 0x8E88,
{
    gl::TESS_CONTROL_SHADER
}

/// The constant `gl::TESS_EVALUATION_SHADER`, which the bindings define as
/// `0x8E87`.
#[verifier::external_body]
pub(crate) fn gl_tess_evaluation_shader() -> (tag: u32)
    ensures
        tag == 0x8E87,
{
    gl::TESS_EVALUATION_SHADER
}

/// The constant `gl::GEOMETRY_SHADER`, which the bindings define as `0x8DD9`.
#[verifier::external_body]
pub(crate) fn gl_geometry_shader() -> (tag: u32)
    ensures
        tag == 0x8DD9,
{
    gl::GEOMETRY_SHADER
}

/// The constant `gl::TRUE`, which the bindings define as `1`: the status that
/// the driver reports for a stage that compiled and for a program that
/// linked.
#[verifier::external_body]
pub(crate) fn gl_true() -> (flag: u8)
    ensures
        flag == 1,
{
    gl::TRUE
}

/// The extension of a path as `std::path::Path::extension` finds it on the
/// platform that the crate is built for: the part of the file name after its
/// last dot, if the path has a file name with a dot that is not its first
/// character.
pub uninterp spec fn path_extension(path: Seq<char>) -> Option<Seq<char>>;

/// `std::path::Path::extension` on `shader_path`, as owned text. The result
/// is the one that `path_extension` names; nothing more is claimed of it.
#[verifier::external_body]
pub(crate) fn extension_of(shader_path: &str) -> (extension: Option<String>)
    ensures
        text_of(extension) == path_extension(shader_path@),
{
    let extension = Path::new(shader_path).extension()?;
    Some(extension.to_string_lossy().into_owned())
}

/// The characters of a text that may be absent.
pub open spec fn text_of(text: Option<String>) -> Option<Seq<char>> {
    match text {
        Some(t) => Some(t@),
        None => None,
    }
}

/// The text that `String::from_utf8_lossy` makes of `bytes`: their characters
/// where they are UTF-8, with a replacement character for each run that is
/// not.
pub uninterp spec fn lossy_text(bytes: Seq<u8>) -> Seq<char>;

/// `String::from_utf8_lossy` on `bytes`, as owned text. The result is the one
/// that `lossy_text` names; of bytes that are UTF-8 it is the characters that
/// they encode, and nothing more is claimed of it.
#[verifier::external_body]
pub(crate) fn text_from_utf8_lossy(bytes: &[u8]) -> (text: String)
    ensures
        text@ == lossy_text(bytes@),
        valid_utf8(bytes@) ==> text@ == decode_utf8(bytes@),
{
    String::from_utf8_lossy(bytes).into_owned()
}

} // verus!
