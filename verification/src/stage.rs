//! The kinds of pipeline stage, and how the kind of a stage file is told.

use vstd::prelude::*;
use crate::failure::BuildError;
use crate::failure::BuildFailure;
use crate::outside::extension_of;
use crate::outside::gl_fragment_shader;
use crate::outside::gl_geometry_shader;
use crate::outside::gl_tess_control_shader;
use crate::outside::gl_tess_evaluation_shader;
use crate::outside::gl_vertex_shader;
use crate::outside::path_extension;
use crate::text::same_text;

verus! {

/// The kind of one stage of the graphics pipeline.
#[derive(Clone, Copy, Debug, PartialEq, Eq, Structural)]
pub enum ShaderType {
    Vertex,
    Fragment,
    TessellationControl,
    TessellationEvaluation,
    Geometry,
}

/// The stage kind of the file at `path`, given the extension of that path:
/// a path without extension and an extension that names no kind are
/// failures.
pub open spec fn stage_of(path: Seq<char>, extension: Option<Seq<char>>) -> Result<
    ShaderType,
    BuildFailure,
> {
    match extension {
        None => Err(BuildFailure::MissingExtension { path }),
        Some(ext) => match ShaderType::of_extension(ext) {
            Some(kind) => Ok(kind),
            None => Err(BuildFailure::UnknownExtension { extension: ext }),
        },
    }
}

/// What the answer to a question for a stage kind means to contracts.
pub open spec fn told(answer: Result<ShaderType, BuildError>) -> Result<ShaderType, BuildFailure> {
    match answer {
        Ok(kind) => Ok(kind),
        Err(error) => Err(error@),
    }
}

/// The characters of a string slice that may be absent.
pub open spec fn slice_of(text: Option<&str>) -> Option<Seq<char>> {
    match text {
        Some(t) => Some(t@),
        None => None,
    }
}

impl ShaderType {
    /// The number by which the graphics API knows this stage kind.
    pub open spec fn tag(self) -> u32 {
        match self {
            ShaderType::Vertex => 0x8B31,
            ShaderType::Fragment => 0x8B30,
            ShaderType::TessellationControl => 0x8E88,
            ShaderType::TessellationEvaluation => 0x8E87,
            ShaderType::Geometry => 0x8DD9,
        }
    }

    /// The stage kind that a file extension stands for, if it stands for one.
    pub open spec fn of_extension(extension: Seq<char>) -> Option<ShaderType> {
        if extension == "vert"@ {
            Some(ShaderType::Vertex)
        } else if extension == "frag"@ {
            Some(ShaderType::Fragment)
        } else if extension == "tcs"@ {
            Some(ShaderType::TessellationControl)
        } else if extension == "tes"@ {
            Some(ShaderType::TessellationEvaluation)
        } else if extension == "geom"@ {
            Some(ShaderType::Geometry)
        } else {
            None
        }
    }

    /// The stage kind for a file extension, written without the dot; an
    /// extension that names no stage kind comes back as the error.
    pub fn from_ext(ext: &str) -> (kind: Result<ShaderType, String>)
        ensures
            match kind {
                Ok(k) => Self::of_extension(ext@) == Some(k),
                Err(unknown) => Self::of_extension(ext@) is None && unknown@ == ext@,
            },
    {
        if same_text(ext, "vert") {
            Ok(ShaderType::Vertex)
        } else if same_text(ext, "frag") {
            Ok(ShaderType::Fragment)
        } else if same_text(ext, "tcs") {
            Ok(ShaderType::TessellationControl)
        } else if same_text(ext, "tes") {
            Ok(ShaderType::TessellationEvaluation)
        } else if same_text(ext, "geom") {
            Ok(ShaderType::Geometry)
        } else {
            Err(String::from_str(ext))
        }
    }

    /// The stage kind of the file at `shader_path`, whose extension the
    /// caller has taken from the path.
    pub fn for_extension(shader_path: &str, extension: Option<&str>) -> (kind: Result<
        ShaderType,
        BuildError,
    >)
        ensures
            told(kind) == stage_of(shader_path@, slice_of(extension)),
    {
        match extension {
            None => Err(BuildError::MissingExtension { path: String::from_str(shader_path) }),
            Some(ext) => match ShaderType::from_ext(ext) {
                Ok(kind) => Ok(kind),
                Err(unknown) => Err(BuildError::UnknownExtension { extension: unknown }),
            },
        }
    }

    /// The stage kind of the file at `shader_path`, told by the extension of
    /// the path.
    pub fn for_file(shader_path: &str) -> (kind: Result<ShaderType, BuildError>)
        ensures
            told(kind) == stage_of(shader_path@, path_extension(shader_path@)),
    {
        let extension = extension_of(shader_path);
        match &extension {
            Some(ext) => ShaderType::for_extension(shader_path, Some(ext.as_str())),
            None => ShaderType::for_extension(shader_path, None),
        }
    }
}

impl From<ShaderType> for u32 {
    /// The number by which the graphics API knows the stage kind.
    fn from(kind: ShaderType) -> (tag: u32) {
        match kind {
            ShaderType::Vertex => gl_vertex_shader(),
            ShaderType::Fragment => gl_fragment_shader(),
            ShaderType::TessellationControl => gl_tess_control_shader(),
            ShaderType::TessellationEvaluation => gl_tess_evaluation_shader(),
            ShaderType::Geometry => gl_geometry_shader(),
        }
    }
}

impl vstd::std_specs::convert::FromSpecImpl<ShaderType> for u32 {
    open spec fn obeys_from_spec() -> bool {
        true
    }

    open spec fn from_spec(kind: ShaderType) -> u32 {
        kind.tag()
    }
}

/// The five extensions name five different stage kinds, and no two stage
/// kinds share a tag.
pub proof fn lemma_stage_kinds_apart(first: ShaderType, second: ShaderType)
    ensures
        ShaderType::of_extension("vert"@) == Some(ShaderType::Vertex),
        ShaderType::of_extension("frag"@) == Some(ShaderType::Fragment),
        ShaderType::of_extension("tcs"@) == Some(ShaderType::TessellationControl),
        ShaderType::of_extension("tes"@) == Some(ShaderType::TessellationEvaluation),
        ShaderType::of_extension("geom"@) == Some(ShaderType::Geometry),
        first.tag() == second.tag() ==> first == second,
{
    reveal_strlit("vert");
    reveal_strlit("frag");
    reveal_strlit("tcs");
    reveal_strlit("tes");
    reveal_strlit("geom");
    assert("frag"@[0] != "vert"@[0]);
    assert("tcs"@.len() != "vert"@.len() && "tcs"@.len() != "frag"@.len());
    assert("tes"@.len() != "vert"@.len() && "tes"@.len() != "frag"@.len());
    assert("tes"@[1] != "tcs"@[1]);
    assert("geom"@[0] != "vert"@[0] && "geom"@[0] != "frag"@[0]);
    assert("geom"@.len() != "tcs"@.len() && "geom"@.len() != "tes"@.len());
}

} // verus!
