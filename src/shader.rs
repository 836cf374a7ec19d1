//! Shader sources and the decisions taken while building shader programs.
use vstd::prelude::*;
use vstd::string::StringSliceAdditionalSpecFns;

verus! {

/// Where the text of a shader comes from.
#[derive(Clone, Copy, Debug, PartialEq, Eq)]
pub enum ShaderSource<'a> {
    /// A path to a file that holds the source.
    File(&'a str),
    /// The source itself.
    String(&'a str),
}

/// A stage of a shader program.
#[derive(Clone, Copy, Debug, PartialEq, Eq)]
pub enum ShaderStage {
    Vertex,
    Fragment,
    Compute,
}

/// Why a shader program could not be built.
#[derive(Clone, Copy, Debug, PartialEq, Eq)]
pub enum ShaderError {
    /// A pipeline program was asked for with neither a vertex nor a fragment
    /// shader.
    NoShaderInput,
    /// The driver reported no compilation log for a shader.
    CompilationLogUnavailable,
    /// The driver reported no link log for a program.
    LinkLogUnavailable,
}

impl ShaderError {
    /// A description of the error, for people.
    pub fn message(&self) -> (r: &'static str)
        ensures
            r@ == match self {
                ShaderError::NoShaderInput => "No shader input given"@,
                ShaderError::CompilationLogUnavailable => "Can't access shader compilation log"@,
                ShaderError::LinkLogUnavailable => "Can't access program link log"@,
            },
    {
        match self {
            ShaderError::NoShaderInput => "No shader input given",
            ShaderError::CompilationLogUnavailable => "Can't access shader compilation log",
            ShaderError::LinkLogUnavailable => "Can't access program link log",
        }
    }
}

/// The stages that a pipeline program is built from, in the order in which
/// they are compiled and attached.
pub open spec fn spec_pipeline_stages(has_vertex: bool, has_fragment: bool) -> Seq<ShaderStage> {
    (if has_vertex { seq![ShaderStage::Vertex] } else { Seq::empty() }) + (if has_fragment {
        seq![ShaderStage::Fragment]
    } else {
        Seq::empty()
    })
}

/// Chooses the stages of a pipeline program: one for each source given. A
/// program needs at least one of them.
pub fn pipeline_stages(vertex: &Option<ShaderSource>, fragment: &Option<ShaderSource>) -> (r:
    Result<Vec<ShaderStage>, ShaderError>)
    ensures
        vertex.is_none() && fragment.is_none() ==> r == Err::<Vec<ShaderStage>, ShaderError>(
            ShaderError::NoShaderInput,
        ),
        vertex.is_some() || fragment.is_some() ==> r is Ok && r->Ok_0@ == spec_pipeline_stages(
            vertex.is_some(),
            fragment.is_some(),
        ),
{
    if vertex.is_none() && fragment.is_none() {
        return Err(ShaderError::NoShaderInput);
    }
    let mut stages: Vec<ShaderStage> = Vec::new();
    if vertex.is_some() {
        stages.push(ShaderStage::Vertex);
    }
    if fragment.is_some() {
        stages.push(ShaderStage::Fragment);
    }
    assert(stages@ =~= spec_pipeline_stages(vertex.is_some(), fragment.is_some()));
    Ok(stages)
}

/// The size of the buffer for a log whose length the driver reported as
/// `reported`; a length of zero or less means there is no log to read.
pub fn log_capacity(reported: i32, missing: ShaderError) -> (r: Result<usize, ShaderError>)
    ensures
        reported > 0 ==> r == Ok::<usize, ShaderError>(reported as usize),
        reported <= 0 ==> r == Err::<usize, ShaderError>(missing),
{
    if reported <= 0 {
        Err(missing)
    } else {
        Ok(reported as usize)
    }
}

/// The name of a uniform as the driver reads it: its UTF-8 bytes followed by
/// a zero byte. A name that holds a zero byte itself has no such form.
pub fn uniform_name(name: &str) -> (r: Option<Vec<u8>>)
    ensures
        name.spec_bytes().contains(0u8) <==> r is None,
        r matches Some(v) ==> v@ == name.spec_bytes().push(0u8),
{
    let bytes = name.as_bytes();
    let n = bytes.len();
    let mut out: Vec<u8> = Vec::new();
    let mut i: usize = 0;
    while i < n
        invariant
            n == bytes@.len(),
            bytes@ == name.spec_bytes(),
            i <= n,
            out@ == bytes@.subrange(0, i as int),
            !bytes@.subrange(0, i as int).contains(0u8),
        decreases n - i,
    {
        if bytes[i] == 0 {
            assert(bytes@[i as int] == 0u8);
            return None;
        }
        out.push(bytes[i]);
        assert(bytes@.subrange(0, i + 1) =~= bytes@.subrange(0, i as int).push(bytes@[i as int]));
        i = i + 1;
    }
    assert(bytes@.subrange(0, n as int) =~= bytes@);
    out.push(0u8);
    Some(out)
}

} // verus!
