//! The decisions a shader wrapper makes around its GL calls: turning compile
//! and link status into results, validating uniform and attribute lookups,
//! and fixing the integer arguments of the draw calls.
//!
//! The GL context only reports opaque handles and raw status values; every
//! rule about them is here, on plain data.

use vstd::prelude::*;

verus! {

/// Turn a shader's reported compile status and info log into the wrapper's
/// result: success exactly when the driver reported success, else the log,
/// or a fixed message when the driver gave none.
pub fn compile_outcome(compiled: bool, log: Option<String>) -> (r: Result<(), String>)
    ensures
        compiled ==> r == Ok::<(), String>(()),
        !compiled && log is Some ==> r == Err::<(), String>(log.unwrap()),
        !compiled && log is None ==> r is Err && r->Err_0@ == "Unknown error creating shader"@,
{
    if compiled {
        Ok(())
    } else {
        match log {
            Some(l) => Err(l),
            None => Err("Unknown error creating shader".to_owned()),
        }
    }
}

/// The same decision for program linking, with its own fallback message.
pub fn link_outcome(linked: bool, log: Option<String>) -> (r: Result<(), String>)
    ensures
        linked ==> r == Ok::<(), String>(()),
        !linked && log is Some ==> r == Err::<(), String>(log.unwrap()),
        !linked && log is None ==> r is Err && r->Err_0@
            == "Unknown error creating program object"@,
{
    if linked {
        Ok(())
    } else {
        match log {
            Some(l) => Err(l),
            None => Err("Unknown error creating program object".to_owned()),
        }
    }
}

/// The resolved locations of the point program's four uniforms and its one
/// vertex attribute.  `L` is whatever handle type the context hands back for
/// a uniform location.
#[derive(Debug)]
pub struct CircleLocations<L> {
    pub mmatrix: L,
    pub point_size: L,
    pub offset: L,
    pub bg: L,
    pub position: u32,
}

/// Validate what the context reported for the point program: every uniform
/// must have been found and the attribute index must be non-negative.
/// A missing uniform is reported before a missing attribute.
pub fn resolve_circle_locations<L>(
    mmatrix: Option<L>,
    point_size: Option<L>,
    offset: Option<L>,
    bg: Option<L>,
    position: i32,
) -> (r: Result<CircleLocations<L>, String>)
    ensures
        ({
            match r {
                Ok(locs) => mmatrix == Some(locs.mmatrix) && point_size == Some(locs.point_size)
                    && offset == Some(locs.offset) && bg == Some(locs.bg) && position >= 0
                    && locs.position == position as u32,
                Err(m) => if mmatrix is None || point_size is None || offset is None
                    || bg is None {
                    m@ == "uniform err"@
                } else {
                    position < 0 && m@ == "attribute err"@
                },
            }
        }),
{
    let mmatrix = match mmatrix {
        Some(l) => l,
        None => {
            return Err("uniform err".to_owned());
        },
    };
    let point_size = match point_size {
        Some(l) => l,
        None => {
            return Err("uniform err".to_owned());
        },
    };
    let offset = match offset {
        Some(l) => l,
        None => {
            return Err("uniform err".to_owned());
        },
    };
    let bg = match bg {
        Some(l) => l,
        None => {
            return Err("uniform err".to_owned());
        },
    };
    if position < 0 {
        return Err("attribute err".to_owned());
    }
    Ok(CircleLocations { mmatrix, point_size, offset, bg, position: position as u32 })
}

/// The resolved locations of the textured program's uniforms and vertex
/// attributes.
#[derive(Debug)]
pub struct ProgramLocations<L> {
    pub grayscale: L,
    pub text: L,
    pub point_size: L,
    pub mmatrix: u32,
    pub position: u32,
    pub normal: u32,
    pub texcoord: u32,
}

/// Validate what the context reported for the textured program: the three
/// uniforms must have been found and the matrix attribute must be
/// non-negative.  The other attribute indices are taken as reported; the
/// context leaves them negative only for attributes the shader does not use.
pub fn resolve_program_locations<L>(
    grayscale: Option<L>,
    text: Option<L>,
    point_size: Option<L>,
    mmatrix: i32,
    position: i32,
    normal: i32,
    texcoord: i32,
) -> (r: Result<ProgramLocations<L>, String>)
    ensures
        ({
            match r {
                Ok(locs) => grayscale == Some(locs.grayscale) && text == Some(locs.text)
                    && point_size == Some(locs.point_size) && mmatrix >= 0 && locs.mmatrix
                    == mmatrix as u32 && (position >= 0 ==> locs.position == position) && (normal
                    >= 0 ==> locs.normal == normal) && (texcoord >= 0 ==> locs.texcoord
                    == texcoord),
                Err(m) => if grayscale is None || text is None || point_size is None {
                    m@ == "uniform err"@
                } else {
                    mmatrix < 0 && m@ == "attribute err"@
                },
            }
        }),
{
    let grayscale = match grayscale {
        Some(l) => l,
        None => {
            return Err("uniform err".to_owned());
        },
    };
    let text = match text {
        Some(l) => l,
        None => {
            return Err("uniform err".to_owned());
        },
    };
    let point_size = match point_size {
        Some(l) => l,
        None => {
            return Err("uniform err".to_owned());
        },
    };
    if mmatrix < 0 {
        return Err("attribute err".to_owned());
    }
    Ok(
        ProgramLocations {
            grayscale,
            text,
            point_size,
            mmatrix: mmatrix as u32,
            position: #[verifier::truncate] (position as u32),
            normal: #[verifier::truncate] (normal as u32),
            texcoord: #[verifier::truncate] (texcoord as u32),
        },
    )
}

/// The vertex count handed to the point program's draw call, or nothing when
/// the buffer is empty and the draw is skipped entirely.
pub fn point_draw_count(num_verticies: usize) -> (r: Option<i32>)
    requires
        num_verticies <= 0x7fff_ffff,
    ensures
        r == (if num_verticies == 0 {
            None::<i32>
        } else {
            Some(num_verticies as i32)
        }),
{
    if num_verticies == 0 {
        None
    } else {
        Some(num_verticies as i32)
    }
}

/// Everything the textured program's draw computes before touching the
/// context: the two integer uniform flags and the two counts of the
/// instanced, indexed draw call.
pub struct InstancedDraw {
    pub grayscale_flag: i32,
    pub text_flag: i32,
    pub index_count: i32,
    pub instance_count: i32,
}

/// The grayscale flag is `1` or `0`; the text flag selects the fragment
/// path: `1` for text, `2` for unlit, `0` for lit; one instance is drawn per
/// matrix.
pub fn instanced_draw(
    grayscale: bool,
    text: bool,
    lighting: bool,
    num_index: usize,
    num_instances: usize,
) -> (r: InstancedDraw)
    requires
        num_index <= 0x7fff_ffff,
        num_instances <= 0x7fff_ffff,
    ensures
        r.grayscale_flag == (if grayscale {
            1int
        } else {
            0int
        }),
        r.text_flag == (if text {
            1int
        } else if !lighting {
            2int
        } else {
            0int
        }),
        r.index_count == num_index,
        r.instance_count == num_instances,
{
    let grayscale_flag: i32 = if grayscale {
        1
    } else {
        0
    };
    let text_flag: i32 = if text {
        1
    } else if !lighting {
        2
    } else {
        0
    };
    InstancedDraw {
        grayscale_flag,
        text_flag,
        index_count: num_index as i32,
        instance_count: num_instances as i32,
    }
}

} // verus!
