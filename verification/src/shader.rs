//! Shader programs: precompiled SPIR-V binaries, taken as they are once they
//! look like SPIR-V at all.

use vstd::prelude::*;

verus! {

/// The four bytes that every SPIR-V binary starts with: the magic number
/// 0x07230203, least significant byte first.
pub open spec fn spirv_magic() -> Seq<u8> {
    seq![0x03u8, 0x02u8, 0x23u8, 0x07u8]
}

/// The stage that a shader program runs in.
#[derive(Clone, Copy, Debug, PartialEq, Eq, Structural)]
pub enum Stage {
    Vertex,
    Fragment,
}

/// Why bytes cannot be a SPIR-V binary.
#[derive(Clone, Copy, Debug, PartialEq, Eq, Structural)]
pub enum ShaderFault {
    /// There are no bytes.
    Empty,
    /// The bytes do not form whole 32-bit words.
    Ragged,
    /// The first word is not the magic number.
    Magic,
}

/// A shader program for one stage.
#[derive(Clone, Debug, PartialEq, Eq)]
pub struct Shader {
    pub stage: Stage,
    /// The SPIR-V binary.
    pub code: Vec<u8>,
    /// The name of the function that the stage starts in.
    pub entry_point: String,
}

/// What keeps the bytes from being a SPIR-V binary, if anything.
pub open spec fn spirv_fault(bytes: Seq<u8>) -> Option<ShaderFault> {
    if bytes.len() == 0 {
        Some(ShaderFault::Empty)
    } else if bytes.len() % 4 != 0 {
        Some(ShaderFault::Ragged)
    } else if bytes.subrange(0, 4) != spirv_magic() {
        Some(ShaderFault::Magic)
    } else {
        None
    }
}

/// Decides `spirv_fault`.
pub fn check_spirv(bytes: &[u8]) -> (fault: Option<ShaderFault>)
    ensures
        fault == spirv_fault(bytes@),
{
    if bytes.len() == 0 {
        return Some(ShaderFault::Empty);
    }
    if bytes.len() % 4 != 0 {
        return Some(ShaderFault::Ragged);
    }
    let ghost head = bytes@.subrange(0, 4);
    if bytes[0] != 0x03 || bytes[1] != 0x02 || bytes[2] != 0x23 || bytes[3] != 0x07 {
        proof {
            assert(head[0] == bytes@[0] && head[1] == bytes@[1] && head[2] == bytes@[2] && head[3]
                == bytes@[3]);
        }
        return Some(ShaderFault::Magic);
    }
    assert(head =~= spirv_magic());
    None
}

impl Shader {
    /// The program is a SPIR-V binary that starts in `main`.
    pub open spec fn wf(&self) -> bool {
        &&& spirv_fault(self.code@) is None
        &&& self.entry_point@ == "main"@
    }

    /// The program for a stage, from its binary.  It starts in `main`.
    pub fn new(stage: Stage, code: Vec<u8>) -> (r: Result<Shader, ShaderFault>)
        ensures
            r is Ok <==> spirv_fault(code@) is None,
            r matches Err(e) ==> spirv_fault(code@) == Some(e),
            r matches Ok(shader) ==> shader.wf() && shader.stage == stage && shader.code@ == code@,
    {
        match check_spirv(code.as_slice()) {
            Some(fault) => Err(fault),
            None => Ok(Shader { stage, code, entry_point: "main".to_owned() }),
        }
    }
}

} // verus!
