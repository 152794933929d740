//! Records for the rendering side's compilation reports.
//!
//! The graphics layer compiles shaders and links programs at run time and
//! reads the driver's info logs; these records carry an object's index and
//! its log text to whatever prints or stores them.

use vstd::prelude::*;

verus! {

/// The information log of one compiled shader.
pub struct ShaderLog {
    pub index: u32,
    pub log: String,
}

impl ShaderLog {
    /// Pack a shader's index and its information log.
    pub fn new(index: u32, log: String) -> (r: ShaderLog)
        ensures
            r.index == index,
            r.log@ == log@,
    {
        ShaderLog { index, log }
    }
}

/// The information log of one linked shader program.
pub struct ProgramLog {
    pub index: u32,
    pub log: String,
}

impl ProgramLog {
    /// Pack a program's index and its information log.
    pub fn new(index: u32, log: String) -> (r: ProgramLog)
        ensures
            r.index == index,
            r.log@ == log@,
    {
        ProgramLog { index, log }
    }
}

} // verus!
