//! Optional native capabilities that gate parts of the buffer API.

use vstd::prelude::*;

verus! {

/// A runtime extension of the native audio layer. An extension is not an
/// error by itself; its absence only fails the operations gated on it.
#[derive(Clone, Copy, Debug, PartialEq, Eq, Structural)]
pub enum Extension {
    /// 32-bit-float sample uploads.
    Float32,
    /// 64-bit-float sample uploads.
    Double,
    /// Reading and writing buffer loop points.
    LoopPoints,
}

impl Extension {
    /// The name under which the native layer advertises this extension.
    pub fn name(&self) -> (r: &'static str)
        ensures
            *self == Extension::Float32 ==> r@ == "AL_EXT_float32"@,
            *self == Extension::Double ==> r@ == "AL_double"@,
            *self == Extension::LoopPoints ==> r@ == "AL_SOFT_loop_points"@,
    {
        match self {
            Extension::Float32 => "AL_EXT_float32",
            Extension::Double => "AL_double",
            Extension::LoopPoints => "AL_SOFT_loop_points",
        }
    }
}

} // verus!
