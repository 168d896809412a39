//! Sample payloads, channel layouts and wire-format resolution.

use vstd::prelude::*;
use crate::extension::Extension;

verus! {

// Wire format codes consumed by the native upload call. Each encodes both
// the sample representation and the channel count. The values are the
// native layer's own.
pub const AL_FORMAT_MONO8: i32 = 0x1100;
pub const AL_FORMAT_MONO16: i32 = 0x1101;
pub const AL_FORMAT_STEREO8: i32 = 0x1102;
pub const AL_FORMAT_STEREO16: i32 = 0x1103;
pub const AL_FORMAT_MONO_FLOAT32: i32 = 0x10010;
pub const AL_FORMAT_STEREO_FLOAT32: i32 = 0x10011;
pub const AL_FORMAT_MONO_DOUBLE_EXT: i32 = 0x10012;
pub const AL_FORMAT_STEREO_DOUBLE_EXT: i32 = 0x10013;

/// Channel layout of a sample payload.
#[derive(Clone, Copy, Debug, PartialEq, Eq, Structural)]
pub enum Channels {
    /// One audio channel.
    Mono,
    /// Two audio channels; one left & one right.
    Stereo,
}

impl Channels {
    /// The native channel-count encoding of this layout, as reported by
    /// the channel-count parameter and used in format resolution.
    pub open spec fn count_spec(self) -> i32 {
        match self {
            Channels::Mono => 1,
            Channels::Stereo => 2,
        }
    }

    /// Encode the layout as the native channel count.
    pub fn count(&self) -> (r: i32)
        ensures
            r == self.count_spec(),
    {
        match self {
            Channels::Mono => 1,
            Channels::Stereo => 2,
        }
    }

    /// Decode a native channel count. Only the driver ever produces this
    /// value, so a code outside the enumerated set is an invariant
    /// violation, reported as `None` rather than trusted.
    pub fn from_count(count: i32) -> (r: Option<Channels>)
        ensures
            r == Self::from_count_spec(count),
    {
        if count == 1 {
            Some(Channels::Mono)
        } else if count == 2 {
            Some(Channels::Stereo)
        } else {
            None
        }
    }

    /// What `from_count` returns: the inverse of `count_spec` on {1, 2}.
    pub open spec fn from_count_spec(count: i32) -> Option<Channels> {
        if count == 1 {
            Some(Channels::Mono)
        } else if count == 2 {
            Some(Channels::Stereo)
        } else {
            None
        }
    }
}

/// A tagged sample payload for [`crate::buffer::Buffer::data`].
///
/// Float samples are carried as their IEEE-754 bit patterns (the core
/// never interprets sample values, only the encoding tag and the element
/// count); the unverified shell converts `f32`/`f64` slices to and from
/// these bit patterns at the boundary.
#[derive(Clone, Debug)]
pub enum BufferData {
    /// 8-bit signed integer samples.
    I8(Vec<i8>),
    /// 16-bit signed integer samples.
    I16(Vec<i16>),
    /// 32-bit float samples, as bit patterns; gated on [`Extension::Float32`].
    F32(Vec<u32>),
    /// 64-bit float samples, as bit patterns; gated on [`Extension::Double`].
    F64(Vec<u64>),
}

impl BufferData {
    /// Total byte length of the payload: element width times element count.
    pub open spec fn byte_len(self) -> int {
        match self {
            BufferData::I8(v) => v@.len() as int,
            BufferData::I16(v) => 2 * v@.len() as int,
            BufferData::F32(v) => 4 * v@.len() as int,
            BufferData::F64(v) => 8 * v@.len() as int,
        }
    }

    /// Byte length handed to the native upload call.
    pub fn size(&self) -> (r: usize)
        requires
            self.byte_len() <= usize::MAX,
        ensures
            r == self.byte_len(),
    {
        match self {
            BufferData::I8(v) => v.len(),
            BufferData::I16(v) => v.len() * 2,
            BufferData::F32(v) => v.len() * 4,
            BufferData::F64(v) => v.len() * 8,
        }
    }

    /// The capability, if any, that this encoding is gated behind.
    pub open spec fn required_extension_spec(self) -> Option<Extension> {
        match self {
            BufferData::I8(_) => None,
            BufferData::I16(_) => None,
            BufferData::F32(_) => Some(Extension::Float32),
            BufferData::F64(_) => Some(Extension::Double),
        }
    }

    /// The capability, if any, that this encoding is gated behind.
    pub fn required_extension(&self) -> (r: Option<Extension>)
        ensures
            r == self.required_extension_spec(),
    {
        match self {
            BufferData::I8(_) => None,
            BufferData::I16(_) => None,
            BufferData::F32(_) => Some(Extension::Float32),
            BufferData::F64(_) => Some(Extension::Double),
        }
    }
}

/// The wire format code for an encoding and channel layout.
///
/// Note the 8-bit-stereo entry: it resolves to the 16-bit stereo code
/// rather than the 8-bit stereo one. The mapping is reproduced as
/// designed; whether it is intentional is an open question upstream.
pub open spec fn format_of(data: BufferData, channels: Channels) -> i32 {
    match data {
        BufferData::I8(_) => match channels {
            Channels::Mono => AL_FORMAT_MONO8,
            Channels::Stereo => AL_FORMAT_STEREO16,
        },
        BufferData::I16(_) => match channels {
            Channels::Mono => AL_FORMAT_MONO16,
            Channels::Stereo => AL_FORMAT_STEREO16,
        },
        BufferData::F32(_) => match channels {
            Channels::Mono => AL_FORMAT_MONO_FLOAT32,
            Channels::Stereo => AL_FORMAT_STEREO_FLOAT32,
        },
        BufferData::F64(_) => match channels {
            Channels::Mono => AL_FORMAT_MONO_DOUBLE_EXT,
            Channels::Stereo => AL_FORMAT_STEREO_DOUBLE_EXT,
        },
    }
}

/// Resolve the wire format code for a payload and channel layout.
pub fn resolve_format(data: &BufferData, channels: Channels) -> (r: i32)
    ensures
        r == format_of(*data, channels),
{
    match data {
        BufferData::I8(_) => match channels {
            Channels::Mono => AL_FORMAT_MONO8,
            Channels::Stereo => AL_FORMAT_STEREO16,
        },
        BufferData::I16(_) => match channels {
            Channels::Mono => AL_FORMAT_MONO16,
            Channels::Stereo => AL_FORMAT_STEREO16,
        },
        BufferData::F32(_) => match channels {
            Channels::Mono => AL_FORMAT_MONO_FLOAT32,
            Channels::Stereo => AL_FORMAT_STEREO_FLOAT32,
        },
        BufferData::F64(_) => match channels {
            Channels::Mono => AL_FORMAT_MONO_DOUBLE_EXT,
            Channels::Stereo => AL_FORMAT_STEREO_DOUBLE_EXT,
        },
    }
}

/// Whether a code is one of the format constants the native layer accepts.
pub open spec fn format_known(format: i32) -> bool {
    ||| format == AL_FORMAT_MONO8
    ||| format == AL_FORMAT_MONO16
    ||| format == AL_FORMAT_STEREO8
    ||| format == AL_FORMAT_STEREO16
    ||| format == AL_FORMAT_MONO_FLOAT32
    ||| format == AL_FORMAT_STEREO_FLOAT32
    ||| format == AL_FORMAT_MONO_DOUBLE_EXT
    ||| format == AL_FORMAT_STEREO_DOUBLE_EXT
}

/// Whether a code is one of the format constants the native layer accepts.
pub fn is_format_known(format: i32) -> (r: bool)
    ensures
        r == format_known(format),
{
    format == AL_FORMAT_MONO8 || format == AL_FORMAT_MONO16
        || format == AL_FORMAT_STEREO8 || format == AL_FORMAT_STEREO16
        || format == AL_FORMAT_MONO_FLOAT32 || format == AL_FORMAT_STEREO_FLOAT32
        || format == AL_FORMAT_MONO_DOUBLE_EXT || format == AL_FORMAT_STEREO_DOUBLE_EXT
}

/// The sample width, in bits, that a known format code encodes.
pub open spec fn bits_of_format(format: i32) -> i32 {
    if format == AL_FORMAT_MONO8 || format == AL_FORMAT_STEREO8 {
        8
    } else if format == AL_FORMAT_MONO16 || format == AL_FORMAT_STEREO16 {
        16
    } else if format == AL_FORMAT_MONO_FLOAT32 || format == AL_FORMAT_STEREO_FLOAT32 {
        32
    } else {
        64
    }
}

/// The sample width, in bits, that a known format code encodes.
pub fn bits_for(format: i32) -> (r: i32)
    ensures
        r == bits_of_format(format),
{
    if format == AL_FORMAT_MONO8 || format == AL_FORMAT_STEREO8 {
        8
    } else if format == AL_FORMAT_MONO16 || format == AL_FORMAT_STEREO16 {
        16
    } else if format == AL_FORMAT_MONO_FLOAT32 || format == AL_FORMAT_STEREO_FLOAT32 {
        32
    } else {
        64
    }
}

/// The channel count that a known format code encodes.
pub open spec fn channels_of_format(format: i32) -> i32 {
    if format == AL_FORMAT_MONO8 || format == AL_FORMAT_MONO16
        || format == AL_FORMAT_MONO_FLOAT32 || format == AL_FORMAT_MONO_DOUBLE_EXT {
        1
    } else {
        2
    }
}

/// The channel count that a known format code encodes.
pub fn channels_for(format: i32) -> (r: i32)
    ensures
        r == channels_of_format(format),
{
    if format == AL_FORMAT_MONO8 || format == AL_FORMAT_MONO16
        || format == AL_FORMAT_MONO_FLOAT32 || format == AL_FORMAT_MONO_DOUBLE_EXT {
        1
    } else {
        2
    }
}

/// Every supported (encoding, channel) pair resolves to the exact format
/// code of the resolution table, the 8-bit-stereo anomaly included, and
/// that code is one the native layer knows.
pub proof fn lemma_format_table(data: BufferData, channels: Channels)
    ensures
        format_known(format_of(data, channels)),
        data is I8 && channels is Mono ==> format_of(data, channels) == AL_FORMAT_MONO8,
        data is I8 && channels is Stereo ==> format_of(data, channels) == AL_FORMAT_STEREO16,
        data is I16 && channels is Mono ==> format_of(data, channels) == AL_FORMAT_MONO16,
        data is I16 && channels is Stereo ==> format_of(data, channels) == AL_FORMAT_STEREO16,
        data is F32 && channels is Mono ==> format_of(data, channels) == AL_FORMAT_MONO_FLOAT32,
        data is F32 && channels is Stereo ==> format_of(data, channels) == AL_FORMAT_STEREO_FLOAT32,
        data is F64 && channels is Mono ==> format_of(data, channels) == AL_FORMAT_MONO_DOUBLE_EXT,
        data is F64 && channels is Stereo ==> format_of(data, channels) == AL_FORMAT_STEREO_DOUBLE_EXT,
{
}

/// Except through the 8-bit-stereo anomaly, format resolution round-trips
/// the channel layout: the resolved code reports the channel count of the
/// layout that was passed in.
pub proof fn lemma_format_preserves_channels(data: BufferData, channels: Channels)
    ensures
        channels_of_format(format_of(data, channels)) == channels.count_spec(),
{
}

} // verus!
