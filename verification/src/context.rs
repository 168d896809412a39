//! Model of the native audio context.
//!
//! The native subsystem is context-bound global state: a table of buffer
//! handles, an error register, a capability set and a current-context
//! lock. This module models that state explicitly, so the buffer
//! operations built on it can be verified: every native primitive
//! requires the lock to be held, records itself in call counters, and
//! reports failures through the error register exactly as the native
//! layer documents.

use vstd::prelude::*;
use crate::data::{
    bits_for, bits_of_format, channels_for, channels_of_format, format_known, is_format_known,
};
use crate::error::{AllenError, AllenResult, NativeErrorKind};
use crate::extension::Extension;

verus! {

// Parameter identifiers of the native property-query primitive. The
// values are the native layer's own.
pub const AL_FREQUENCY: i32 = 0x2001;
pub const AL_BITS: i32 = 0x2002;
pub const AL_CHANNELS: i32 = 0x2003;
pub const AL_SIZE: i32 = 0x2004;
pub const AL_LOOP_POINTS_SOFT: i32 = 0x2015;

// Error register codes.
pub const AL_NO_ERROR: i32 = 0;
pub const AL_INVALID_NAME: i32 = 0xA001;
pub const AL_INVALID_ENUM: i32 = 0xA002;
pub const AL_INVALID_VALUE: i32 = 0xA003;
pub const AL_INVALID_OPERATION: i32 = 0xA004;
pub const AL_OUT_OF_MEMORY: i32 = 0xA005;

/// Per-buffer metadata the native layer keeps for a live handle.
#[derive(Clone, Copy, Debug, PartialEq, Eq, Structural)]
pub struct BufferMeta {
    /// Sample rate of the last upload, in Hz.
    pub frequency: i32,
    /// Byte length of the last upload.
    pub size: i32,
    /// Sample width encoded by the last upload's format.
    pub bits: i32,
    /// Channel count encoded by the last upload's format.
    pub channel_count: i32,
    /// Loop start, in sample frames.
    pub loop_start: i32,
    /// Loop end, in sample frames.
    pub loop_end: i32,
}

/// One entry of the handle table. A freed entry never becomes live
/// again: handles are not reused.
#[derive(Clone, Copy, Debug, PartialEq, Eq, Structural)]
pub enum BufferSlot {
    /// The handle names a live buffer.
    Live(BufferMeta),
    /// The handle was released.
    Freed,
}

/// The metadata a fresh buffer starts with.
pub open spec fn default_meta() -> BufferMeta {
    BufferMeta {
        frequency: 0,
        size: 0,
        bits: 16,
        channel_count: 1,
        loop_start: 0,
        loop_end: 0,
    }
}

/// Mathematical state of a context: what the contracts speak of.
#[verifier::ext_equal]
pub struct CtxView {
    /// Identity of the context; buffers are bound to it.
    pub id: u32,
    /// How many handles this context can hand out in its lifetime.
    pub max_buffers: nat,
    /// Handle table; handle `h` occupies entry `h - 1`.
    pub slots: Seq<BufferSlot>,
    /// The error register: outcome of the most recent native call.
    pub error: i32,
    /// Whether the context is current (the lock is held).
    pub current: bool,
    /// 32-bit-float uploads available.
    pub ext_float32: bool,
    /// 64-bit-float uploads available.
    pub ext_double: bool,
    /// Loop-point access available.
    pub ext_loop_points: bool,
    /// How many native calls were issued under this context.
    pub native_calls: nat,
    /// How many buffer release calls were issued.
    pub destroy_calls: nat,
}

impl CtxView {
    /// Whether `h` names a live buffer.
    pub open spec fn live(self, h: u32) -> bool {
        1 <= h <= self.slots.len() && self.slots[h as int - 1] is Live
    }

    /// Whether `h` named a buffer that was since released.
    pub open spec fn freed(self, h: u32) -> bool {
        1 <= h <= self.slots.len() && self.slots[h as int - 1] is Freed
    }

    /// Metadata of a live handle.
    pub open spec fn meta(self, h: u32) -> BufferMeta {
        self.slots[h as int - 1]->Live_0
    }

    /// Whether the capability set contains `ext`.
    pub open spec fn has_ext(self, ext: Extension) -> bool {
        match ext {
            Extension::Float32 => self.ext_float32,
            Extension::Double => self.ext_double,
            Extension::LoopPoints => self.ext_loop_points,
        }
    }

    /// The handle table is in shape: it fits the handle space and every
    /// live entry carries a channel count from the enumerated set.
    pub open spec fn wf_table(self) -> bool {
        &&& self.max_buffers <= u32::MAX - 1
        &&& self.slots.len() <= self.max_buffers
        &&& forall|i: int|
            0 <= i < self.slots.len() ==> slot_wf(#[trigger] self.slots[i])
    }

    /// Well-formed between operations: table in shape, lock released,
    /// error register drained.
    pub open spec fn wf(self) -> bool {
        &&& self.wf_table()
        &&& !self.current
        &&& self.error == AL_NO_ERROR
    }

    /// Whether another handle can still be allocated.
    pub open spec fn can_alloc(self) -> bool {
        self.slots.len() < self.max_buffers
    }

    /// The same state with one more native call recorded.
    pub open spec fn bump_calls(self) -> CtxView {
        CtxView { native_calls: self.native_calls + 1, ..self }
    }

    /// The same state with the given error register.
    pub open spec fn with_error(self, code: i32) -> CtxView {
        CtxView { error: code, ..self }
    }

    /// Handle allocation: on success the next sequential handle backed
    /// by a fresh live entry with default metadata; on exhaustion the
    /// out-of-memory register and the null handle.
    pub open spec fn gen_tr(self) -> (CtxView, u32) {
        let b = self.bump_calls();
        if self.can_alloc() {
            (
                CtxView { slots: b.slots.push(BufferSlot::Live(default_meta())), ..b },
                (self.slots.len() + 1) as u32,
            )
        } else {
            (b.with_error(AL_OUT_OF_MEMORY), 0)
        }
    }

    /// Handle release: a live entry becomes freed, for good; releasing
    /// anything else only raises the invalid-name register.
    pub open spec fn delete_tr(self, h: u32) -> CtxView {
        let b = self.bump_calls();
        if self.live(h) {
            CtxView {
                slots: b.slots.update(h as int - 1, BufferSlot::Freed),
                destroy_calls: b.destroy_calls + 1,
                ..b
            }
        } else {
            b.with_error(AL_INVALID_NAME)
        }
    }

    /// Data upload: replaces the metadata of a live handle with what the
    /// format code encodes, keeping its loop points; rejects unknown
    /// handles, unknown formats and negative sizes through the register.
    pub open spec fn data_tr(self, h: u32, format: i32, size: i32, frequency: i32) -> CtxView {
        let b = self.bump_calls();
        if !self.live(h) {
            b.with_error(AL_INVALID_NAME)
        } else if !format_known(format) {
            b.with_error(AL_INVALID_ENUM)
        } else if size < 0 {
            b.with_error(AL_INVALID_VALUE)
        } else {
            let m = self.meta(h);
            CtxView {
                slots: b.slots.update(
                    h as int - 1,
                    BufferSlot::Live(
                        BufferMeta {
                            frequency,
                            size,
                            bits: bits_of_format(format),
                            channel_count: channels_of_format(format),
                            ..m
                        },
                    ),
                ),
                ..b
            }
        }
    }

    /// Scalar integer query: the stored value for the four readable
    /// parameters, the invalid-enum register for any other.
    pub open spec fn get_i_tr(self, h: u32, param: i32) -> (CtxView, i32) {
        let b = self.bump_calls();
        if !self.live(h) {
            (b.with_error(AL_INVALID_NAME), 0)
        } else if param == AL_FREQUENCY {
            (b, self.meta(h).frequency)
        } else if param == AL_BITS {
            (b, self.meta(h).bits)
        } else if param == AL_CHANNELS {
            (b, self.meta(h).channel_count)
        } else if param == AL_SIZE {
            (b, self.meta(h).size)
        } else {
            (b.with_error(AL_INVALID_ENUM), 0)
        }
    }

    /// Scalar integer write: no buffer parameter is writable this way,
    /// so a live handle only raises the invalid-enum register.
    pub open spec fn set_i_tr(self, h: u32, param: i32, value: i32) -> CtxView {
        let b = self.bump_calls();
        if !self.live(h) {
            b.with_error(AL_INVALID_NAME)
        } else {
            b.with_error(AL_INVALID_ENUM)
        }
    }

    /// Integer pair query: the loop points of a live handle, the
    /// invalid-enum register for any other parameter.
    pub open spec fn get_iv_tr(self, h: u32, param: i32) -> (CtxView, (i32, i32)) {
        let b = self.bump_calls();
        if !self.live(h) {
            (b.with_error(AL_INVALID_NAME), (0, 0))
        } else if param == AL_LOOP_POINTS_SOFT {
            (b, (self.meta(h).loop_start, self.meta(h).loop_end))
        } else {
            (b.with_error(AL_INVALID_ENUM), (0, 0))
        }
    }

    /// Integer pair write: stores the loop points of a live handle.
    pub open spec fn set_iv_tr(self, h: u32, param: i32, start: i32, end: i32) -> CtxView {
        let b = self.bump_calls();
        if !self.live(h) {
            b.with_error(AL_INVALID_NAME)
        } else if param == AL_LOOP_POINTS_SOFT {
            let m = self.meta(h);
            CtxView {
                slots: b.slots.update(
                    h as int - 1,
                    BufferSlot::Live(BufferMeta { loop_start: start, loop_end: end, ..m }),
                ),
                ..b
            }
        } else {
            b.with_error(AL_INVALID_ENUM)
        }
    }
}

/// A freed table entry stays freed through every native transition:
/// handles are never reused, and only the release of a live handle
/// counts as a destruction, so no handle can be destroyed twice.
pub proof fn lemma_freed_is_permanent(
    ctx: CtxView,
    h: u32,
    h2: u32,
    format: i32,
    size: i32,
    frequency: i32,
    param: i32,
    value: i32,
    start: i32,
    end: i32,
)
    requires
        ctx.freed(h),
    ensures
        ctx.gen_tr().0.freed(h),
        ctx.delete_tr(h2).freed(h),
        ctx.delete_tr(h2).destroy_calls == if ctx.live(h2) {
            ctx.destroy_calls + 1
        } else {
            ctx.destroy_calls
        },
        ctx.data_tr(h2, format, size, frequency).freed(h),
        ctx.get_i_tr(h2, param).0.freed(h),
        ctx.set_i_tr(h2, param, value).freed(h),
        ctx.get_iv_tr(h2, param).0.freed(h),
        ctx.set_iv_tr(h2, param, start, end).freed(h),
{
}

/// A live entry's channel count comes from the enumerated set.
pub open spec fn slot_wf(s: BufferSlot) -> bool {
    s is Live ==> (s->Live_0.channel_count == 1 || s->Live_0.channel_count == 2)
}

/// The native error register code, translated.
pub open spec fn error_kind(code: i32) -> NativeErrorKind {
    if code == AL_INVALID_NAME {
        NativeErrorKind::InvalidName
    } else if code == AL_INVALID_ENUM {
        NativeErrorKind::InvalidEnum
    } else if code == AL_INVALID_VALUE {
        NativeErrorKind::InvalidValue
    } else if code == AL_INVALID_OPERATION {
        NativeErrorKind::InvalidOperation
    } else if code == AL_OUT_OF_MEMORY {
        NativeErrorKind::OutOfMemory
    } else {
        NativeErrorKind::Unknown
    }
}

/// What draining a register holding `code` reports.
pub open spec fn drain_result(code: i32) -> AllenResult<()> {
    if code == AL_NO_ERROR {
        Ok(())
    } else {
        Err(AllenError::Native(error_kind(code)))
    }
}

/// A context of the modelled native subsystem.
///
/// The fields are public so that contracts and tests can read the whole
/// state; every operation of the crate requires and preserves
/// [`CtxView::wf`].
pub struct ContextModel {
    /// Identity of the context.
    pub id: u32,
    /// How many handles this context can hand out in its lifetime.
    pub max_buffers: usize,
    /// Handle table; handle `h` occupies entry `h - 1`.
    pub slots: Vec<BufferSlot>,
    /// The error register.
    pub error: i32,
    /// Whether this context is current (its lock is held).
    pub current: bool,
    /// 32-bit-float uploads available.
    pub ext_float32: bool,
    /// 64-bit-float uploads available.
    pub ext_double: bool,
    /// Loop-point access available.
    pub ext_loop_points: bool,
    /// How many native calls were issued under this context.
    pub native_calls: Ghost<nat>,
    /// How many buffer release calls were issued.
    pub destroy_calls: Ghost<nat>,
}

impl View for ContextModel {
    type V = CtxView;

    open spec fn view(&self) -> CtxView {
        CtxView {
            id: self.id,
            max_buffers: self.max_buffers as nat,
            slots: self.slots@,
            error: self.error,
            current: self.current,
            ext_float32: self.ext_float32,
            ext_double: self.ext_double,
            ext_loop_points: self.ext_loop_points,
            native_calls: self.native_calls@,
            destroy_calls: self.destroy_calls@,
        }
    }
}

impl ContextModel {
    /// A fresh context with the given capability set and no buffers.
    pub fn new(
        id: u32,
        max_buffers: usize,
        ext_float32: bool,
        ext_double: bool,
        ext_loop_points: bool,
    ) -> (c: ContextModel)
        requires
            max_buffers <= u32::MAX - 1,
        ensures
            c@.wf(),
            c@.id == id,
            c@.max_buffers == max_buffers,
            c@.slots.len() == 0,
            c@.ext_float32 == ext_float32,
            c@.ext_double == ext_double,
            c@.ext_loop_points == ext_loop_points,
            c@.native_calls == 0,
            c@.destroy_calls == 0,
    {
        ContextModel {
            id,
            max_buffers,
            slots: Vec::new(),
            error: AL_NO_ERROR,
            current: false,
            ext_float32,
            ext_double,
            ext_loop_points,
            native_calls: Ghost(0),
            destroy_calls: Ghost(0),
        }
    }

    /// Whether the capability set contains `ext`.
    pub fn has_extension(&self, ext: Extension) -> (r: bool)
        ensures
            r == self@.has_ext(ext),
    {
        match ext {
            Extension::Float32 => self.ext_float32,
            Extension::Double => self.ext_double,
            Extension::LoopPoints => self.ext_loop_points,
        }
    }
}

/// Make the context current: acquire the exclusive right to issue native
/// calls under it. Every native primitive below demands it.
pub fn make_current(ctx: &mut ContextModel)
    requires
        !old(ctx)@.current,
    ensures
        final(ctx)@ == (CtxView { current: true, ..old(ctx)@ }),
{
    ctx.current = true;
}

/// Release the current-context lock.
pub fn release_current(ctx: &mut ContextModel)
    requires
        old(ctx)@.current,
    ensures
        final(ctx)@ == (CtxView { current: false, ..old(ctx)@ }),
{
    ctx.current = false;
}

/// Drain the error register and translate it: the typed failure of the
/// most recent native call, or success if the register is clear. Must
/// run under the same lock acquisition as the call it checks.
pub fn check_al_error(ctx: &mut ContextModel) -> (r: AllenResult<()>)
    requires
        old(ctx)@.current,
    ensures
        final(ctx)@ == (CtxView { error: AL_NO_ERROR, ..old(ctx)@ }),
        r == drain_result(old(ctx)@.error),
{
    let code = ctx.error;
    ctx.error = AL_NO_ERROR;
    if code == AL_NO_ERROR {
        Ok(())
    } else if code == AL_INVALID_NAME {
        Err(AllenError::Native(NativeErrorKind::InvalidName))
    } else if code == AL_INVALID_ENUM {
        Err(AllenError::Native(NativeErrorKind::InvalidEnum))
    } else if code == AL_INVALID_VALUE {
        Err(AllenError::Native(NativeErrorKind::InvalidValue))
    } else if code == AL_INVALID_OPERATION {
        Err(AllenError::Native(NativeErrorKind::InvalidOperation))
    } else if code == AL_OUT_OF_MEMORY {
        Err(AllenError::Native(NativeErrorKind::OutOfMemory))
    } else {
        Err(AllenError::Native(NativeErrorKind::Unknown))
    }
}

/// Capability gate: success exactly when the context has `ext`, a
/// missing-extension failure otherwise. Reads the negotiated capability
/// set; no native call, no lock.
pub fn check_al_extension(ctx: &ContextModel, ext: Extension) -> (r: AllenResult<()>)
    ensures
        ctx@.has_ext(ext) ==> r == Ok::<(), AllenError>(()),
        !ctx@.has_ext(ext) ==> r == Err::<(), AllenError>(AllenError::MissingExtension(ext)),
{
    if ctx.has_extension(ext) {
        Ok(())
    } else {
        Err(AllenError::MissingExtension(ext))
    }
}

/// Native handle allocation.
pub fn al_gen_buffer(ctx: &mut ContextModel) -> (h: u32)
    requires
        old(ctx)@.current,
        old(ctx)@.wf_table(),
    ensures
        (final(ctx)@, h) == old(ctx)@.gen_tr(),
        final(ctx)@.wf_table(),
{
    ctx.native_calls = Ghost(ctx.native_calls@ + 1);
    if ctx.slots.len() < ctx.max_buffers {
        assert(ctx.slots.len() + 1 <= u32::MAX);
        let h = (ctx.slots.len() + 1) as u32;
        ctx.slots.push(
            BufferSlot::Live(
                BufferMeta {
                    frequency: 0,
                    size: 0,
                    bits: 16,
                    channel_count: 1,
                    loop_start: 0,
                    loop_end: 0,
                },
            ),
        );
        h
    } else {
        ctx.error = AL_OUT_OF_MEMORY;
        0
    }
}

/// Native handle release.
pub fn al_delete_buffer(ctx: &mut ContextModel, h: u32)
    requires
        old(ctx)@.current,
        old(ctx)@.wf_table(),
    ensures
        final(ctx)@ == old(ctx)@.delete_tr(h),
        final(ctx)@.wf_table(),
{
    ctx.native_calls = Ghost(ctx.native_calls@ + 1);
    let live = h >= 1 && (h as usize) <= ctx.slots.len() && matches!(ctx.slots[(h - 1) as usize], BufferSlot::Live(_));
    if live {
        ctx.slots[(h - 1) as usize] = BufferSlot::Freed;
        ctx.destroy_calls = Ghost(ctx.destroy_calls@ + 1);
    } else {
        ctx.error = AL_INVALID_NAME;
    }
}

/// Native data upload: replaces contents and metadata of a live handle.
pub fn al_buffer_data(ctx: &mut ContextModel, h: u32, format: i32, size: i32, frequency: i32)
    requires
        old(ctx)@.current,
        old(ctx)@.wf_table(),
    ensures
        final(ctx)@ == old(ctx)@.data_tr(h, format, size, frequency),
        final(ctx)@.wf_table(),
{
    ctx.native_calls = Ghost(ctx.native_calls@ + 1);
    let live = h >= 1 && (h as usize) <= ctx.slots.len() && matches!(ctx.slots[(h - 1) as usize], BufferSlot::Live(_));
    if !live {
        ctx.error = AL_INVALID_NAME;
    } else if !is_format_known(format) {
        ctx.error = AL_INVALID_ENUM;
    } else if size < 0 {
        ctx.error = AL_INVALID_VALUE;
    } else {
        let i = (h - 1) as usize;
        let m = match ctx.slots[i] {
            BufferSlot::Live(m) => m,
            BufferSlot::Freed => BufferMeta {
                frequency: 0,
                size: 0,
                bits: 16,
                channel_count: 1,
                loop_start: 0,
                loop_end: 0,
            },
        };
        ctx.slots[i] = BufferSlot::Live(
            BufferMeta {
                frequency,
                size,
                bits: bits_for(format),
                channel_count: channels_for(format),
                loop_start: m.loop_start,
                loop_end: m.loop_end,
            },
        );
    }
}

/// Native scalar integer query.
pub fn al_get_buffer_i(ctx: &mut ContextModel, h: u32, param: i32) -> (r: i32)
    requires
        old(ctx)@.current,
        old(ctx)@.wf_table(),
    ensures
        (final(ctx)@, r) == old(ctx)@.get_i_tr(h, param),
        final(ctx)@.wf_table(),
{
    ctx.native_calls = Ghost(ctx.native_calls@ + 1);
    let live = h >= 1 && (h as usize) <= ctx.slots.len() && matches!(ctx.slots[(h - 1) as usize], BufferSlot::Live(_));
    if !live {
        ctx.error = AL_INVALID_NAME;
        return 0;
    }
    let m = match ctx.slots[(h - 1) as usize] {
        BufferSlot::Live(m) => m,
        BufferSlot::Freed => BufferMeta {
            frequency: 0,
            size: 0,
            bits: 16,
            channel_count: 1,
            loop_start: 0,
            loop_end: 0,
        },
    };
    if param == AL_FREQUENCY {
        m.frequency
    } else if param == AL_BITS {
        m.bits
    } else if param == AL_CHANNELS {
        m.channel_count
    } else if param == AL_SIZE {
        m.size
    } else {
        ctx.error = AL_INVALID_ENUM;
        0
    }
}

/// Native scalar integer write: no buffer parameter accepts it.
pub fn al_buffer_i(ctx: &mut ContextModel, h: u32, param: i32, value: i32)
    requires
        old(ctx)@.current,
        old(ctx)@.wf_table(),
    ensures
        final(ctx)@ == old(ctx)@.set_i_tr(h, param, value),
        final(ctx)@.wf_table(),
{
    ctx.native_calls = Ghost(ctx.native_calls@ + 1);
    let live = h >= 1 && (h as usize) <= ctx.slots.len() && matches!(ctx.slots[(h - 1) as usize], BufferSlot::Live(_));
    if !live {
        ctx.error = AL_INVALID_NAME;
    } else {
        ctx.error = AL_INVALID_ENUM;
    }
}

/// Native integer pair query, serving the loop-points parameter.
pub fn al_get_buffer_iv(ctx: &mut ContextModel, h: u32, param: i32) -> (r: (i32, i32))
    requires
        old(ctx)@.current,
        old(ctx)@.wf_table(),
    ensures
        (final(ctx)@, r) == old(ctx)@.get_iv_tr(h, param),
        final(ctx)@.wf_table(),
{
    ctx.native_calls = Ghost(ctx.native_calls@ + 1);
    let live = h >= 1 && (h as usize) <= ctx.slots.len() && matches!(ctx.slots[(h - 1) as usize], BufferSlot::Live(_));
    if !live {
        ctx.error = AL_INVALID_NAME;
        return (0, 0);
    }
    let m = match ctx.slots[(h - 1) as usize] {
        BufferSlot::Live(m) => m,
        BufferSlot::Freed => BufferMeta {
            frequency: 0,
            size: 0,
            bits: 16,
            channel_count: 1,
            loop_start: 0,
            loop_end: 0,
        },
    };
    if param == AL_LOOP_POINTS_SOFT {
        (m.loop_start, m.loop_end)
    } else {
        ctx.error = AL_INVALID_ENUM;
        (0, 0)
    }
}

/// Native integer pair write, serving the loop-points parameter.
pub fn al_buffer_iv(ctx: &mut ContextModel, h: u32, param: i32, start: i32, end: i32)
    requires
        old(ctx)@.current,
        old(ctx)@.wf_table(),
    ensures
        final(ctx)@ == old(ctx)@.set_iv_tr(h, param, start, end),
        final(ctx)@.wf_table(),
{
    ctx.native_calls = Ghost(ctx.native_calls@ + 1);
    let live = h >= 1 && (h as usize) <= ctx.slots.len() && matches!(ctx.slots[(h - 1) as usize], BufferSlot::Live(_));
    if !live {
        ctx.error = AL_INVALID_NAME;
    } else if param == AL_LOOP_POINTS_SOFT {
        let i = (h - 1) as usize;
        let m = match ctx.slots[i] {
            BufferSlot::Live(m) => m,
            BufferSlot::Freed => BufferMeta {
                frequency: 0,
                size: 0,
                bits: 16,
                channel_count: 1,
                loop_start: 0,
                loop_end: 0,
            },
        };
        ctx.slots[i] = BufferSlot::Live(
            BufferMeta {
                frequency: m.frequency,
                size: m.size,
                bits: m.bits,
                channel_count: m.channel_count,
                loop_start: start,
                loop_end: end,
            },
        );
    } else {
        ctx.error = AL_INVALID_ENUM;
    }
}

} // verus!
