//! Buffer of audio data.
//!
//! A buffer owns one native handle, bound to the context that created
//! it. Every operation acquires the context's current-context lock for
//! the duration of the native call and the error check that follows it,
//! as the native primitives demand; the lock is released again on every
//! exit path. To keep the one-live-value-per-handle invariant, a buffer
//! cannot be copied or cloned, only moved, and releasing the handle
//! consumes it.

use vstd::prelude::*;
use crate::context::{
    al_buffer_data, al_buffer_i, al_buffer_iv, al_delete_buffer, al_gen_buffer, al_get_buffer_i,
    al_get_buffer_iv, check_al_error, check_al_extension, make_current, release_current,
    default_meta, BufferMeta, BufferSlot, ContextModel, CtxView,
    AL_BITS, AL_CHANNELS, AL_FREQUENCY, AL_LOOP_POINTS_SOFT, AL_SIZE,
};
use crate::data::{
    bits_of_format, channels_of_format, format_of, lemma_format_preserves_channels,
    lemma_format_table, resolve_format, BufferData, Channels,
};
use crate::error::{AllenError, AllenResult, NativeErrorKind};
use crate::extension::Extension;
use crate::properties::PropertiesContainer;

verus! {

/// Buffer of audio data.
/// NOTE: Buffers are bound to the context that created them.
/// To ensure safety, buffers are not allowed to be cloned. There can only be one instance per-handle.
pub struct Buffer {
    handle: u32,
    context_id: u32,
}

impl Buffer {
    /// The native handle this buffer owns.
    pub closed spec fn handle_id(self) -> u32 {
        self.handle
    }

    /// Identity of the owning context.
    pub closed spec fn owner(self) -> u32 {
        self.context_id
    }

    /// The buffer is usable with `ctx`: bound to it, and its handle is
    /// live in the context's table.
    pub open spec fn valid(self, ctx: CtxView) -> bool {
        self.owner() == ctx.id && ctx.live(self.handle_id())
    }
}

impl PropertiesContainer<i32> for Buffer {
    open spec fn prop_req(&self, ctx: CtxView, param: i32) -> bool {
        ctx.wf() && self.valid(ctx)
    }

    /// One native query under the lock: the stored value for the four
    /// readable parameters, the translated invalid-enum failure for any
    /// other, the register drained either way.
    open spec fn get_tr(&self, ctx: CtxView, param: i32) -> (CtxView, AllenResult<i32>) {
        let after = ctx.bump_calls();
        let m = ctx.meta(self.handle_id());
        if param == AL_FREQUENCY {
            (after, Ok(m.frequency))
        } else if param == AL_BITS {
            (after, Ok(m.bits))
        } else if param == AL_CHANNELS {
            (after, Ok(m.channel_count))
        } else if param == AL_SIZE {
            (after, Ok(m.size))
        } else {
            (after, Err(AllenError::Native(NativeErrorKind::InvalidEnum)))
        }
    }

    /// No buffer parameter is writable as a scalar integer: one native
    /// call that only raises, and then drains, the invalid-enum register.
    open spec fn set_tr(&self, ctx: CtxView, param: i32, value: i32) -> (CtxView, AllenResult<()>) {
        (ctx.bump_calls(), Err(AllenError::Native(NativeErrorKind::InvalidEnum)))
    }

    fn get(&self, ctx: &mut ContextModel, param: i32) -> (r: AllenResult<i32>) {
        make_current(ctx);
        let value = al_get_buffer_i(ctx, self.handle, param);
        let check = check_al_error(ctx);
        release_current(ctx);
        match check {
            Ok(_) => Ok(value),
            Err(e) => Err(e),
        }
    }

    fn set(&self, ctx: &mut ContextModel, param: i32, value: i32) -> (r: AllenResult<()>) {
        make_current(ctx);
        al_buffer_i(ctx, self.handle, param, value);
        let check = check_al_error(ctx);
        release_current(ctx);
        check
    }
}

impl PropertiesContainer<Channels> for Buffer {
    open spec fn prop_req(&self, ctx: CtxView, param: i32) -> bool {
        ctx.wf() && self.valid(ctx)
    }

    /// The integer shape, decoded: a channel count outside the
    /// enumerated set would be an invariant only the driver could
    /// break, and is reported rather than trusted.
    open spec fn get_tr(&self, ctx: CtxView, param: i32) -> (CtxView, AllenResult<Channels>) {
        let (after, raw) = PropertiesContainer::<i32>::get_tr(self, ctx, param);
        (
            after,
            match raw {
                Ok(v) => match Channels::from_count_spec(v) {
                    Some(c) => Ok(c),
                    None => Err(AllenError::InvariantViolation),
                },
                Err(e) => Err(e),
            },
        )
    }

    /// The channel-count parameter does not support writing: the
    /// operation fails up front and touches no native state.
    open spec fn set_tr(&self, ctx: CtxView, param: i32, value: Channels) -> (CtxView, AllenResult<
        (),
    >) {
        (ctx, Err(AllenError::UnsupportedOperation))
    }

    fn get(&self, ctx: &mut ContextModel, param: i32) -> (r: AllenResult<Channels>) {
        let raw = PropertiesContainer::<i32>::get(self, ctx, param);
        match raw {
            Ok(v) => match Channels::from_count(v) {
                Some(c) => Ok(c),
                None => Err(AllenError::InvariantViolation),
            },
            Err(e) => Err(e),
        }
    }

    fn set(&self, ctx: &mut ContextModel, param: i32, value: Channels) -> (r: AllenResult<()>) {
        Err(AllenError::UnsupportedOperation)
    }
}

impl Buffer {
    /// Request one fresh handle from the context, under its lock, and
    /// wrap it: success exactly as long as the context can still
    /// allocate, an allocation failure otherwise.
    pub fn new(ctx: &mut ContextModel) -> (r: AllenResult<Buffer>)
        requires
            old(ctx)@.wf(),
        ensures
            final(ctx)@.wf(),
            final(ctx)@.native_calls == old(ctx)@.native_calls + 1,
            final(ctx)@.destroy_calls == old(ctx)@.destroy_calls,
            old(ctx)@.can_alloc() ==> (r matches Ok(b) && b.owner() == old(ctx)@.id
                && b.handle_id() == old(ctx)@.slots.len() + 1 && b.valid(final(ctx)@)
                && final(ctx)@ == (CtxView {
                slots: old(ctx)@.slots.push(BufferSlot::Live(default_meta())),
                native_calls: old(ctx)@.native_calls + 1,
                ..old(ctx)@
            })),
            !old(ctx)@.can_alloc() ==> (r == Err::<Buffer, AllenError>(AllenError::Allocation)
                && final(ctx)@ == old(ctx)@.bump_calls()),
    {
        make_current(ctx);
        let handle = al_gen_buffer(ctx);
        let check = check_al_error(ctx);
        release_current(ctx);
        match check {
            Ok(_) => Ok(Buffer { handle, context_id: ctx.id }),
            Err(_) => Err(AllenError::Allocation),
        }
    }

    /// The raw native identifier, for binding the buffer to a consumer
    /// such as a playback source.
    pub fn handle(&self) -> (h: u32)
        ensures
            h == self.handle_id(),
    {
        self.handle
    }

    /// The context state after a successful upload: the handle's
    /// metadata now carries the sample rate, the payload's byte length,
    /// and the width and channel count encoded by the resolved format.
    pub open spec fn data_upload_view(
        self,
        ctx: CtxView,
        data: BufferData,
        channels: Channels,
        sample_rate: i32,
    ) -> CtxView {
        let f = format_of(data, channels);
        let m = ctx.meta(self.handle_id());
        CtxView {
            slots: ctx.slots.update(
                self.handle_id() as int - 1,
                BufferSlot::Live(
                    BufferMeta {
                        frequency: sample_rate,
                        size: data.byte_len() as i32,
                        bits: bits_of_format(f),
                        channel_count: channels_of_format(f),
                        ..m
                    },
                ),
            ),
            native_calls: ctx.native_calls + 1,
            ..ctx
        }
    }

    /// Outcome of an upload: a missing-extension failure, touching no
    /// native state, when the payload's gate is absent; otherwise one
    /// native upload with the resolved format.
    pub open spec fn data_outcome(
        self,
        ctx: CtxView,
        data: BufferData,
        channels: Channels,
        sample_rate: i32,
    ) -> (CtxView, AllenResult<()>) {
        match data.required_extension_spec() {
            Some(ext) => if !ctx.has_ext(ext) {
                (ctx, Err(AllenError::MissingExtension(ext)))
            } else {
                (self.data_upload_view(ctx, data, channels, sample_rate), Ok(()))
            },
            None => (self.data_upload_view(ctx, data, channels, sample_rate), Ok(())),
        }
    }

    /// Fills the buffer with data. Replaces the native contents and
    /// metadata; anything uploaded before is discarded.
    pub fn data(
        &self,
        ctx: &mut ContextModel,
        data: &BufferData,
        channels: Channels,
        sample_rate: i32,
    ) -> (r: AllenResult<()>)
        requires
            old(ctx)@.wf(),
            self.valid(old(ctx)@),
            data.byte_len() <= i32::MAX,
        ensures
            final(ctx)@.wf(),
            self.valid(final(ctx)@),
            final(ctx)@ == self.data_outcome(old(ctx)@, *data, channels, sample_rate).0,
            r == self.data_outcome(old(ctx)@, *data, channels, sample_rate).1,
    {
        make_current(ctx);
        match data.required_extension() {
            Some(ext) => {
                match check_al_extension(ctx, ext) {
                    Err(e) => {
                        release_current(ctx);
                        return Err(e);
                    },
                    Ok(_) => {},
                }
            },
            None => {},
        }
        let format = resolve_format(data, channels);
        proof {
            lemma_format_table(*data, channels);
        }
        let size = data.size();
        al_buffer_data(ctx, self.handle, format, size as i32, sample_rate);
        let check = check_al_error(ctx);
        release_current(ctx);
        check
    }

    /// Sample rate of the last upload, in Hz.
    pub fn frequency(&self, ctx: &mut ContextModel) -> (r: AllenResult<i32>)
        requires
            old(ctx)@.wf(),
            self.valid(old(ctx)@),
        ensures
            final(ctx)@ == old(ctx)@.bump_calls(),
            r == Ok::<i32, AllenError>(old(ctx)@.meta(self.handle_id()).frequency),
    {
        PropertiesContainer::<i32>::get(self, ctx, AL_FREQUENCY)
    }

    /// Byte length of the last upload.
    pub fn size(&self, ctx: &mut ContextModel) -> (r: AllenResult<i32>)
        requires
            old(ctx)@.wf(),
            self.valid(old(ctx)@),
        ensures
            final(ctx)@ == old(ctx)@.bump_calls(),
            r == Ok::<i32, AllenError>(old(ctx)@.meta(self.handle_id()).size),
    {
        PropertiesContainer::<i32>::get(self, ctx, AL_SIZE)
    }

    /// Sample width, in bits, of the last upload's format.
    pub fn bits(&self, ctx: &mut ContextModel) -> (r: AllenResult<i32>)
        requires
            old(ctx)@.wf(),
            self.valid(old(ctx)@),
        ensures
            final(ctx)@ == old(ctx)@.bump_calls(),
            r == Ok::<i32, AllenError>(old(ctx)@.meta(self.handle_id()).bits),
    {
        PropertiesContainer::<i32>::get(self, ctx, AL_BITS)
    }

    /// Channel layout of the last upload's format, decoded from the
    /// native channel count.
    pub fn channels(&self, ctx: &mut ContextModel) -> (r: AllenResult<Channels>)
        requires
            old(ctx)@.wf(),
            self.valid(old(ctx)@),
        ensures
            final(ctx)@ == old(ctx)@.bump_calls(),
            r == Ok::<Channels, AllenError>(
                if old(ctx)@.meta(self.handle_id()).channel_count == 1 {
                    Channels::Mono
                } else {
                    Channels::Stereo
                },
            ),
    {
        PropertiesContainer::<Channels>::get(self, ctx, AL_CHANNELS)
    }

    /// Outcome of reading the loop points: gated on the loop-points
    /// capability before any native call; one query under the lock
    /// otherwise.
    pub open spec fn loop_points_outcome(self, ctx: CtxView) -> (CtxView, AllenResult<
        (i32, i32),
    >) {
        if !ctx.has_ext(Extension::LoopPoints) {
            (ctx, Err(AllenError::MissingExtension(Extension::LoopPoints)))
        } else {
            let m = ctx.meta(self.handle_id());
            (ctx.bump_calls(), Ok((m.loop_start, m.loop_end)))
        }
    }

    /// Loop start and end, in sample frames. Requires the loop-points
    /// capability; fails before any native call without it.
    pub fn loop_points(&self, ctx: &mut ContextModel) -> (r: AllenResult<[i32; 2]>)
        requires
            old(ctx)@.wf(),
            self.valid(old(ctx)@),
        ensures
            final(ctx)@.wf(),
            final(ctx)@ == self.loop_points_outcome(old(ctx)@).0,
            (match self.loop_points_outcome(old(ctx)@).1 {
                Ok(p) => r matches Ok(a) && a@.len() == 2 && a@[0] == p.0 && a@[1] == p.1,
                Err(e) => r == Err::<[i32; 2], AllenError>(e),
            }),
    {
        match check_al_extension(ctx, Extension::LoopPoints) {
            Err(e) => Err(e),
            Ok(_) => {
                make_current(ctx);
                let pair = al_get_buffer_iv(ctx, self.handle, AL_LOOP_POINTS_SOFT);
                let check = check_al_error(ctx);
                release_current(ctx);
                match check {
                    Ok(_) => Ok([pair.0, pair.1]),
                    Err(e) => Err(e),
                }
            },
        }
    }

    /// Outcome of writing the loop points: gated on the loop-points
    /// capability before any native call; one write under the lock
    /// otherwise, storing exactly the pair passed in.
    pub open spec fn set_loop_points_outcome(self, ctx: CtxView, start: i32, end: i32) -> (CtxView,
    AllenResult<()>) {
        if !ctx.has_ext(Extension::LoopPoints) {
            (ctx, Err(AllenError::MissingExtension(Extension::LoopPoints)))
        } else {
            let m = ctx.meta(self.handle_id());
            (
                CtxView {
                    slots: ctx.slots.update(
                        self.handle_id() as int - 1,
                        BufferSlot::Live(BufferMeta { loop_start: start, loop_end: end, ..m }),
                    ),
                    native_calls: ctx.native_calls + 1,
                    ..ctx
                },
                Ok(()),
            )
        }
    }

    /// Set the loop start and end, in sample frames. Requires the
    /// loop-points capability; fails before any native call without it.
    pub fn set_loop_points(&self, ctx: &mut ContextModel, value: &[i32; 2]) -> (r: AllenResult<()>)
        requires
            old(ctx)@.wf(),
            self.valid(old(ctx)@),
        ensures
            final(ctx)@.wf(),
            self.valid(final(ctx)@),
            final(ctx)@ == self.set_loop_points_outcome(old(ctx)@, value@[0], value@[1]).0,
            r == self.set_loop_points_outcome(old(ctx)@, value@[0], value@[1]).1,
    {
        match check_al_extension(ctx, Extension::LoopPoints) {
            Err(e) => Err(e),
            Ok(_) => {
                make_current(ctx);
                al_buffer_iv(ctx, self.handle, AL_LOOP_POINTS_SOFT, value[0], value[1]);
                let check = check_al_error(ctx);
                release_current(ctx);
                check
            },
        }
    }

    /// Release the handle back to the owning context. Consuming the
    /// buffer here, together with the type being neither copyable nor
    /// cloneable, is what makes the release happen exactly once per
    /// constructed buffer. The destruction path cannot fail its caller:
    /// a failure would come back as a diagnostic, not an error.
    pub fn delete(self, ctx: &mut ContextModel) -> (diag: Option<AllenError>)
        requires
            old(ctx)@.wf(),
            self.valid(old(ctx)@),
        ensures
            final(ctx)@.wf(),
            final(ctx)@ == (CtxView {
                slots: old(ctx)@.slots.update(self.handle_id() as int - 1, BufferSlot::Freed),
                native_calls: old(ctx)@.native_calls + 1,
                destroy_calls: old(ctx)@.destroy_calls + 1,
                ..old(ctx)@
            }),
            final(ctx)@.freed(self.handle_id()),
            diag is None,
    {
        make_current(ctx);
        al_delete_buffer(ctx, self.handle);
        let check = check_al_error(ctx);
        release_current(ctx);
        match check {
            Ok(_) => None,
            Err(e) => Some(e),
        }
    }
}

/// A 32-bit-float or 64-bit-float payload fails with the
/// missing-extension error of its gate, and touches no native state —
/// no call is issued, no register changes — whenever that gate is
/// absent from the context's capability set.
pub proof fn lemma_data_gated(
    b: Buffer,
    ctx: CtxView,
    data: BufferData,
    channels: Channels,
    sample_rate: i32,
)
    requires
        (data is F32 && !ctx.ext_float32) || (data is F64 && !ctx.ext_double),
    ensures
        b.data_outcome(ctx, data, channels, sample_rate).0 == ctx,
        b.data_outcome(ctx, data, channels, sample_rate).0.native_calls == ctx.native_calls,
        data is F32 ==> b.data_outcome(ctx, data, channels, sample_rate).1 == Err::<(),
            AllenError,
        >(AllenError::MissingExtension(Extension::Float32)),
        data is F64 ==> b.data_outcome(ctx, data, channels, sample_rate).1 == Err::<(),
            AllenError,
        >(AllenError::MissingExtension(Extension::Double)),
{
}

/// After a successful upload, the frequency getter reports exactly the
/// sample rate that was passed in, and the channels getter exactly the
/// channel layout that was passed in.
pub proof fn lemma_data_then_getters(
    b: Buffer,
    ctx: CtxView,
    data: BufferData,
    channels: Channels,
    sample_rate: i32,
)
    requires
        ctx.wf(),
        b.valid(ctx),
        b.data_outcome(ctx, data, channels, sample_rate).1 is Ok,
    ensures
        ({
            let v1 = b.data_outcome(ctx, data, channels, sample_rate).0;
            &&& PropertiesContainer::<i32>::get_tr(&b, v1, AL_FREQUENCY).1 == Ok::<i32,
                AllenError,
            >(sample_rate)
            &&& PropertiesContainer::<Channels>::get_tr(&b, v1, AL_CHANNELS).1 == Ok::<Channels,
                AllenError,
            >(channels)
        }),
{
    lemma_format_preserves_channels(data, channels);
}

/// Without the loop-points capability, both loop-point accessors fail
/// with the missing-extension error and touch no native state.
pub proof fn lemma_loop_points_gated(b: Buffer, ctx: CtxView, start: i32, end: i32)
    requires
        !ctx.ext_loop_points,
    ensures
        b.loop_points_outcome(ctx).0 == ctx,
        b.loop_points_outcome(ctx).1 == Err::<(i32, i32), AllenError>(
            AllenError::MissingExtension(Extension::LoopPoints),
        ),
        b.set_loop_points_outcome(ctx, start, end).0 == ctx,
        b.set_loop_points_outcome(ctx, start, end).1 == Err::<(), AllenError>(
            AllenError::MissingExtension(Extension::LoopPoints),
        ),
{
}

/// With the loop-points capability present, writing a pair of loop
/// points succeeds and reading them back returns exactly that pair.
pub proof fn lemma_loop_points_round_trip(b: Buffer, ctx: CtxView, start: i32, end: i32)
    requires
        ctx.wf(),
        b.valid(ctx),
        ctx.ext_loop_points,
    ensures
        ({
            let v1 = b.set_loop_points_outcome(ctx, start, end).0;
            &&& b.set_loop_points_outcome(ctx, start, end).1 == Ok::<(), AllenError>(())
            &&& b.loop_points_outcome(v1).1 == Ok::<(i32, i32), AllenError>((start, end))
        }),
{
}

} // verus!
