use allen::buffer::Buffer;
use allen::context::{
    BufferSlot, ContextModel, AL_CHANNELS, AL_FREQUENCY,
};
use allen::data::{
    resolve_format, BufferData, Channels, AL_FORMAT_MONO16, AL_FORMAT_MONO8,
    AL_FORMAT_MONO_DOUBLE_EXT, AL_FORMAT_MONO_FLOAT32, AL_FORMAT_STEREO16,
    AL_FORMAT_STEREO_DOUBLE_EXT, AL_FORMAT_STEREO_FLOAT32,
};
use allen::error::{AllenError, NativeErrorKind};
use allen::extension::Extension;
use allen::properties::PropertiesContainer;

fn ctx_with(float32: bool, double: bool, loop_points: bool) -> ContextModel {
    ContextModel::new(1, 16, float32, double, loop_points)
}

#[test]
fn format_table_resolves_every_pair() {
    let i8_data = BufferData::I8(vec![0]);
    let i16_data = BufferData::I16(vec![0]);
    let f32_data = BufferData::F32(vec![0]);
    let f64_data = BufferData::F64(vec![0]);

    assert_eq!(resolve_format(&i8_data, Channels::Mono), AL_FORMAT_MONO8);
    // The documented 8-bit-stereo anomaly: a 16-bit stereo format code.
    assert_eq!(resolve_format(&i8_data, Channels::Stereo), AL_FORMAT_STEREO16);
    assert_eq!(resolve_format(&i16_data, Channels::Mono), AL_FORMAT_MONO16);
    assert_eq!(resolve_format(&i16_data, Channels::Stereo), AL_FORMAT_STEREO16);
    assert_eq!(resolve_format(&f32_data, Channels::Mono), AL_FORMAT_MONO_FLOAT32);
    assert_eq!(resolve_format(&f32_data, Channels::Stereo), AL_FORMAT_STEREO_FLOAT32);
    assert_eq!(resolve_format(&f64_data, Channels::Mono), AL_FORMAT_MONO_DOUBLE_EXT);
    assert_eq!(resolve_format(&f64_data, Channels::Stereo), AL_FORMAT_STEREO_DOUBLE_EXT);
}

#[test]
fn float32_upload_needs_extension() {
    let mut ctx = ctx_with(false, true, false);
    let buffer = Buffer::new(&mut ctx).unwrap();

    let payload = BufferData::F32(vec![0, 0x3f800000]);
    let r = buffer.data(&mut ctx, &payload, Channels::Mono, 44100);
    assert_eq!(r, Err(AllenError::MissingExtension(Extension::Float32)));

    // Nothing was uploaded: the buffer still carries its default metadata.
    assert_eq!(buffer.frequency(&mut ctx), Ok(0));
    assert_eq!(buffer.size(&mut ctx), Ok(0));
}

#[test]
fn float64_upload_needs_extension() {
    let mut ctx = ctx_with(true, false, false);
    let buffer = Buffer::new(&mut ctx).unwrap();

    let payload = BufferData::F64(vec![0]);
    let r = buffer.data(&mut ctx, &payload, Channels::Stereo, 8000);
    assert_eq!(r, Err(AllenError::MissingExtension(Extension::Double)));
    assert_eq!(buffer.size(&mut ctx), Ok(0));
}

#[test]
fn float_upload_succeeds_with_extension() {
    let mut ctx = ctx_with(true, true, false);
    let buffer = Buffer::new(&mut ctx).unwrap();

    let payload = BufferData::F32(vec![0, 0, 0]);
    assert_eq!(buffer.data(&mut ctx, &payload, Channels::Mono, 22050), Ok(()));
    assert_eq!(buffer.frequency(&mut ctx), Ok(22050));
    assert_eq!(buffer.bits(&mut ctx), Ok(32));
    assert_eq!(buffer.size(&mut ctx), Ok(12));

    let payload = BufferData::F64(vec![0, 0]);
    assert_eq!(buffer.data(&mut ctx, &payload, Channels::Stereo, 22050), Ok(()));
    assert_eq!(buffer.bits(&mut ctx), Ok(64));
    assert_eq!(buffer.channels(&mut ctx), Ok(Channels::Stereo));
    assert_eq!(buffer.size(&mut ctx), Ok(16));
}

#[test]
fn end_to_end_16_bit_mono_upload() {
    let mut ctx = ctx_with(false, false, false);
    let buffer = Buffer::new(&mut ctx).unwrap();

    let payload = BufferData::I16(vec![0, 1000, -1000, 0]);
    assert_eq!(buffer.data(&mut ctx, &payload, Channels::Mono, 44100), Ok(()));

    assert_eq!(buffer.frequency(&mut ctx), Ok(44100));
    assert_eq!(buffer.channels(&mut ctx), Ok(Channels::Mono));
    // 4 samples x 2 bytes.
    assert_eq!(buffer.size(&mut ctx), Ok(8));
    assert_eq!(buffer.bits(&mut ctx), Ok(16));
}

#[test]
fn eight_bit_stereo_upload_reports_the_anomalous_format() {
    let mut ctx = ctx_with(false, false, false);
    let buffer = Buffer::new(&mut ctx).unwrap();

    let payload = BufferData::I8(vec![1, 2, 3, 4]);
    assert_eq!(buffer.data(&mut ctx, &payload, Channels::Stereo, 48000), Ok(()));

    // The resolved format is the 16-bit stereo code, so the native side
    // reports 16 bits; the byte length is still that of the payload.
    assert_eq!(buffer.bits(&mut ctx), Ok(16));
    assert_eq!(buffer.channels(&mut ctx), Ok(Channels::Stereo));
    assert_eq!(buffer.size(&mut ctx), Ok(4));
    assert_eq!(buffer.frequency(&mut ctx), Ok(48000));
}

#[test]
fn loop_points_need_extension() {
    let mut ctx = ctx_with(false, false, false);
    let buffer = Buffer::new(&mut ctx).unwrap();

    assert_eq!(
        buffer.loop_points(&mut ctx),
        Err(AllenError::MissingExtension(Extension::LoopPoints))
    );
    assert_eq!(
        buffer.set_loop_points(&mut ctx, &[1, 2]),
        Err(AllenError::MissingExtension(Extension::LoopPoints))
    );
}

#[test]
fn loop_points_round_trip() {
    let mut ctx = ctx_with(false, false, true);
    let buffer = Buffer::new(&mut ctx).unwrap();

    assert_eq!(buffer.loop_points(&mut ctx), Ok([0, 0]));
    assert_eq!(buffer.set_loop_points(&mut ctx, &[3, 9]), Ok(()));
    assert_eq!(buffer.loop_points(&mut ctx), Ok([3, 9]));
}

#[test]
fn channel_count_is_not_writable() {
    let mut ctx = ctx_with(false, false, false);
    let buffer = Buffer::new(&mut ctx).unwrap();

    let r = PropertiesContainer::<Channels>::set(&buffer, &mut ctx, AL_CHANNELS, Channels::Stereo);
    assert_eq!(r, Err(AllenError::UnsupportedOperation));

    // No native call was attempted: the error register is untouched and
    // the parameter still reads back unchanged.
    assert_eq!(buffer.channels(&mut ctx), Ok(Channels::Mono));
}

#[test]
fn scalar_integer_write_is_rejected_natively() {
    let mut ctx = ctx_with(false, false, false);
    let buffer = Buffer::new(&mut ctx).unwrap();

    let r = PropertiesContainer::<i32>::set(&buffer, &mut ctx, AL_FREQUENCY, 22050);
    assert_eq!(r, Err(AllenError::Native(NativeErrorKind::InvalidEnum)));
}

#[test]
fn unknown_parameter_is_rejected() {
    let mut ctx = ctx_with(false, false, false);
    let buffer = Buffer::new(&mut ctx).unwrap();

    let r = PropertiesContainer::<i32>::get(&buffer, &mut ctx, 0x7777);
    assert_eq!(r, Err(AllenError::Native(NativeErrorKind::InvalidEnum)));
}

#[test]
fn delete_frees_the_handle_exactly_once() {
    let mut ctx = ctx_with(false, false, false);
    let buffer = Buffer::new(&mut ctx).unwrap();
    assert_eq!(buffer.handle(), 1);
    assert!(matches!(ctx.slots[0], BufferSlot::Live(_)));

    assert_eq!(buffer.delete(&mut ctx), None);
    assert_eq!(ctx.slots[0], BufferSlot::Freed);

    // The handle is not reused: the next buffer gets a fresh one.
    let second = Buffer::new(&mut ctx).unwrap();
    assert_eq!(second.handle(), 2);
    assert_eq!(ctx.slots[0], BufferSlot::Freed);
    assert!(matches!(ctx.slots[1], BufferSlot::Live(_)));
}

#[test]
fn allocation_fails_when_the_context_is_exhausted() {
    let mut ctx = ContextModel::new(7, 1, false, false, false);
    let first = Buffer::new(&mut ctx).unwrap();
    assert_eq!(first.handle(), 1);

    match Buffer::new(&mut ctx) {
        Err(e) => assert_eq!(e, AllenError::Allocation),
        Ok(_) => panic!("allocation beyond the context's capacity"),
    }
}

#[test]
fn querying_a_dead_handle_raises_invalid_name() {
    let mut ctx = ctx_with(false, false, false);

    // Drive the native protocol directly: lock, call, drain, unlock.
    allen::context::make_current(&mut ctx);
    let value = allen::context::al_get_buffer_i(&mut ctx, 99, AL_FREQUENCY);
    let check = allen::context::check_al_error(&mut ctx);
    allen::context::release_current(&mut ctx);

    assert_eq!(value, 0);
    assert_eq!(check, Err(AllenError::Native(NativeErrorKind::InvalidName)));
}

#[test]
fn exhausted_allocation_raises_out_of_memory() {
    let mut ctx = ContextModel::new(3, 0, false, false, false);

    allen::context::make_current(&mut ctx);
    let handle = allen::context::al_gen_buffer(&mut ctx);
    let check = allen::context::check_al_error(&mut ctx);
    allen::context::release_current(&mut ctx);

    assert_eq!(handle, 0);
    assert_eq!(check, Err(AllenError::Native(NativeErrorKind::OutOfMemory)));
}

#[test]
fn channel_layout_encodes_and_decodes() {
    assert_eq!(Channels::Mono.count(), 1);
    assert_eq!(Channels::Stereo.count(), 2);
    assert_eq!(Channels::from_count(1), Some(Channels::Mono));
    assert_eq!(Channels::from_count(2), Some(Channels::Stereo));
    assert_eq!(Channels::from_count(0), None);
    assert_eq!(Channels::from_count(3), None);
}

#[test]
fn payload_sizes_follow_element_width() {
    assert_eq!(BufferData::I8(vec![1, 2, 3]).size(), 3);
    assert_eq!(BufferData::I16(vec![1, 2, 3]).size(), 6);
    assert_eq!(BufferData::F32(vec![1, 2, 3]).size(), 12);
    assert_eq!(BufferData::F64(vec![1, 2, 3]).size(), 24);
    assert_eq!(BufferData::I16(Vec::new()).size(), 0);
}

#[test]
fn extension_names_match_the_native_strings() {
    assert_eq!(Extension::Float32.name(), "AL_EXT_float32");
    assert_eq!(Extension::Double.name(), "AL_double");
    assert_eq!(Extension::LoopPoints.name(), "AL_SOFT_loop_points");
}

#[test]
fn capability_set_is_reported_per_extension() {
    let ctx = ctx_with(true, false, true);
    assert!(ctx.has_extension(Extension::Float32));
    assert!(!ctx.has_extension(Extension::Double));
    assert!(ctx.has_extension(Extension::LoopPoints));
}
