//! The device / context / listener / source / buffer object graph.

use openal::buffer::ALBuffer;
use openal::context::{ALContext, ALContextRelease};
use openal::device::{
    check_device_name, split_nul_strings, ALDevice, ALC_ALL_DEVICES_SPECIFIER,
    ALC_CAPTURE_DEVICE_SPECIFIER, ALC_DEVICE_SPECIFIER, ALC_EXTENSIONS,
};
use openal::distance_model::{ALDistanceModel, AL_LINEAR_DISTANCE, AL_NONE};
use openal::error::ALError;
use openal::format::ALFormat;
use openal::listener::ALListener;
use openal::source::{ALSource, AL_FALSE, AL_TRUE};
use openal::source_3d::ALSource3D;
use openal::ALObject;

fn listener() -> ALListener {
    let device = ALDevice::from_raw(0x1000);
    let context = ALContext::create_from_device(0x2000, device);
    ALListener::new(context)
}

#[test]
fn device_name_validation() {
    assert_eq!(check_device_name(&b"OpenAL Soft".to_vec()), Ok(()));
    assert_eq!(check_device_name(&Vec::new()), Ok(()));
    assert_eq!(check_device_name(&b"bad\0name".to_vec()), Err(ALError::NulError));
}

#[test]
fn device_queries() {
    assert_eq!(ALDevice::name_query_param(true), ALC_ALL_DEVICES_SPECIFIER);
    assert_eq!(ALDevice::name_query_param(false), ALC_DEVICE_SPECIFIER);
    assert!(ALDevice::is_multistring_param(ALC_ALL_DEVICES_SPECIFIER));
    assert!(ALDevice::is_multistring_param(ALC_CAPTURE_DEVICE_SPECIFIER));
    assert!(!ALDevice::is_multistring_param(ALC_EXTENSIONS));

    let null = ALDevice::null();
    assert!(null.is_null());
    assert_eq!(null.raw(), 0);
    let real = ALDevice::from_raw(77);
    assert!(!real.is_null());
    assert_eq!(real.raw(), 77);
}

#[test]
fn multistring_splitting() {
    let blob = b"first device\0second device\0\0".to_vec();
    let names = split_nul_strings(&blob);
    assert_eq!(names.len(), 2);
    assert_eq!(names[0], b"first device".to_vec());
    assert_eq!(names[1], b"second device".to_vec());

    // An empty list is just the terminator.
    assert_eq!(split_nul_strings(&b"\0".to_vec()).len(), 0);
    assert_eq!(split_nul_strings(&Vec::new()).len(), 0);

    // A single unterminated name still comes through whole.
    let single = split_nul_strings(&b"only".to_vec());
    assert_eq!(single.len(), 1);
    assert_eq!(single[0], b"only".to_vec());
}

#[test]
fn context_binding_and_release() {
    let device = ALDevice::from_raw(0x1000);
    let mut context = ALContext::create_from_device(0x2000, device);
    assert_eq!(context.raw(), 0x2000);
    assert_eq!(context.device().raw(), 0x1000);
    // A fresh context releases like a globally bound one.
    assert_eq!(context.release_action(), ALContextRelease::ClearCurrentContext);
    context.set_thread_context();
    assert_eq!(context.release_action(), ALContextRelease::ClearThreadContext);
    context.make_current();
    assert_eq!(context.release_action(), ALContextRelease::ClearCurrentContext);
}

#[test]
fn listener_chain_and_distance_model() {
    let l = listener();
    assert_eq!(l.device().raw(), 0x1000);
    assert_eq!(l.context().raw(), 0x2000);
    assert_eq!(l.set_distance_model(Some(ALDistanceModel::LinearDistance)), AL_LINEAR_DISTANCE);
    assert_eq!(l.set_distance_model(None), AL_NONE);
}

#[test]
fn buffer_upload_accounting() {
    let mut b = ALBuffer::new(5);
    assert_eq!(b.raw(), 5);
    assert!(b.is_valid());
    assert_eq!(b.num_bytes(), 0);
    assert_eq!(b.format(), None);

    let fmt = ALFormat::common_stereo32f(44_100);
    // An empty upload is rejected and changes nothing.
    assert_eq!(b.buffer_raw(0, fmt), Err(ALError::InvalidValue));
    assert_eq!(b.num_bytes(), 0);

    let cmd = b.buffer_raw(1024, fmt).unwrap();
    assert_eq!(cmd, 0x10011);
    assert_eq!(b.num_bytes(), 1024);
    assert_eq!(b.num_elements(4), 256);
    assert_eq!(b.format(), Some(fmt));
}

#[test]
fn buffer_unsupported_format() {
    let mut b = ALBuffer::new(6);
    let quad = ALFormat::from_parts(16, 2, 44_100).unwrap();
    assert!(b.buffer_raw(64, quad).is_ok());
    let unsupported = ALFormat {
        depth: openal::format::ALBitDepth::Int16,
        channels: openal::format::ALChannels::Quad,
        sample_rate: 44_100,
        sample_type: openal::format::ALSampleType::Short,
    };
    assert_eq!(b.buffer_raw(64, unsupported), Err(ALError::Unsupported));
    // The failed upload left the previous contents recorded.
    assert_eq!(b.format(), Some(quad));
    assert_eq!(b.num_bytes(), 64);
}

#[test]
fn source_queue_bookkeeping() {
    let mut s = ALSource::new(9, listener());
    assert_eq!(s.raw(), 9);
    assert_eq!(s.queue_len(), 0);
    assert!(!s.looping());
    assert!(!s.relative());

    s.queue_buffers(&vec![1, 2, 3]).unwrap();
    s.queue_buffers(&vec![2, 4]).unwrap();
    assert_eq!(s.buffers(), vec![1, 2, 3, 2, 4]);
    assert_eq!(s.queue_len(), 5);

    // Removing takes the first occurrence only.
    assert_eq!(s.unqueue_buffer(2), Ok(true));
    assert_eq!(s.buffers(), vec![1, 3, 2, 4]);
    assert_eq!(s.unqueue_buffer(2), Ok(true));
    assert_eq!(s.buffers(), vec![1, 3, 4]);
    assert_eq!(s.unqueue_buffer(2), Ok(false));
    assert_eq!(s.buffers(), vec![1, 3, 4]);

    let drained = s.unqueue_all_buffers().unwrap();
    assert_eq!(drained, vec![1, 3, 4]);
    assert_eq!(s.queue_len(), 0);
}

#[test]
fn source_looping_values() {
    let mut s = ALSource::new(9, listener());
    assert_eq!(s.set_looping(true), AL_TRUE);
    assert!(s.looping());
    assert_eq!(s.set_looping(false), AL_FALSE);
    assert!(!s.looping());
}

#[test]
fn source_3d_roundtrip() {
    let mut s = ALSource::new(11, listener());
    s.queue_buffers(&vec![7, 8]).unwrap();
    s.set_looping(true);

    let (s3d, cmd) = ALSource3D::from_source(s);
    assert_eq!(cmd, AL_TRUE);
    assert_eq!(s3d.raw(), 11);
    assert!(s3d.source().relative());
    assert_eq!(s3d.source().buffers(), vec![7, 8]);
    assert_eq!(s3d.set_distance_model(None), AL_NONE);

    let (back, cmd) = s3d.into_source();
    assert_eq!(cmd, AL_FALSE);
    assert_eq!(back.raw(), 11);
    assert!(!back.relative());
    assert!(back.looping());
    assert_eq!(back.buffers(), vec![7, 8]);
}

#[test]
fn object_validity() {
    let b = ALBuffer::new(3);
    assert!(b.check().is_ok());
    assert_eq!(b.into_raw(), 3);

    let e = openal::effect::ALEffect::new(21, listener());
    assert_eq!(e.raw(), 21);
    assert_eq!(e.listener().device().raw(), 0x1000);
    assert!(e.check().is_ok());
}
