//! End-to-end tests of the wire codec, the per-request dispatch and the
//! in-memory device.

use vblk::mem::MemBlockDevice;
use vblk::nbd::{Command, Reply, Request, REPLY_LEN, REQUEST_LEN, REQUEST_MAGIC};
use vblk::{
    classify_frame_read, errno_of_error, geometry_is_valid, handle_request,
    prepare_payload_buffer, reply_for_result, BlockDevice, BlockError, FrameRead, Outcome, EIO,
    EPERM,
};

/// Builds a request frame's wire bytes.
fn frame(magic: u32, kind: u32, handle: u64, offset: u64, len: u32) -> Vec<u8> {
    let mut bytes = Vec::new();
    bytes.extend_from_slice(&magic.to_be_bytes());
    bytes.extend_from_slice(&kind.to_be_bytes());
    bytes.extend_from_slice(&handle.to_be_bytes());
    bytes.extend_from_slice(&offset.to_be_bytes());
    bytes.extend_from_slice(&len.to_be_bytes());
    bytes
}

fn request(kind: u32, handle: u64, offset: u64, len: u32) -> Request {
    let bytes = frame(REQUEST_MAGIC, kind, handle, offset, len);
    assert_eq!(bytes.len(), REQUEST_LEN);
    Request::from_bytes(&bytes)
}

#[test]
fn request_frame_decodes_big_endian_fields() {
    let bytes = frame(
        REQUEST_MAGIC,
        1,
        0x0102_0304_0506_0708,
        0xa1b2_c3d4_e5f6_0718,
        0x0004_0000,
    );
    let request = Request::from_bytes(&bytes);
    assert_eq!(request.magic, 0x2560_9513);
    assert_eq!(request.kind, 1);
    assert_eq!(request.handle, 0x0102_0304_0506_0708);
    assert_eq!(request.offset(), 0xa1b2_c3d4_e5f6_0718);
    assert_eq!(request.len(), 0x0004_0000);
    assert!(request.is_magic_valid());
}

#[test]
fn request_with_invalid_magic_is_detected() {
    let bytes = frame(0xdead_beef, 0, 7, 0, 512);
    let request = Request::from_bytes(&bytes);
    assert!(!request.is_magic_valid());
}

#[test]
fn command_codes_decode_to_the_closed_sum() {
    assert_eq!(request(0, 1, 0, 0).command(), Command::Read);
    assert_eq!(request(1, 1, 0, 0).command(), Command::Write);
    assert_eq!(request(2, 1, 0, 0).command(), Command::Disconnect);
    assert_eq!(request(3, 1, 0, 0).command(), Command::Flush);
    assert_eq!(request(4, 1, 0, 0).command(), Command::Trim);
    assert_eq!(request(5, 1, 0, 0).command(), Command::Unknown);
    assert_eq!(request(0xffff_ffff, 1, 0, 0).command(), Command::Unknown);
}

#[test]
fn reply_is_paired_to_its_request() {
    let request = request(3, 0x1122_3344_5566_7788, 0, 0);
    let reply = request.new_reply_for_request();
    assert_eq!(reply.magic, 0x6744_6698);
    assert_eq!(reply.error, 0);
    assert_eq!(reply.handle, 0x1122_3344_5566_7788);
}

#[test]
fn reply_serializes_big_endian() {
    let request = request(0, 0x0102_0304_0506_0708, 0, 0);
    let mut reply = request.new_reply_for_request();
    reply.set_errno(30);
    let bytes = reply.to_bytes();
    assert_eq!(bytes.len(), REPLY_LEN);
    assert_eq!(
        bytes,
        vec![
            0x67, 0x44, 0x66, 0x98, // reply magic, big-endian
            0x00, 0x00, 0x00, 0x1e, // errno 30, big-endian
            0x01, 0x02, 0x03, 0x04, 0x05, 0x06, 0x07, 0x08, // handle echoed
        ]
    );
}

#[test]
fn errno_carrying_error_is_forwarded_verbatim() {
    assert_eq!(errno_of_error(&BlockError { errno: Some(30) }), 30);
    assert_eq!(errno_of_error(&BlockError { errno: Some(EPERM) }), EPERM);
}

#[test]
fn error_without_errno_becomes_eio() {
    assert_eq!(errno_of_error(&BlockError { errno: None }), EIO);
    assert_eq!(EIO, 5);
}

#[test]
fn reply_for_result_encodes_success_as_zero() {
    let request = request(3, 99, 0, 0);
    let reply: Reply = reply_for_result(&request, &Ok(()));
    assert_eq!(reply.error, 0);
    assert_eq!(reply.handle, 99);
}

#[test]
fn block_size_512_is_accepted() {
    assert!(geometry_is_valid(512));
    assert!(geometry_is_valid(1024));
    assert!(geometry_is_valid(4096));
}

#[test]
fn block_size_256_is_rejected() {
    assert!(!geometry_is_valid(256));
    assert!(!geometry_is_valid(0));
    assert!(!geometry_is_valid(513));
    assert!(!geometry_is_valid(768));
}

#[test]
fn payload_buffer_grows_and_zero_fills() {
    let mut buffer = vec![7u8; 4];
    prepare_payload_buffer(&mut buffer, 8);
    assert_eq!(buffer, vec![7, 7, 7, 7, 0, 0, 0, 0]);
}

#[test]
fn payload_buffer_keeps_its_size_without_growth() {
    let mut buffer = vec![9u8; 4096];
    prepare_payload_buffer(&mut buffer, 4096);
    assert_eq!(buffer.len(), 4096);
    assert!(buffer.iter().all(|&b| b == 9));
}

#[test]
fn payload_buffer_shrinks_keeping_the_prefix() {
    let mut buffer = vec![1u8, 2, 3, 4];
    prepare_payload_buffer(&mut buffer, 2);
    assert_eq!(buffer, vec![1, 2]);
}

/// A backend that records calls and fails as directed.
struct ScriptedBackend {
    write_error: Option<BlockError>,
    flush_error: Option<BlockError>,
    reads: usize,
    writes: usize,
    written: Vec<u8>,
    unmounts: usize,
}

impl ScriptedBackend {
    fn new() -> ScriptedBackend {
        ScriptedBackend {
            write_error: None,
            flush_error: None,
            reads: 0,
            writes: 0,
            written: Vec::new(),
            unmounts: 0,
        }
    }
}

impl BlockDevice for ScriptedBackend {
    fn read(&mut self, _offset: u64, bytes: &mut Vec<u8>) -> Result<(), BlockError> {
        self.reads += 1;
        for i in 0..bytes.len() {
            bytes[i] = 0xab;
        }
        Ok(())
    }

    fn write(&mut self, _offset: u64, bytes: &[u8]) -> Result<(), BlockError> {
        self.writes += 1;
        self.written = bytes.to_vec();
        match self.write_error {
            Some(e) => Err(e),
            None => Ok(()),
        }
    }

    fn flush(&mut self) -> Result<(), BlockError> {
        match self.flush_error {
            Some(e) => Err(e),
            None => Ok(()),
        }
    }

    fn unmount(&mut self) {
        self.unmounts += 1;
    }

    fn block_size(&self) -> u32 {
        512
    }

    fn blocks(&self) -> u64 {
        2048
    }
}

#[test]
fn read_request_replies_with_exactly_length_payload_bytes() {
    let mut backend = ScriptedBackend::new();
    let mut buffer = Vec::new();
    let request = request(0, 42, 0, 2048);
    match handle_request(&mut backend, &request, &mut buffer) {
        Outcome::RespondPayload(reply) => {
            assert_eq!(reply.error, 0);
            assert_eq!(reply.handle, 42);
        }
        other => panic!("expected a reply with payload, got {:?}", other),
    }
    assert_eq!(buffer.len(), 2048);
    assert!(buffer.iter().all(|&b| b == 0xab));
    assert_eq!(backend.reads, 1);
}

#[test]
fn zero_length_read_still_emits_a_reply_and_no_payload() {
    let mut backend = ScriptedBackend::new();
    let mut buffer = vec![1u8, 2, 3];
    let request = request(0, 8, 0, 0);
    match handle_request(&mut backend, &request, &mut buffer) {
        Outcome::RespondPayload(reply) => assert_eq!(reply.error, 0),
        other => panic!("expected a reply with payload, got {:?}", other),
    }
    assert_eq!(buffer.len(), 0);
}

#[test]
fn write_payload_reaches_the_backend_before_the_reply() {
    let mut backend = ScriptedBackend::new();
    backend.write_error = Some(BlockError { errno: Some(30) });
    let payload: Vec<u8> = (0u8..16).collect();
    let mut buffer = payload.clone();
    let request = request(1, 7, 0, 16);
    match handle_request(&mut backend, &request, &mut buffer) {
        Outcome::Respond(reply) => {
            // errno 30 (EROFS), big-endian, in the error field
            assert_eq!(reply.to_bytes()[4..8], [0x00, 0x00, 0x00, 0x1e]);
            assert_eq!(reply.handle, 7);
        }
        other => panic!("expected a bare reply, got {:?}", other),
    }
    assert_eq!(backend.writes, 1);
    assert_eq!(backend.written, payload);
}

#[test]
fn zero_length_write_still_emits_a_reply() {
    let mut backend = ScriptedBackend::new();
    let mut buffer = Vec::new();
    let request = request(1, 3, 128, 0);
    match handle_request(&mut backend, &request, &mut buffer) {
        Outcome::Respond(reply) => assert_eq!(reply.error, 0),
        other => panic!("expected a bare reply, got {:?}", other),
    }
    assert_eq!(backend.writes, 1);
    assert_eq!(backend.written.len(), 0);
}

#[test]
fn flush_error_without_errno_encodes_eio() {
    let mut backend = ScriptedBackend::new();
    backend.flush_error = Some(BlockError { errno: None });
    let mut buffer = Vec::new();
    let request = request(3, 11, 0, 0);
    match handle_request(&mut backend, &request, &mut buffer) {
        Outcome::Respond(reply) => {
            assert_eq!(reply.error, 5);
            assert_eq!(reply.to_bytes()[4..8], [0x00, 0x00, 0x00, 0x05]);
        }
        other => panic!("expected a bare reply, got {:?}", other),
    }
}

#[test]
fn trim_succeeds_by_default() {
    let mut backend = ScriptedBackend::new();
    let mut buffer = Vec::new();
    let request = request(4, 21, 4096, 512);
    match handle_request(&mut backend, &request, &mut buffer) {
        Outcome::Respond(reply) => assert_eq!(reply.error, 0),
        other => panic!("expected a bare reply, got {:?}", other),
    }
}

#[test]
fn disconnect_invokes_unmount_once_and_sends_no_reply() {
    let mut backend = ScriptedBackend::new();
    let mut buffer = Vec::new();
    let request = request(2, 0, 0, 0);
    let outcome = handle_request(&mut backend, &request, &mut buffer);
    assert!(matches!(outcome, Outcome::Disconnected));
    assert_eq!(backend.unmounts, 1);
}

#[test]
fn unknown_command_is_a_protocol_violation() {
    let mut backend = ScriptedBackend::new();
    let mut buffer = Vec::new();
    let request = request(9, 0, 0, 0);
    let outcome = handle_request(&mut backend, &request, &mut buffer);
    assert!(matches!(outcome, Outcome::UnknownCommand));
    assert_eq!(backend.unmounts, 0);
}

/// A backend using the default capability set: reads and writes refuse.
struct DefaultBackend;

impl BlockDevice for DefaultBackend {
    fn block_size(&self) -> u32 {
        512
    }

    fn blocks(&self) -> u64 {
        1
    }
}

#[test]
fn default_read_and_write_refuse_with_eperm() {
    let mut backend = DefaultBackend;
    assert_eq!(
        backend.write(0, &[1, 2]),
        Err(BlockError { errno: Some(EPERM) })
    );
    let mut buffer = vec![3u8, 4];
    assert_eq!(
        backend.read(0, &mut buffer),
        Err(BlockError { errno: Some(EPERM) })
    );
    assert_eq!(buffer, vec![3, 4]);
    assert_eq!(backend.flush(), Ok(()));
    assert_eq!(backend.trim(0, 16), Ok(()));
}

#[test]
fn mem_device_reports_its_geometry() {
    let device = MemBlockDevice::from_vec(vec![0u8; 4 * 1024 * 1024], 1024);
    assert_eq!(device.block_size_bytes(), 1024);
    assert_eq!(device.block_count(), 4096);
}

#[test]
fn mem_device_write_then_read_round_trips() {
    let mut device = MemBlockDevice::from_vec(vec![0u8; 4096], 512);
    let bytes: Vec<u8> = (0u8..64).collect();
    assert_eq!(device.write_at(1000, &bytes), Ok(()));
    let mut buffer = vec![0u8; 64];
    assert_eq!(device.read_at(1000, &mut buffer), Ok(()));
    assert_eq!(buffer, bytes);
}

#[test]
fn mem_device_rejects_a_range_leaving_the_volume() {
    let mut device = MemBlockDevice::from_vec(vec![0u8; 1024], 512);
    let mut buffer = vec![0u8; 16];
    assert!(device.read_at(1020, &mut buffer).is_err());
    assert!(device.write_at(1020, &[0u8; 16]).is_err());
    assert!(device.write_at(u64::MAX, &[1]).is_err());
}

#[test]
fn mount_sized_read_through_the_dispatcher() {
    // A volume with a recognizable pattern, read back through the request
    // dispatcher as the kernel would ask for it.
    let mut data = vec![0u8; 4 * 1024 * 1024];
    for (i, b) in data.iter_mut().enumerate() {
        *b = (i % 251) as u8;
    }
    let expected: Vec<u8> = data[0..2048].to_vec();
    let mut device = MemBlockDevice::from_vec(data, 1024);
    let mut buffer = Vec::new();
    let request = request(0, 0x0102_0304_0506_0708, 0, 2048);
    match handle_request(&mut device, &request, &mut buffer) {
        Outcome::RespondPayload(reply) => {
            assert_eq!(reply.magic, 0x6744_6698);
            assert_eq!(reply.error, 0);
            assert_eq!(reply.handle, 0x0102_0304_0506_0708);
        }
        other => panic!("expected a reply with payload, got {:?}", other),
    }
    assert_eq!(buffer, expected);
}

#[test]
fn write_then_read_round_trips_through_the_dispatcher() {
    let mut device = MemBlockDevice::from_vec(vec![0u8; 8192], 512);
    let payload: Vec<u8> = (0u8..128).map(|b| b.wrapping_mul(3)).collect();

    let mut buffer = payload.clone();
    let write_request = request(1, 1, 512, 128);
    match handle_request(&mut device, &write_request, &mut buffer) {
        Outcome::Respond(reply) => assert_eq!(reply.error, 0),
        other => panic!("expected a bare reply, got {:?}", other),
    }

    let read_request = request(0, 2, 512, 128);
    match handle_request(&mut device, &read_request, &mut buffer) {
        Outcome::RespondPayload(reply) => assert_eq!(reply.error, 0),
        other => panic!("expected a reply with payload, got {:?}", other),
    }
    assert_eq!(buffer, payload);
}

#[test]
fn frame_read_counts_classify_the_loop_step() {
    assert_eq!(classify_frame_read(0), FrameRead::Closed);
    assert_eq!(classify_frame_read(REQUEST_LEN), FrameRead::Complete);
    assert_eq!(classify_frame_read(1), FrameRead::Violation);
    assert_eq!(classify_frame_read(27), FrameRead::Violation);
}
