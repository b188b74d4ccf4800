//! Mount virtual, application-defined block devices on Linux.
//!
//! An embedder implements the [`BlockDevice`] capability; the driver binds it
//! to a kernel NBD device node and services the kernel's request stream.

use vstd::prelude::*;

pub mod mem;
pub mod nbd;

verus! {

/// Errno substituted for a backend failure that carries no errno of its own.
pub const EIO: i32 = 5;

/// Errno with which the default `read`/`write` refuse service.
pub const EPERM: i32 = 1;

/// Errno with which the in-memory device refuses a range that leaves the
/// volume.
pub const EINVAL: i32 = 22;

/// A failure reported by a block device operation.
///
/// Carries the OS errno associated with the failure, if there is one; the
/// driver forwards that errno to the kernel verbatim and substitutes `EIO`
/// when there is none.
#[derive(Clone, Copy, Debug, PartialEq, Eq)]
pub struct BlockError {
    /// The OS errno associated with this failure, if any.
    pub errno: Option<i32>,
}

/// The errno the driver reports to the kernel for a failed backend operation.
pub open spec fn spec_reply_errno(err: BlockError) -> i32 {
    match err.errno {
        Some(e) => e,
        None => EIO,
    }
}

/// Maps a backend failure to the errno placed in the reply: the errno the
/// error carries, or `EIO` when it carries none.
pub fn errno_of_error(err: &BlockError) -> (e: i32)
    ensures
        e == spec_reply_errno(*err),
{
    match err.errno {
        Some(e) => e,
        None => EIO,
    }
}

/// A virtual block device: the capability set an embedder implements to
/// back a mounted volume. All operations are invoked serially from the
/// request loop of a single mount.
pub trait BlockDevice {
    /// Reads a byte range from the block device, filling `bytes` completely
    /// starting at `offset`. The buffer's length may not change: the driver
    /// sends exactly that many payload bytes after the reply frame.
    /// Unless overridden, reading refuses with permission-denied and leaves
    /// the buffer as it was.
    #[allow(unused_variables)]
    fn read(&mut self, offset: u64, bytes: &mut Vec<u8>) -> (r: Result<(), BlockError>)
        ensures
            final(bytes)@.len() == old(bytes)@.len(),
        default_ensures
            r == Err::<(), BlockError>(BlockError { errno: Some(EPERM) }),
            final(bytes)@ == old(bytes)@,
    {
        Err(BlockError { errno: Some(EPERM) })
    }

    /// Writes a byte range to the block device, storing all of `bytes`
    /// starting at `offset`. Unless overridden, writing refuses with
    /// permission-denied.
    #[allow(unused_variables)]
    fn write(&mut self, offset: u64, bytes: &[u8]) -> (r: Result<(), BlockError>)
        default_ensures
            r == Err::<(), BlockError>(BlockError { errno: Some(EPERM) }),
    {
        Err(BlockError { errno: Some(EPERM) })
    }

    /// Flushes any cached data to the block device. Unless overridden,
    /// there is nothing cached and flushing succeeds.
    fn flush(&mut self) -> (r: Result<(), BlockError>)
        default_ensures
            r == Ok::<(), BlockError>(()),
    {
        Ok(())
    }

    /// Trims (discards) a byte range of the block device. Unless
    /// overridden, trimming is a no-op that succeeds.
    #[allow(unused_variables)]
    fn trim(&mut self, offset: u64, len: u32) -> (r: Result<(), BlockError>)
        default_ensures
            r == Ok::<(), BlockError>(()),
    {
        Ok(())
    }

    /// Called exactly once when the kernel delivers a Disconnect command.
    fn unmount(&mut self) {
    }

    /// The device block size in bytes; must be a power of two of at least
    /// 512 bytes.
    fn block_size(&self) -> u32;

    /// The device size in blocks.
    fn blocks(&self) -> u64;
}

/// True exactly when a backend's block size is one the kernel accepts: a
/// power of two of at least 512 bytes. A backend violating this is a
/// programming error and is rejected at mount.
pub fn geometry_is_valid(block_size: u32) -> (r: bool)
    ensures
        r == (vstd::arithmetic::power2::is_pow2(block_size as int) && block_size >= 512),
{
    if block_size < 512 {
        return false;
    }
    let mut m: u32 = block_size;
    while m > 1 && m % 2 == 0
        invariant
            m >= 1,
            vstd::arithmetic::power2::is_pow2(block_size as int)
                == vstd::arithmetic::power2::is_pow2(m as int),
        decreases m,
    {
        proof {
            reveal(vstd::arithmetic::power2::is_pow2);
            assert(vstd::arithmetic::power2::is_pow2(m as int) == vstd::arithmetic::power2::is_pow2(
                m as int / 2,
            ));
        }
        m = m / 2;
    }
    proof {
        reveal(vstd::arithmetic::power2::is_pow2);
        if m != 1 {
            assert(!vstd::arithmetic::power2::is_pow2(m as int));
        }
    }
    m == 1
}

/// Sets the scratch buffer's length to `len`: the prefix already there is
/// kept, any growth is zero-filled.
pub fn prepare_payload_buffer(buffer: &mut Vec<u8>, len: usize)
    ensures
        final(buffer)@.len() == len,
        forall|i: int| 0 <= i < len && i < old(buffer)@.len() ==> final(buffer)@[i] == old(
            buffer,
        )@[i],
        forall|i: int| old(buffer)@.len() <= i < len ==> final(buffer)@[i] == 0u8,
{
    if len <= buffer.len() {
        buffer.truncate(len);
    } else {
        while buffer.len() < len
            invariant
                old(buffer)@.len() <= buffer@.len() <= len,
                forall|i: int| 0 <= i < old(buffer)@.len() ==> buffer@[i] == old(buffer)@[i],
                forall|i: int| old(buffer)@.len() <= i < buffer@.len() ==> buffer@[i] == 0u8,
            decreases len - buffer@.len(),
        {
            buffer.push(0);
        }
    }
}

/// The reply paired to `request` once its backend operation has come back
/// with `result`.
pub open spec fn spec_reply_for(request: nbd::Request, result: Result<(), BlockError>)
    -> nbd::Reply {
    nbd::Reply {
        magic: nbd::REPLY_MAGIC,
        error: match result {
            Ok(()) => 0u32,
            Err(e) => spec_reply_errno(e) as u32,
        },
        handle: request.handle,
    }
}

/// Law: every reply carries the handle of its paired request verbatim,
/// whatever the backend operation came back with.
pub proof fn lemma_reply_echoes_handle(request: nbd::Request, result: Result<(), BlockError>)
    ensures
        spec_reply_for(request, result).handle == request.handle,
{
}

/// Law: a backend failure carrying an errno puts exactly that errno in the
/// reply's error field; one carrying none puts `EIO` there; success puts
/// zero there.
pub proof fn lemma_reply_errno(request: nbd::Request, result: Result<(), BlockError>)
    ensures
        result is Ok ==> spec_reply_for(request, result).error == 0,
        result matches Err(e) ==> (e.errno matches Some(n) ==> spec_reply_for(request, result).error
            == n as u32) && (e.errno is None ==> spec_reply_for(request, result).error == EIO
            as u32),
{
}

/// The reply the driver sends for a request whose backend operation came
/// back with `result`: the request's handle echoed, the error field zero on
/// success and otherwise the errno the failure carries, or `EIO` when it
/// carries none.
pub fn reply_for_result(request: &nbd::Request, result: &Result<(), BlockError>) -> (rep:
    nbd::Reply)
    ensures
        rep == spec_reply_for(*request, *result),
{
    let mut rep = request.new_reply_for_request();
    match result {
        Ok(()) => {},
        Err(e) => rep.set_errno(errno_of_error(e)),
    }
    rep
}

/// What the request loop must do with the byte count a frame read returned.
#[derive(Clone, Copy, Debug, PartialEq, Eq, Structural)]
pub enum FrameRead {
    /// Zero bytes: the kernel closed its end and the mount ends cleanly.
    Closed,
    /// A whole frame arrived: decode and dispatch it.
    Complete,
    /// A partial frame: a fatal driver-protocol violation.
    Violation,
}

/// Classifies the byte count a frame read returned: end-of-stream means a
/// clean exit, a whole frame is decoded, and anything shorter is a fatal
/// driver-protocol violation.
pub fn classify_frame_read(count: usize) -> (r: FrameRead)
    ensures
        (r is Closed) <==> count == 0,
        (r is Complete) <==> count == nbd::REQUEST_LEN,
        (r is Violation) <==> (count != 0 && count != nbd::REQUEST_LEN),
{
    if count == 0 {
        FrameRead::Closed
    } else if count == nbd::REQUEST_LEN {
        FrameRead::Complete
    } else {
        FrameRead::Violation
    }
}

/// What the request loop must do after one request has been dispatched.
#[derive(Clone, Copy, Debug, PartialEq, Eq, Structural)]
pub enum Outcome {
    /// Send the reply frame; no payload follows.
    Respond(nbd::Reply),
    /// Send the reply frame followed by the scratch buffer as payload.
    RespondPayload(nbd::Reply),
    /// The kernel asked to disconnect: send nothing and leave the loop.
    Disconnected,
    /// The request carried an unknown command: a fatal protocol violation.
    UnknownCommand,
}

/// Dispatches one accepted request to the backend and determines the reply.
///
/// For Write the payload must already stand in `buffer`, read off the wire
/// before the backend runs; for Read the buffer is resized to the requested
/// length and filled by the backend, and is sent as the reply's payload.
pub fn handle_request<B: BlockDevice>(
    device: &mut B,
    request: &nbd::Request,
    buffer: &mut Vec<u8>,
) -> (out: Outcome)
    requires
        request.magic == nbd::REQUEST_MAGIC,
        nbd::command_of(request.kind) is Write ==> old(buffer)@.len() == request.len as nat,
    ensures
        (out is Respond) <==> (nbd::command_of(request.kind) is Write || nbd::command_of(
            request.kind,
        ) is Flush || nbd::command_of(request.kind) is Trim),
        (out is RespondPayload) <==> nbd::command_of(request.kind) is Read,
        (out is Disconnected) <==> nbd::command_of(request.kind) is Disconnect,
        (out is UnknownCommand) <==> nbd::command_of(request.kind) is Unknown,
        match out {
            Outcome::Respond(rep) => rep.magic == nbd::REPLY_MAGIC && rep.handle == request.handle,
            Outcome::RespondPayload(rep) => rep.magic == nbd::REPLY_MAGIC && rep.handle
                == request.handle && final(buffer)@.len() == request.len as nat,
            Outcome::Disconnected => true,
            Outcome::UnknownCommand => true,
        },
        !(nbd::command_of(request.kind) is Read) ==> final(buffer)@ == old(buffer)@,
{
    match request.command() {
        nbd::Command::Read => {
            prepare_payload_buffer(buffer, request.len() as usize);
            let result = device.read(request.offset(), buffer);
            Outcome::RespondPayload(reply_for_result(request, &result))
        },
        nbd::Command::Write => {
            let result = device.write(request.offset(), buffer.as_slice());
            Outcome::Respond(reply_for_result(request, &result))
        },
        nbd::Command::Flush => {
            let result = device.flush();
            Outcome::Respond(reply_for_result(request, &result))
        },
        nbd::Command::Trim => {
            let result = device.trim(request.offset(), request.len());
            Outcome::Respond(reply_for_result(request, &result))
        },
        nbd::Command::Disconnect => {
            device.unmount();
            Outcome::Disconnected
        },
        nbd::Command::Unknown => Outcome::UnknownCommand,
    }
}

} // verus!
