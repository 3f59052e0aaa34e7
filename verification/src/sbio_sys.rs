#![allow(non_camel_case_types)]

use vstd::prelude::*;
use crate::error::SbioError;
use crate::text::{is_c_string, is_c_text, is_text, read_back, read_text};

verus! {

/// Access type of a channel that is only read.
pub const GRE_IO_TYPE_RDONLY: u32 = 0x0;

/// Access type of a channel that is only read, by one reader at most.
pub const GRE_IO_TYPE_XRDONLY: u32 = 0x1;

/// Access type of a channel that is only written.
pub const GRE_IO_TYPE_WRONLY: u32 = 0x2;

/// Flag of a channel whose receive returns at once when nothing is pending.
pub const GRE_IO_FLAG_NONBLOCK: u32 = 0x10;

/// The status with which the transport reports that a send or a receive
/// failed.
pub const GRE_IO_FAILED: i32 = -1;

/// How a channel is opened: one access type, and flags that combine with it.
#[derive(Clone, Copy, Debug, PartialEq, Eq, Structural)]
pub struct SBIO_FLAGS(pub u32);

impl SBIO_FLAGS {
    /// The channel is only read.
    pub fn rdonly() -> (flags: SBIO_FLAGS)
        ensures
            flags@ == GRE_IO_TYPE_RDONLY,
    {
        SBIO_FLAGS(GRE_IO_TYPE_RDONLY)
    }

    /// The channel is only read, by one reader at most.
    pub fn xrdonly() -> (flags: SBIO_FLAGS)
        ensures
            flags@ == GRE_IO_TYPE_XRDONLY,
    {
        SBIO_FLAGS(GRE_IO_TYPE_XRDONLY)
    }

    /// The channel is only written.
    pub fn wronly() -> (flags: SBIO_FLAGS)
        ensures
            flags@ == GRE_IO_TYPE_WRONLY,
    {
        SBIO_FLAGS(GRE_IO_TYPE_WRONLY)
    }

    /// A receive on the channel returns at once when nothing is pending.
    pub fn nonblock() -> (flags: SBIO_FLAGS)
        ensures
            flags@ == GRE_IO_FLAG_NONBLOCK,
    {
        SBIO_FLAGS(GRE_IO_FLAG_NONBLOCK)
    }

    /// The bits of the flags, as the transport takes them.
    pub open spec fn view(&self) -> u32 {
        self.0
    }

    /// The bits of the flags.
    pub fn bits(&self) -> (bits: u32)
        ensures
            bits == self@,
    {
        self.0
    }

    /// The bits of the flags.
    pub fn as_u32(&self) -> (bits: u32)
        ensures
            bits == self@,
    {
        self.bits()
    }

    /// The flags that are set in `self` or in `other`.
    pub fn union(self, other: SBIO_FLAGS) -> (both: SBIO_FLAGS)
        ensures
            both@ == self@ | other@,
    {
        SBIO_FLAGS(self.0 | other.0)
    }

    /// Whether every bit of `other` is set in `self`.
    pub fn contains(&self, other: SBIO_FLAGS) -> (all: bool)
        ensures
            all == (self@ & other@ == other@),
    {
        self.0 & other.0 == other.0
    }
}

impl core::ops::BitOr for SBIO_FLAGS {
    type Output = SBIO_FLAGS;

    fn bitor(self, other: SBIO_FLAGS) -> (both: SBIO_FLAGS) {
        self.union(other)
    }
}

impl vstd::std_specs::ops::BitOrSpecImpl for SBIO_FLAGS {
    open spec fn obeys_bitor_spec() -> bool {
        true
    }

    open spec fn bitor_req(self, other: SBIO_FLAGS) -> bool {
        true
    }

    open spec fn bitor_spec(self, other: SBIO_FLAGS) -> SBIO_FLAGS {
        SBIO_FLAGS(self@ | other@)
    }
}

/// A channel that the transport opened. The value is the transport's own
/// handle and is never null; it is handed back to the transport to send, to
/// receive and, once, to close.
pub struct sbio_channel_handle {
    channel_handle: usize,
}

impl sbio_channel_handle {
    #[verifier::type_invariant]
    spec fn is_open_channel(&self) -> bool {
        self.channel_handle != 0
    }

    /// The transport's handle.
    pub closed spec fn view(&self) -> usize {
        self.channel_handle
    }

    /// The transport's handle, for the next call on this channel.
    pub fn raw(&self) -> (raw: usize)
        ensures
            raw == self@,
            raw != 0,
    {
        proof {
            use_type_invariant(self);
        }
        self.channel_handle
    }
}

/// One buffer of the transport that holds a serialized event, with the size
/// that the transport gave for it. Whoever holds the value owns the buffer
/// and has to release it, once.
pub struct sbio_serialized_data {
    buffer: usize,
    pub size: i32,
}

impl sbio_serialized_data {
    /// The transport's buffer, and the size that the transport gave for it.
    pub closed spec fn view(&self) -> (usize, i32) {
        (self.buffer, self.size)
    }

    /// The transport's buffer, for a call that reads it.
    pub fn raw(&self) -> (raw: usize)
        ensures
            raw == self@.0,
    {
        self.buffer
    }

    /// The size that the transport gave for the buffer.
    pub fn size(&self) -> (size: i32)
        ensures
            size == self@.1,
    {
        self.size
    }
}

/// What the transport reports to be in a serialized buffer: the three strings
/// as the bytes before their terminating NUL, the payload, and the payload's
/// size.
pub struct RawEvent {
    pub target: Vec<u8>,
    pub name: Vec<u8>,
    pub format: Vec<u8>,
    pub data: Vec<u8>,
    pub size: i32,
}

/// The strings of an event, read from what the transport reports.
pub struct EventText<'a> {
    pub target: &'a str,
    pub name: &'a str,
    pub format: &'a str,
}

/// Whether a channel of this name can be asked of the transport at all.
pub open spec fn can_open(channel_name: Seq<char>) -> bool {
    is_c_text(channel_name)
}

/// Whether an event of these strings can be asked of the transport at all.
pub open spec fn can_serialize(target: Seq<char>, name: Seq<char>, format: Seq<char>) -> bool {
    is_c_text(target) && is_c_text(name) && is_c_text(format)
}

/// Whether all three strings of a reported event can be read.
pub open spec fn can_unserialize(raw: RawEvent) -> bool {
    is_text(raw.target@) && is_text(raw.name@) && is_text(raw.format@)
}

/// The outcome of opening the channel `channel_name`, where `raw` is what
/// the transport returned for it, or null where it was not asked. A name
/// that holds a NUL cannot be asked for; a null handle means that the
/// transport could not open the channel.
pub fn open(channel_name: &str, raw: usize) -> (opened: Result<sbio_channel_handle, SbioError>)
    ensures
        opened is Ok <==> can_open(channel_name@) && raw != 0,
        opened matches Ok(handle) ==> handle@ == raw,
        opened matches Err(e) ==> e == SbioError::Connection,
{
    if raw == 0 || !is_c_string(channel_name) {
        Err(SbioError::Connection)
    } else {
        Ok(sbio_channel_handle { channel_handle: raw })
    }
}

/// Gives up the channel: the result is the handle that the transport has to
/// close.
pub fn close(channel_handle: sbio_channel_handle) -> (raw: usize)
    ensures
        raw == channel_handle@,
        raw != 0,
{
    channel_handle.raw()
}

/// The outcome of serializing an event, where `raw_buffer` is the buffer
/// that the transport returned, or null where it was not asked. Strings that
/// hold a NUL cannot be serialized; a null buffer means that the transport
/// could not serialize the event. The buffer carries the size that was
/// asked for, as the transport counts it.
pub fn serialize(target: &str, name: &str, format: &str, size: u32, raw_buffer: usize) -> (serialized:
    Result<sbio_serialized_data, SbioError>)
    ensures
        serialized is Ok <==> can_serialize(target@, name@, format@) && raw_buffer != 0,
        serialized matches Ok(buffer) ==> buffer@ == (raw_buffer, size as i32),
        serialized matches Err(e) ==> e == SbioError::Serialization,
{
    if raw_buffer == 0 || !is_c_string(target) || !is_c_string(name) || !is_c_string(format) {
        Err(SbioError::Serialization)
    } else {
        Ok(sbio_serialized_data { buffer: raw_buffer, size: #[verifier::truncate] (size as i32) })
    }
}

/// Reads the three strings of an event from what the transport reports. A
/// string that is no valid UTF-8 is a serialization error.
pub fn unserialize<'a>(raw: &'a RawEvent) -> (event: Result<EventText<'a>, SbioError>)
    ensures
        event is Ok <==> can_unserialize(*raw),
        event matches Ok(text) ==> {
            &&& text.target@ == read_back(raw.target@)
            &&& text.name@ == read_back(raw.name@)
            &&& text.format@ == read_back(raw.format@)
        },
        event matches Err(e) ==> e == SbioError::Serialization,
{
    let target = read_text(raw.target.as_slice())?;
    let name = read_text(raw.name.as_slice())?;
    let format = read_text(raw.format.as_slice())?;
    Ok(EventText { target, name, format })
}

/// Reads the name of an event alone, from the bytes that the transport
/// reports for it.
pub fn unserialize_event_name(name: &[u8]) -> (event_name: Result<&str, SbioError>)
    ensures
        event_name is Ok <==> is_text(name@),
        event_name matches Ok(text) ==> text@ == read_back(name@),
        event_name matches Err(e) ==> e == SbioError::Serialization,
{
    read_text(name)
}

/// Gives up the buffer: the result is what the transport has to free.
pub fn free_buffer(buffer: sbio_serialized_data) -> (raw: usize)
    ensures
        raw == buffer@.0,
{
    buffer.buffer
}

/// The outcome of a send, where `status` is what the transport returned:
/// the number of bytes sent, or the mark of a failure.
pub fn send(status: i32) -> (sent: Result<i32, SbioError>)
    ensures
        sent == if status == GRE_IO_FAILED {
            Err::<i32, SbioError>(SbioError::Send)
        } else {
            Ok::<i32, SbioError>(status)
        },
{
    if status == GRE_IO_FAILED {
        Err(SbioError::Send)
    } else {
        Ok(status)
    }
}

/// The outcome of a receive, where `status` is what the transport returned,
/// the size of the event or the mark of a failure, and `raw_buffer` the
/// buffer that it filled.
pub fn receive(status: i32, raw_buffer: usize) -> (received: Result<sbio_serialized_data, SbioError>)
    ensures
        received is Ok <==> status != GRE_IO_FAILED,
        received matches Ok(buffer) ==> buffer@ == (raw_buffer, status),
        received matches Err(e) ==> e == SbioError::Receive,
{
    if status == GRE_IO_FAILED {
        Err(SbioError::Receive)
    } else {
        Ok(sbio_serialized_data { buffer: raw_buffer, size: status })
    }
}

} // verus!
