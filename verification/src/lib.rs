//! Publish and subscribe over a named messaging channel.
//!
//! The crate holds what is decided: which observers an event goes to and in
//! which order, what state a connection is in and what is allowed in it,
//! when the dispatch loop ends, and what each answer of the transport
//! means. It never calls the transport. Whoever drives it opens, sends,
//! receives and frees, and hands each answer of the transport to the
//! function that decides on it.

use vstd::prelude::*;

pub mod connection;
pub mod error;
pub mod event;
pub mod observer;
pub mod sbio_sys;
pub mod text;

pub use crate::connection::SbioConnection;
pub use crate::error::SbioError;
pub use crate::event::SbioSerializeData;

use crate::connection::ConnectionView;
use crate::event::EventView;
use crate::sbio_sys::{
    can_open, can_serialize, RawEvent, GRE_IO_FLAG_NONBLOCK, GRE_IO_TYPE_RDONLY,
    GRE_IO_TYPE_WRONLY, SBIO_FLAGS,
};

verus! {

/// Where connections and serialized events are made. It holds nothing.
#[derive(Clone, Copy, Debug)]
pub struct Sbio();

impl Sbio {
    /// The flags of a connection that sends: the channel is only written.
    pub open spec fn send_preset() -> u32 {
        GRE_IO_TYPE_WRONLY
    }

    /// The flags of a connection that receives: the channel is only read,
    /// and a receive on it does not block, so that a dispatch loop sees
    /// soon that it was asked to end.
    pub open spec fn receive_preset() -> u32 {
        GRE_IO_TYPE_RDONLY | GRE_IO_FLAG_NONBLOCK
    }

    /// The flags with which `connect_send` expects the channel to be open.
    pub fn send_flags() -> (flags: SBIO_FLAGS)
        ensures
            flags@ == Sbio::send_preset(),
    {
        SBIO_FLAGS::wronly()
    }

    /// The flags with which `connect_receive` expects the channel to be
    /// open.
    pub fn receive_flags() -> (flags: SBIO_FLAGS)
        ensures
            flags@ == Sbio::receive_preset(),
            flags@ & GRE_IO_FLAG_NONBLOCK == GRE_IO_FLAG_NONBLOCK,
    {
        assert((0x0u32 | 0x10u32) & 0x10u32 == 0x10u32) by (bit_vector);
        SBIO_FLAGS::rdonly().union(SBIO_FLAGS::nonblock())
    }

    /// Makes the connection to the channel `channel_name`, where `raw` is
    /// what the transport returned when it was asked to open the channel
    /// with `flags`, or null where it was not asked. There is a connection,
    /// and an open one, exactly when the transport opened the channel;
    /// else there is the error alone.
    pub fn connect(&mut self, channel_name: &str, flags: SBIO_FLAGS, raw: usize) -> (connection:
        Result<SbioConnection, SbioError>)
        ensures
            connection is Ok <==> can_open(channel_name@) && raw != 0,
            connection matches Ok(made) ==> made@ == ConnectionView::opened(flags@, raw),
            connection matches Err(e) ==> e == SbioError::Connection,
    {
        match crate::sbio_sys::open(channel_name, raw) {
            Ok(handle) => Ok(SbioConnection::new(flags, handle)),
            Err(e) => Err(e),
        }
    }

    /// Makes a connection that sends.
    pub fn connect_send(&mut self, channel_name: &str, raw: usize) -> (connection: Result<
        SbioConnection,
        SbioError,
    >)
        ensures
            connection is Ok <==> can_open(channel_name@) && raw != 0,
            connection matches Ok(made) ==> made@ == ConnectionView::opened(Sbio::send_preset(), raw),
            connection matches Err(e) ==> e == SbioError::Connection,
    {
        self.connect(channel_name, Sbio::send_flags(), raw)
    }

    /// Makes a connection that receives, and does not block when it does.
    pub fn connect_receive(&mut self, channel_name: &str, raw: usize) -> (connection: Result<
        SbioConnection,
        SbioError,
    >)
        ensures
            connection is Ok <==> can_open(channel_name@) && raw != 0,
            connection matches Ok(made) ==> made@ == ConnectionView::opened(
                Sbio::receive_preset(),
                raw,
            ),
            connection matches Err(e) ==> e == SbioError::Connection,
    {
        self.connect(channel_name, Sbio::receive_flags(), raw)
    }

    /// Makes the serialized event of `target`, `name` and `format` with a
    /// payload of `size` bytes, where `raw_buffer` is the buffer that the
    /// transport returned when it was asked to serialize them, or null
    /// where it was not asked, and `fields` is what it reports to be in
    /// that buffer.
    pub fn serialize(
        &mut self,
        target: &str,
        name: &str,
        format: &str,
        size: u32,
        raw_buffer: usize,
        fields: RawEvent,
    ) -> (serialized: Result<SbioSerializeData, SbioError>)
        ensures
            serialized is Ok <==> can_serialize(target@, name@, format@) && raw_buffer != 0,
            serialized matches Ok(event) ==> event@ == (EventView {
                buffer: raw_buffer,
                size: size as i32,
                target: fields.target@,
                name: fields.name@,
                format: fields.format@,
                data: fields.data@,
                data_size: fields.size,
            }),
            serialized matches Err(e) ==> e == SbioError::Serialization,
    {
        match crate::sbio_sys::serialize(target, name, format, size, raw_buffer) {
            Ok(buffer) => Ok(SbioSerializeData::new(buffer, fields)),
            Err(e) => Err(e),
        }
    }
}

} // verus!
