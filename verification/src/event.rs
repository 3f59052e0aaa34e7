use vstd::prelude::*;
use crate::error::SbioError;
use crate::sbio_sys::{sbio_serialized_data, RawEvent};
use crate::text::{is_text, lemma_text_round_trip, read_back, read_text, wire_text};

verus! {

/// What a serialized event is, in contracts: the buffer that it owns, the
/// size that the transport gave for the buffer, and what the transport
/// reports to be in it.
pub struct EventView {
    pub buffer: usize,
    pub size: i32,
    pub target: Seq<u8>,
    pub name: Seq<u8>,
    pub format: Seq<u8>,
    pub data: Seq<u8>,
    pub data_size: i32,
}

impl EventView {
    /// Whether the payload can be read: the transport gave a size for it,
    /// and as many bytes.
    pub open spec fn has_data(self) -> bool {
        0 <= self.data_size && self.data.len() == self.data_size
    }

    /// Whether the buffer holds exactly what was serialized: the three
    /// strings as they go to the transport, and the payload.
    pub open spec fn carries(self, target: Seq<char>, name: Seq<char>, format: Seq<char>, data: Seq<u8>) -> bool {
        &&& self.target == wire_text(target)
        &&& self.name == wire_text(name)
        &&& self.format == wire_text(format)
        &&& self.data == data
        &&& self.data_size == data.len()
    }
}

/// An event whose buffer holds what was serialized reads back as it was
/// written: the same target, name and format, and a payload of the same
/// size and bytes.
pub proof fn lemma_event_round_trip(
    event: EventView,
    target: Seq<char>,
    name: Seq<char>,
    format: Seq<char>,
    data: Seq<u8>,
)
    requires
        event.carries(target, name, format, data),
    ensures
        is_text(event.target) && read_back(event.target) == target,
        is_text(event.name) && read_back(event.name) == name,
        is_text(event.format) && read_back(event.format) == format,
        event.has_data() && event.data == data,
{
    lemma_text_round_trip(target);
    lemma_text_round_trip(name);
    lemma_text_round_trip(format);
}

/// One serialized event: the owner of one buffer of the transport.
///
/// The strings are read when they are asked for. One that cannot be read is
/// an error of that accessor alone: the buffer is given up by `release` all
/// the same. The value cannot be copied, so the buffer is given up once at
/// most.
pub struct SbioSerializeData {
    buffer: sbio_serialized_data,
    fields: RawEvent,
}

impl SbioSerializeData {
    /// The event, as contracts see it.
    pub closed spec fn view(&self) -> EventView {
        EventView {
            buffer: self.buffer@.0,
            size: self.buffer@.1,
            target: self.fields.target@,
            name: self.fields.name@,
            format: self.fields.format@,
            data: self.fields.data@,
            data_size: self.fields.size,
        }
    }

    /// Wraps `buffer`, with what the transport reports to be in it.
    pub fn new(buffer: sbio_serialized_data, fields: RawEvent) -> (event: SbioSerializeData)
        ensures
            event@ == (EventView {
                buffer: buffer@.0,
                size: buffer@.1,
                target: fields.target@,
                name: fields.name@,
                format: fields.format@,
                data: fields.data@,
                data_size: fields.size,
            }),
    {
        SbioSerializeData { buffer, fields }
    }

    /// The name of the event.
    pub fn name(&self) -> (name: Result<&str, SbioError>)
        ensures
            name is Ok <==> is_text(self@.name),
            name matches Ok(text) ==> text@ == read_back(self@.name),
            name matches Err(e) ==> e == SbioError::Serialization,
    {
        read_text(self.fields.name.as_slice())
    }

    /// The target of the event.
    pub fn target(&self) -> (target: Result<&str, SbioError>)
        ensures
            target is Ok <==> is_text(self@.target),
            target matches Ok(text) ==> text@ == read_back(self@.target),
            target matches Err(e) ==> e == SbioError::Serialization,
    {
        read_text(self.fields.target.as_slice())
    }

    /// The format descriptor of the payload. It is the transport's to
    /// interpret, and is passed on as it is.
    pub fn format(&self) -> (format: Result<&str, SbioError>)
        ensures
            format is Ok <==> is_text(self@.format),
            format matches Ok(text) ==> text@ == read_back(self@.format),
            format matches Err(e) ==> e == SbioError::Serialization,
    {
        read_text(self.fields.format.as_slice())
    }

    /// The payload, as bytes that the format descriptor lays out. Where the
    /// transport gave no size for it, or another number of bytes, it cannot
    /// be read.
    pub fn data(&self) -> (data: Result<&Vec<u8>, SbioError>)
        ensures
            data is Ok <==> self@.has_data(),
            data matches Ok(bytes) ==> bytes@ == self@.data,
            data matches Err(e) ==> e == SbioError::Serialization,
    {
        if self.fields.size >= 0 && self.fields.data.len() == self.fields.size as usize {
            Ok(&self.fields.data)
        } else {
            Err(SbioError::Serialization)
        }
    }

    /// The size that the transport gave for the buffer.
    pub fn size(&self) -> (size: i32)
        ensures
            size == self@.size,
    {
        self.buffer.size()
    }

    /// The buffer, for a call of the transport that reads it.
    pub fn buffer(&self) -> (buffer: &sbio_serialized_data)
        ensures
            buffer@ == (self@.buffer, self@.size),
    {
        &self.buffer
    }

    /// Ends the event and gives up its buffer, which the transport has to
    /// free. This neither reads the buffer nor can it fail.
    pub fn release(self) -> (buffer: sbio_serialized_data)
        ensures
            buffer@ == (self@.buffer, self@.size),
    {
        self.buffer
    }
}

} // verus!
