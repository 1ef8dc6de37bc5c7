use vstd::prelude::*;

use crate::address::{address_bytes_of, hex_text, is_address_text, Address, ADDRESS_SIZE};
use crate::model::{
    Acknowledge, AcknowledgeKind, Broadcast, CallAnswer, CallAudioData, CallInvoke, CallReject,
    ChatCreate, Contact, ContactConnect, FileChunk, FileStart, Message,
};

verus! {

/// Every message the protocol carries between peers and to the platform.
#[derive(Clone, Debug, PartialEq, Eq)]
pub enum Event {
    ContactFound(Contact),
    Message(Message),
    Acknowledge(Acknowledge),
    FileStart(FileStart),
    FileChunk(FileChunk),
    ContactConnect(ContactConnect),
    ChatCreate(ChatCreate),
    Broadcast(Broadcast),
    CallInvoke(CallInvoke),
    CallAnswer(CallAnswer),
    CallReject(CallReject),
    CallAudioData(CallAudioData),
}

/// The identifier under which an event is deduplicated and acknowledged.
pub open spec fn id_of(e: Event) -> Seq<char> {
    match e {
        Event::ContactFound(c) => c.address@,
        Event::Message(m) => m.id@,
        Event::Acknowledge(a) => a.id@,
        Event::FileStart(f) => f.id@,
        Event::FileChunk(f) => f.id@,
        Event::ContactConnect(c) => c.address@,
        Event::ChatCreate(c) => c.chat_id@,
        Event::Broadcast(b) => b.id@,
        Event::CallInvoke(c) => c.id@,
        Event::CallAnswer(c) => c.id@,
        Event::CallReject(c) => c.id@,
        Event::CallAudioData(c) => c.call_id@,
    }
}

/// The kind of acknowledgment that answers an event.
pub open spec fn ack_kind_of(e: Event) -> AcknowledgeKind {
    match e {
        Event::Message(_) => AcknowledgeKind::Message,
        Event::ChatCreate(_) => AcknowledgeKind::Chat,
        Event::FileStart(_) => AcknowledgeKind::FileStart,
        Event::FileChunk(_) => AcknowledgeKind::FileChunk,
        Event::CallInvoke(_) => AcknowledgeKind::CallInvoke,
        Event::CallReject(_) => AcknowledgeKind::CallReject,
        Event::CallAnswer(_) => AcknowledgeKind::CallAnswer,
        Event::Acknowledge(a) => a.kind,
        _ => AcknowledgeKind::Generic,
    }
}

/// The address field of an event; an acknowledgment has none.
pub open spec fn address_field(e: Event) -> Option<Seq<char>> {
    match e {
        Event::ContactFound(c) => Some(c.address@),
        Event::Message(m) => Some(m.address@),
        Event::Acknowledge(_) => None,
        Event::FileStart(f) => Some(f.address@),
        Event::FileChunk(f) => Some(f.address@),
        Event::ContactConnect(c) => Some(c.address@),
        Event::ChatCreate(c) => Some(c.address@),
        Event::Broadcast(b) => Some(b.address@),
        Event::CallInvoke(c) => Some(c.address@),
        Event::CallAnswer(c) => Some(c.address@),
        Event::CallReject(c) => Some(c.address@),
        Event::CallAudioData(c) => Some(c.address@),
    }
}

/// Whether two events are of one variant and agree in every field but the address.
pub open spec fn same_but_address(a: Event, b: Event) -> bool {
    match (a, b) {
        (Event::ContactFound(x), Event::ContactFound(y)) => x.contact == y.contact,
        (Event::Message(x), Event::Message(y)) => {
            &&& x.id == y.id
            &&& x.chat_id == y.chat_id
            &&& x.timestamp == y.timestamp
            &&& x.text == y.text
        },
        (Event::Acknowledge(x), Event::Acknowledge(y)) => x == y,
        (Event::FileStart(x), Event::FileStart(y)) => {
            &&& x.id == y.id
            &&& x.file_id == y.file_id
            &&& x.chat_id == y.chat_id
            &&& x.file_size == y.file_size
            &&& x.file_name == y.file_name
        },
        (Event::FileChunk(x), Event::FileChunk(y)) => {
            &&& x.id == y.id
            &&& x.file_id == y.file_id
            &&& x.chat_id == y.chat_id
            &&& x.data == y.data
        },
        (Event::ContactConnect(_), Event::ContactConnect(_)) => true,
        (Event::ChatCreate(x), Event::ChatCreate(y)) => {
            x.chat_id == y.chat_id && x.chat_name == y.chat_name
        },
        (Event::Broadcast(x), Event::Broadcast(y)) => {
            &&& x.id == y.id
            &&& x.topic == y.topic
            &&& x.data == y.data
        },
        (Event::CallInvoke(x), Event::CallInvoke(y)) => x.id == y.id && x.call_id == y.call_id,
        (Event::CallAnswer(x), Event::CallAnswer(y)) => x.id == y.id && x.call_id == y.call_id,
        (Event::CallReject(x), Event::CallReject(y)) => x.id == y.id && x.call_id == y.call_id,
        (Event::CallAudioData(x), Event::CallAudioData(y)) => {
            x.call_id == y.call_id && x.data == y.data
        },
        _ => false,
    }
}

/// The text of the address that a reply to an event goes to: none for an
/// acknowledgment or a broadcast.
pub open spec fn reply_address_text(e: Event) -> Option<Seq<char>> {
    match e {
        Event::Acknowledge(_) | Event::Broadcast(_) => None,
        _ => address_field(e),
    }
}

/// The bytes of the address that a reply to an event goes to: all zero where
/// the event names none or its text is no address.
pub open spec fn reply_address_bytes(e: Event) -> Seq<u8> {
    match reply_address_text(e) {
        Some(t) => if is_address_text(t) {
            address_bytes_of(t)
        } else {
            Seq::new(ADDRESS_SIZE as nat, |i: int| 0u8)
        },
        None => Seq::new(ADDRESS_SIZE as nat, |i: int| 0u8),
    }
}

impl Event {
    pub fn to_id(&self) -> (r: String)
        ensures
            r@ == id_of(*self),
    {
        match self {
            Event::ContactFound(contact) => contact.address.clone(),
            Event::Message(message) => message.id.clone(),
            Event::Acknowledge(acknowledge) => acknowledge.id.clone(),
            Event::FileStart(file_start) => file_start.id.clone(),
            Event::FileChunk(file_chunk) => file_chunk.id.clone(),
            Event::ContactConnect(connect) => connect.address.clone(),
            Event::ChatCreate(chat) => chat.chat_id.clone(),
            Event::Broadcast(broadcast) => broadcast.id.clone(),
            Event::CallInvoke(call) => call.id.clone(),
            Event::CallAnswer(call) => call.id.clone(),
            Event::CallReject(call) => call.id.clone(),
            Event::CallAudioData(call) => call.call_id.clone(),
        }
    }

    pub fn to_ack_kind(&self) -> (r: AcknowledgeKind)
        ensures
            r == ack_kind_of(*self),
    {
        match self {
            Event::Message(_) => AcknowledgeKind::Message,
            Event::ChatCreate(_) => AcknowledgeKind::Chat,
            Event::FileStart(_) => AcknowledgeKind::FileStart,
            Event::FileChunk(_) => AcknowledgeKind::FileChunk,
            Event::ContactFound(_) => AcknowledgeKind::Generic,
            Event::CallAudioData(_) => AcknowledgeKind::Generic,
            Event::ContactConnect(_) => AcknowledgeKind::Generic,
            Event::Broadcast(_) => AcknowledgeKind::Generic,
            Event::CallInvoke(_) => AcknowledgeKind::CallInvoke,
            Event::CallReject(_) => AcknowledgeKind::CallReject,
            Event::CallAnswer(_) => AcknowledgeKind::CallAnswer,
            Event::Acknowledge(acknowledge) => acknowledge.kind,
        }
    }

    /// Sets the event's address field to `address`; an acknowledgment is left as it is.
    pub fn change_address(&mut self, address: &Address)
        ensures
            same_but_address(*old(self), *final(self)),
            address_field(*final(self)) == (match address_field(*old(self)) {
                Some(_) => Some(hex_text(address.bytes@)),
                None => None::<Seq<char>>,
            }),
    {
        let address = address.to_hex();
        match self {
            Event::ContactFound(contact) => {
                contact.address = address;
            },
            Event::Message(message) => {
                message.address = address;
            },
            Event::CallAudioData(call_audio_data) => {
                call_audio_data.address = address;
            },
            Event::FileStart(file_start) => {
                file_start.address = address;
            },
            Event::FileChunk(file_chunk) => {
                file_chunk.address = address;
            },
            Event::ContactConnect(connect) => {
                connect.address = address;
            },
            Event::ChatCreate(chat) => {
                chat.address = address;
            },
            Event::Broadcast(broadcast) => {
                broadcast.address = address;
            },
            Event::CallInvoke(call) => {
                call.address = address;
            },
            Event::CallAnswer(call) => {
                call.address = address;
            },
            Event::CallReject(call) => {
                call.address = address;
            },
            Event::Acknowledge(_) => {},
        }
    }

    /// The address that a reply to this event goes to.
    pub fn address_hash(&self) -> (r: Address)
        ensures
            r.bytes@ == reply_address_bytes(*self),
    {
        let text = match self {
            Event::ContactFound(contact) => Some(contact.address.as_str()),
            Event::Message(message) => Some(message.address.as_str()),
            Event::FileStart(file_start) => Some(file_start.address.as_str()),
            Event::FileChunk(file_chunk) => Some(file_chunk.address.as_str()),
            Event::ContactConnect(connect) => Some(connect.address.as_str()),
            Event::ChatCreate(chat) => Some(chat.address.as_str()),
            Event::Broadcast(_) => None,
            Event::CallInvoke(call) => Some(call.address.as_str()),
            Event::CallAnswer(call) => Some(call.address.as_str()),
            Event::CallReject(call) => Some(call.address.as_str()),
            Event::CallAudioData(audio_data) => Some(audio_data.address.as_str()),
            Event::Acknowledge(_) => None,
        };
        match text {
            Some(t) => match Address::from_hex(t) {
                Some(a) => a,
                None => Address::empty(),
            },
            None => Address::empty(),
        }
    }
}

} // verus!
