use vstd::prelude::*;

use crate::ack_manager::{after_ack, AckManager};
use crate::address::{address_bytes_of, hex_text, is_address_text, Address};
use crate::cache::{after_insert, after_inserts, CacheSet};
use crate::event::{
    ack_kind_of, address_field, id_of, reply_address_bytes, same_but_address, Event,
};
use crate::model::{
    Acknowledge, AnnounceData, Broadcast, CallAnswer, CallAudioData, CallInvoke, CallReject,
    ChatCreate, Contact, FileChunk, FileStart, Message, MessengerError,
};

verus! {

/// The largest payload of one transport packet.
pub const PACKET_MDU: usize = 2048;

/// What the local client asks the messenger to do.
pub enum MessengerCommand {
    SendMessage(Message),
    CallInvoke(CallInvoke),
    CallAnswer(CallAnswer),
    CallReject(CallReject),
    CallAudioData(CallAudioData),
    SendFileStart(FileStart),
    SendFileChunk(FileChunk),
    Broadcast(Broadcast),
    ChatCreate(ChatCreate),
}

/// The host application that receives what the messenger delivers.
pub trait Platform {
    fn send_event(&mut self, event: &Event);

    fn feed_audio(&mut self, address: &String, call_id: &String, audio_data: &[u8]);

    fn request_file_chunk(&mut self, address: &String, file_id: &String, chunk_size: usize);

    fn receive_file_chunk(&mut self, address: &String, file_id: &String, data: &[u8]);

    fn receive_broadcast(&mut self, address: &String, id: &String, topic: &String, data: &[u8]);
}

/// One call to make on the platform.
#[derive(Clone, Debug, PartialEq, Eq)]
pub enum Delivery {
    /// `send_event`
    Event(Event),
    /// `feed_audio`
    Audio { address: String, call_id: String, data: Vec<u8> },
    /// `request_file_chunk`
    ChunkRequest { address: String, file_id: String, chunk_size: usize },
    /// `receive_file_chunk`
    FileChunk { address: String, file_id: String, data: Vec<u8> },
    /// `receive_broadcast`
    Broadcast { address: String, id: String, topic: String, data: Vec<u8> },
}

/// Makes on `platform` the call that `delivery` describes.
pub fn deliver<P: Platform>(platform: &mut P, delivery: Delivery) {
    match delivery {
        Delivery::Event(event) => platform.send_event(&event),
        Delivery::Audio { address, call_id, data } => {
            platform.feed_audio(&address, &call_id, data.as_slice())
        },
        Delivery::ChunkRequest { address, file_id, chunk_size } => {
            platform.request_file_chunk(&address, &file_id, chunk_size)
        },
        Delivery::FileChunk { address, file_id, data } => {
            platform.receive_file_chunk(&address, &file_id, data.as_slice())
        },
        Delivery::Broadcast { address, id, topic, data } => {
            platform.receive_broadcast(&address, &id, &topic, data.as_slice())
        },
    }
}

/// How many identifiers the messenger remembers for deduplication.
pub const KNOWN_IDS_CAPACITY: usize = 512;

/// An acknowledgment to send back, and where to.
#[derive(Clone, Debug, PartialEq, Eq)]
pub struct Reply {
    pub to: Address,
    pub ack: Acknowledge,
}

/// What the messenger does about one inbound event.
#[derive(Clone, Debug, PartialEq, Eq)]
pub struct Inbound {
    /// The platform call to make, if any.
    pub delivery: Option<Delivery>,
    /// The acknowledgment to send back, if any.
    pub reply: Option<Reply>,
}

/// The events that are acknowledged, and delivered once.
pub open spec fn is_request(e: Event) -> bool {
    match e {
        Event::ChatCreate(_) | Event::Message(_) | Event::FileStart(_) | Event::FileChunk(_)
        | Event::CallInvoke(_) | Event::CallAnswer(_) | Event::CallReject(_) => true,
        _ => false,
    }
}

/// The events whose identifier passes through the dedup cache.
pub open spec fn is_deduplicated(e: Event) -> bool {
    is_request(e) || e is Broadcast
}

/// The events whose identifier resolves a waiting sender.
pub open spec fn resolves_waiter(e: Event) -> bool {
    is_request(e) || e is Acknowledge
}

/// What a request-side event delivers to the platform, where `fresh` tells
/// whether its identifier was not seen before.
pub open spec fn request_delivery(e: Event, fresh: bool) -> Option<Delivery> {
    match e {
        Event::CallAudioData(c) => Some(
            Delivery::Audio { address: c.address, call_id: c.call_id, data: c.data },
        ),
        Event::FileChunk(c) => if fresh {
            Some(Delivery::FileChunk { address: c.address, file_id: c.file_id, data: c.data })
        } else {
            None
        },
        Event::Broadcast(b) => if fresh {
            Some(
                Delivery::Broadcast { address: b.address, id: b.id, topic: b.topic, data: b.data },
            )
        } else {
            None
        },
        _ => if is_request(e) && fresh {
            Some(Delivery::Event(e))
        } else {
            None
        },
    }
}

/// The protocol state that the messenger's tasks share: the dedup cache and
/// the pending acknowledgments.
pub struct MessengerHandler {
    pub known_ids: CacheSet,
    pub ack_manager: AckManager,
}

impl MessengerHandler {
    /// The dedup cache holds `KNOWN_IDS_CAPACITY` identifiers, none twice,
    /// and no identifier has two waiters.
    pub open spec fn wf(&self) -> bool {
        &&& self.known_ids.wf()
        &&& self.known_ids.spec_capacity() == KNOWN_IDS_CAPACITY
        &&& self.ack_manager.wf()
    }

    pub fn new() -> (r: Self)
        ensures
            r.wf(),
            r.known_ids@ == Seq::<Seq<char>>::empty(),
            r.known_ids.spec_capacity() == KNOWN_IDS_CAPACITY,
            r.ack_manager@ == Map::<Seq<char>, nat>::empty(),
    {
        MessengerHandler {
            known_ids: CacheSet::new(KNOWN_IDS_CAPACITY),
            ack_manager: AckManager::new(),
        }
    }

    /// Handles a request event: delivers it once, and acknowledges it every
    /// time, to the address it came from.
    pub fn handle_ack_event(&mut self, event: Event) -> (r: Inbound)
        requires
            old(self).wf(),
            is_request(event),
        ensures
            final(self).wf(),
            final(self).known_ids@ == after_insert(
                old(self).known_ids@,
                old(self).known_ids.spec_capacity(),
                id_of(event),
            ),
            final(self).known_ids.spec_capacity() == old(self).known_ids.spec_capacity(),
            final(self).ack_manager@ == after_ack(old(self).ack_manager@, id_of(event)),
            r.delivery == request_delivery(event, !old(self).known_ids@.contains(id_of(event))),
            r.reply is Some,
            r.reply->0.to.bytes@ == reply_address_bytes(event),
            r.reply->0.ack.id@ == id_of(event),
            r.reply->0.ack.kind == ack_kind_of(event),
    {
        let id = event.to_id();
        let ack_kind = event.to_ack_kind();
        let from_address = event.address_hash();

        let fresh = self.known_ids.insert(&id);
        let delivery = if fresh {
            match event {
                Event::FileChunk(chunk) => Some(
                    Delivery::FileChunk {
                        address: chunk.address,
                        file_id: chunk.file_id,
                        data: chunk.data,
                    },
                ),
                _ => Some(Delivery::Event(event)),
            }
        } else {
            None
        };

        let _ = self.ack_manager.handle_ack(&id);
        let ack = Acknowledge::new(id, ack_kind);
        Inbound { delivery, reply: Some(Reply { to: from_address, ack }) }
    }

    /// Handles an event that came in on a link a peer opened.
    pub fn handle_in_event(&mut self, event: Event) -> (r: Inbound)
        requires
            old(self).wf(),
        ensures
            final(self).wf(),
            final(self).known_ids@ == if is_deduplicated(event) {
                after_insert(
                    old(self).known_ids@,
                    old(self).known_ids.spec_capacity(),
                    id_of(event),
                )
            } else {
                old(self).known_ids@
            },
            final(self).known_ids.spec_capacity() == old(self).known_ids.spec_capacity(),
            final(self).ack_manager@ == if resolves_waiter(event) {
                after_ack(old(self).ack_manager@, id_of(event))
            } else {
                old(self).ack_manager@
            },
            r.delivery == request_delivery(event, !old(self).known_ids@.contains(id_of(event))),
            r.reply is Some <==> is_request(event),
            r.reply is Some ==> r.reply->0.to.bytes@ == reply_address_bytes(event),
            r.reply is Some ==> r.reply->0.ack.id@ == id_of(event),
            r.reply is Some ==> r.reply->0.ack.kind == ack_kind_of(event),
    {
        match event {
            Event::CallAudioData(call) => Inbound {
                delivery: Some(
                    Delivery::Audio {
                        address: call.address,
                        call_id: call.call_id,
                        data: call.data,
                    },
                ),
                reply: None,
            },
            Event::ChatCreate(_) | Event::Message(_) | Event::FileStart(_) | Event::FileChunk(_)
            | Event::CallInvoke(_) | Event::CallAnswer(_) | Event::CallReject(_) => {
                self.handle_ack_event(event)
            },
            Event::Acknowledge(ack) => {
                let _ = self.ack_manager.handle_ack(&ack.id);
                Inbound { delivery: None, reply: None }
            },
            Event::ContactFound(_) | Event::ContactConnect(_) => {
                Inbound { delivery: None, reply: None }
            },
            Event::Broadcast(broadcast) => {
                if self.known_ids.insert(&broadcast.id) {
                    Inbound {
                        delivery: Some(
                            Delivery::Broadcast {
                                address: broadcast.address,
                                id: broadcast.id,
                                topic: broadcast.topic,
                                data: broadcast.data,
                            },
                        ),
                        reply: None,
                    }
                } else {
                    Inbound { delivery: None, reply: None }
                }
            },
        }
    }

    /// Handles an event that came in on a link this side opened: only an
    /// acknowledgment matters there, and resolves its waiter.
    pub fn handle_out_event(&mut self, event: Event) -> (r: bool)
        requires
            old(self).wf(),
        ensures
            final(self).wf(),
            final(self).known_ids == old(self).known_ids,
            final(self).ack_manager@ == if event is Acknowledge {
                after_ack(old(self).ack_manager@, id_of(event))
            } else {
                old(self).ack_manager@
            },
            r == (event is Acknowledge && old(self).ack_manager@.dom().contains(id_of(event))),
    {
        match event {
            Event::Acknowledge(ack) => self.ack_manager.handle_ack(&ack.id),
            _ => false,
        }
    }
}

/// Delivered twice to a messenger that has not seen it, a request reaches the
/// platform once, as it came for all but a file chunk, and is acknowledged
/// both times.
pub proof fn lemma_idempotent_delivery(ids: Seq<Seq<char>>, capacity: nat, event: Event)
    requires
        capacity > 0,
        ids.len() <= capacity,
        is_request(event),
        !ids.contains(id_of(event)),
    ensures
        request_delivery(event, !ids.contains(id_of(event))) is Some,
        !(event is FileChunk) ==> request_delivery(event, !ids.contains(id_of(event))) == Some(
            Delivery::Event(event),
        ),
        request_delivery(event, !after_insert(ids, capacity, id_of(event)).contains(id_of(event)))
            is None,
{
    crate::cache::lemma_repeat_insert_is_old(ids, capacity, id_of(event));
}

/// A request delivered once is not delivered again while it stays in the
/// cache: repeated after any identifiers that fit in the room left, its own
/// retries included, it reaches the platform no more.
pub proof fn lemma_repeat_not_redelivered(
    ids: Seq<Seq<char>>,
    capacity: nat,
    event: Event,
    since: Seq<Seq<char>>,
)
    requires
        is_request(event),
        ids.len() + 1 + since.len() <= capacity,
    ensures
        request_delivery(
            event,
            !after_inserts(after_insert(ids, capacity, id_of(event)), capacity, since).contains(
                id_of(event),
            ),
        ) is None,
{
    let first = after_insert(ids, capacity, id_of(event));
    crate::cache::lemma_repeat_insert_is_old(ids, capacity, id_of(event));
    crate::cache::lemma_resident_survives(first, capacity, since, id_of(event));
}

/// A command made ready for the network.
#[derive(Clone, Debug, PartialEq, Eq)]
pub struct Outbound {
    /// The peer to send to; none for a broadcast, which goes to every link
    /// this side opened.
    pub destination: Option<Address>,
    /// The event to transmit.
    pub event: Event,
    /// The identifier its acknowledgment carries.
    pub id: String,
    /// Whether it is sent reliably: retried until acknowledged.
    pub reliable: bool,
    /// The platform call to make once it is acknowledged.
    pub follow_up: Option<Delivery>,
}

/// The event a command sends, before its address is rewritten.
pub open spec fn command_event(cmd: MessengerCommand) -> Event {
    match cmd {
        MessengerCommand::SendMessage(m) => Event::Message(m),
        MessengerCommand::CallInvoke(c) => Event::CallInvoke(c),
        MessengerCommand::CallAnswer(c) => Event::CallAnswer(c),
        MessengerCommand::CallReject(c) => Event::CallReject(c),
        MessengerCommand::CallAudioData(c) => Event::CallAudioData(c),
        MessengerCommand::SendFileStart(f) => Event::FileStart(f),
        MessengerCommand::SendFileChunk(f) => Event::FileChunk(f),
        MessengerCommand::Broadcast(b) => Event::Broadcast(b),
        MessengerCommand::ChatCreate(c) => Event::ChatCreate(c),
    }
}

/// The address text a command is sent to; a broadcast has none.
pub open spec fn command_target(cmd: MessengerCommand) -> Option<Seq<char>> {
    match cmd {
        MessengerCommand::Broadcast(_) => None,
        _ => address_field(command_event(cmd)),
    }
}

/// Whether a command waits for an acknowledgment: all but audio and broadcasts.
pub open spec fn is_reliable(cmd: MessengerCommand) -> bool {
    !(cmd is CallAudioData || cmd is Broadcast)
}

/// What the platform is asked for once a command is acknowledged: the next
/// chunk of a file, half a packet after the start and a quarter after a chunk.
pub open spec fn command_follow_up(cmd: MessengerCommand) -> Option<Delivery> {
    match cmd {
        MessengerCommand::SendFileStart(f) => Some(
            Delivery::ChunkRequest {
                address: f.address,
                file_id: f.file_id,
                chunk_size: (PACKET_MDU / 2) as usize,
            },
        ),
        MessengerCommand::SendFileChunk(f) => Some(
            Delivery::ChunkRequest {
                address: f.address,
                file_id: f.file_id,
                chunk_size: (PACKET_MDU / 4) as usize,
            },
        ),
        _ => None,
    }
}

/// The destination of a command, read from its address text.
fn target_of(text: &String) -> (r: Result<Address, MessengerError>)
    ensures
        r is Ok <==> is_address_text(text@),
        r matches Ok(a) ==> a.bytes@ == address_bytes_of(text@),
        r matches Err(e) ==> e == MessengerError::NotFound,
{
    match Address::from_hex(text.as_str()) {
        Some(a) => Ok(a),
        None => Err(MessengerError::NotFound),
    }
}

/// Makes a command ready for the network: its address field becomes the
/// local contact's address, and its target becomes the destination. Fails
/// with `NotFound` where the target is no address.
pub fn plan_command(cmd: MessengerCommand, contact_address: &String) -> (r: Result<
    Outbound,
    MessengerError,
>)
    ensures
        r is Err <==> (command_target(cmd) matches Some(t) && !is_address_text(t)),
        r matches Err(e) ==> e == MessengerError::NotFound,
        r matches Ok(o) ==> {
            &&& same_but_address(o.event, command_event(cmd))
            &&& address_field(o.event) == Some(contact_address@)
            &&& o.destination is Some <==> command_target(cmd) is Some
            &&& o.destination matches Some(a) ==> a.bytes@ == address_bytes_of(
                command_target(cmd)->0,
            )
            &&& o.id@ == id_of(command_event(cmd))
            &&& o.reliable == is_reliable(cmd)
            &&& o.follow_up == command_follow_up(cmd)
        },
{
    match cmd {
        MessengerCommand::CallAudioData(mut call) => {
            let destination = target_of(&call.address)?;
            call.address = contact_address.clone();
            let id = call.call_id.clone();
            Ok(Outbound {
                destination: Some(destination),
                event: Event::CallAudioData(call),
                id,
                reliable: false,
                follow_up: None,
            })
        },
        MessengerCommand::CallInvoke(mut call) => {
            let destination = target_of(&call.address)?;
            call.address = contact_address.clone();
            let id = call.id.clone();
            Ok(Outbound {
                destination: Some(destination),
                event: Event::CallInvoke(call),
                id,
                reliable: true,
                follow_up: None,
            })
        },
        MessengerCommand::CallAnswer(mut call) => {
            let destination = target_of(&call.address)?;
            call.address = contact_address.clone();
            let id = call.id.clone();
            Ok(Outbound {
                destination: Some(destination),
                event: Event::CallAnswer(call),
                id,
                reliable: true,
                follow_up: None,
            })
        },
        MessengerCommand::CallReject(mut call) => {
            let destination = target_of(&call.address)?;
            call.address = contact_address.clone();
            let id = call.id.clone();
            Ok(Outbound {
                destination: Some(destination),
                event: Event::CallReject(call),
                id,
                reliable: true,
                follow_up: None,
            })
        },
        MessengerCommand::Broadcast(mut broadcast) => {
            broadcast.address = contact_address.clone();
            let id = broadcast.id.clone();
            Ok(Outbound {
                destination: None,
                event: Event::Broadcast(broadcast),
                id,
                reliable: false,
                follow_up: None,
            })
        },
        MessengerCommand::SendFileStart(mut file) => {
            let destination = target_of(&file.address)?;
            let follow_up = Delivery::ChunkRequest {
                address: file.address.clone(),
                file_id: file.file_id.clone(),
                chunk_size: PACKET_MDU / 2,
            };
            file.address = contact_address.clone();
            let id = file.id.clone();
            Ok(Outbound {
                destination: Some(destination),
                event: Event::FileStart(file),
                id,
                reliable: true,
                follow_up: Some(follow_up),
            })
        },
        MessengerCommand::SendFileChunk(mut file) => {
            let destination = target_of(&file.address)?;
            let follow_up = Delivery::ChunkRequest {
                address: file.address.clone(),
                file_id: file.file_id.clone(),
                chunk_size: PACKET_MDU / 4,
            };
            file.address = contact_address.clone();
            let id = file.id.clone();
            Ok(Outbound {
                destination: Some(destination),
                event: Event::FileChunk(file),
                id,
                reliable: true,
                follow_up: Some(follow_up),
            })
        },
        MessengerCommand::SendMessage(mut message) => {
            let destination = target_of(&message.address)?;
            message.address = contact_address.clone();
            let id = message.id.clone();
            Ok(Outbound {
                destination: Some(destination),
                event: Event::Message(message),
                id,
                reliable: true,
                follow_up: None,
            })
        },
        MessengerCommand::ChatCreate(mut chat) => {
            let destination = target_of(&chat.address)?;
            chat.address = contact_address.clone();
            let id = chat.chat_id.clone();
            Ok(Outbound {
                destination: Some(destination),
                event: Event::ChatCreate(chat),
                id,
                reliable: true,
                follow_up: None,
            })
        },
    }
}

/// The event that tells the platform of a peer found by its announce: the
/// peer's address as text, with the contact data it announced.
pub fn contact_found(address: &Address, announce: AnnounceData) -> (r: Event)
    ensures
        r matches Event::ContactFound(c) && c.address@ == hex_text(address.bytes@)
            && c.contact == announce.contact,
{
    Event::ContactFound(Contact { address: address.to_hex(), contact: announce.contact })
}

} // verus!
