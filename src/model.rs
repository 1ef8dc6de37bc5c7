use vstd::prelude::*;

verus! {

/// Display data of the local contact, announced to peers.
#[derive(Clone, Debug, PartialEq, Eq)]
pub struct ContactData {
    pub name: String,
}

/// What a contact destination attaches to its announce.
#[derive(Clone, Debug, PartialEq, Eq)]
pub struct AnnounceData {
    pub contact: ContactData,
}

/// A remote peer, as learnt from one of its announces.
#[derive(Clone, Debug, PartialEq, Eq)]
pub struct Contact {
    pub address: String,
    pub contact: ContactData,
}

/// Why a messenger operation failed.
#[derive(Clone, Copy, Debug, PartialEq, Eq, Structural)]
pub enum MessengerError {
    /// No acknowledgment came back within the retry budget.
    Timeout,
    /// An address could not be resolved.
    NotFound,
    /// A payload could not be encoded or decoded.
    SerdeError,
}

/// A chat message.
#[derive(Clone, Debug, PartialEq, Eq)]
pub struct Message {
    pub id: String,
    pub chat_id: String,
    pub address: String,
    pub timestamp: i64,
    pub text: String,
}

/// Tells a peer which address a link belongs to.
#[derive(Clone, Debug, PartialEq, Eq)]
pub struct ContactConnect {
    pub address: String,
}

/// Which operation an acknowledgment answers.
#[derive(Clone, Copy, Debug, PartialEq, Eq, Structural)]
pub enum AcknowledgeKind {
    Generic,
    FileStart,
    FileChunk,
    Message,
    Chat,
    CallInvoke,
    CallAnswer,
    CallReject,
}

/// Acknowledges the event with the identifier `id`.
#[derive(Clone, Debug, PartialEq, Eq)]
pub struct Acknowledge {
    pub kind: AcknowledgeKind,
    pub id: String,
}

impl Acknowledge {
    pub fn new(id: String, kind: AcknowledgeKind) -> (r: Self)
        ensures
            r.id == id,
            r.kind == kind,
    {
        Self { id, kind }
    }
}

#[derive(Clone, Debug, PartialEq, Eq)]
pub struct CallInvoke {
    /// Unique ID of the message
    pub id: String,
    pub address: String,
    pub call_id: String,
}

#[derive(Clone, Debug, PartialEq, Eq)]
pub struct CallReject {
    /// Unique ID of the message
    pub id: String,
    pub call_id: String,
    pub address: String,
}

#[derive(Clone, Debug, PartialEq, Eq)]
pub struct CallAnswer {
    /// Unique ID of the message
    pub id: String,
    pub call_id: String,
    pub address: String,
}

/// One frame of a call's audio stream.
#[derive(Clone, Debug, PartialEq, Eq)]
pub struct CallAudioData {
    pub call_id: String,
    pub address: String,
    pub data: Vec<u8>,
}

/// Opens a file transfer.
#[derive(Clone, Debug, PartialEq, Eq)]
pub struct FileStart {
    pub address: String,
    pub id: String,
    pub file_id: String,
    pub chat_id: String,
    pub file_size: usize,
    pub file_name: String,
}

/// One piece of a file transfer.
#[derive(Clone, Debug, PartialEq, Eq)]
pub struct FileChunk {
    pub address: String,
    pub id: String,
    pub file_id: String,
    pub chat_id: String,
    pub data: Vec<u8>,
}

/// A payload for every peer with an open link.
#[derive(Clone, Debug, PartialEq, Eq)]
pub struct Broadcast {
    pub id: String,
    pub address: String,
    pub topic: String,
    pub data: Vec<u8>,
}

/// Opens a chat with a peer.
#[derive(Clone, Debug, PartialEq, Eq)]
pub struct ChatCreate {
    pub address: String,
    pub chat_id: String,
    pub chat_name: String,
}

#[derive(Clone, Debug, PartialEq, Eq)]
pub struct KaonicConfig {}

#[derive(Clone, Debug, PartialEq, Eq)]
pub struct ConnectionInfo {
    pub address: String,
}

/// A network interface to bring up.
#[derive(Clone, Debug, PartialEq, Eq)]
pub enum Connection {
    TcpClient(ConnectionInfo),
    KaonicClient(ConnectionInfo),
}

} // verus!
