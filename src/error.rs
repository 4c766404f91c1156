use vstd::prelude::*;

verus! {

/// What can go wrong in a node. Where a lower layer failed, `detail` holds
/// its message.
#[derive(Debug)]
pub enum NodeError {
    /// The transport refused to put a value.
    SendError { detail: String },
    /// A message could not be serialized.
    UnableToSerializeError { detail: String },
    /// The topic already has a listener that is still running.
    ReceiveError,
    /// The transport could not open a receive stream for a topic.
    DeclareReceiverError { detail: String },
    /// The transport could not declare a publisher or send on it.
    DeclarePublisherError { detail: String },
    /// A payload received on `topic` could not be decoded.
    DeserializeError { detail: String, topic: String },
    /// A message could not be encoded.
    EncodeError,
    /// Publishing a message failed.
    PublishError,
    /// Subscribing to a topic failed.
    SubscribeError,
    /// The configuration file could not be loaded.
    LoadConfigError { detail: String },
    /// The transport session could not be opened.
    InitializeSession { detail: String },
    /// The network address given for scouting is not an IPv4 address.
    ScoutingConfigError { detail: String },
}

} // verus!
