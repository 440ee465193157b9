//! Error taxonomy: per-command errors returned by a node, and cluster-level
//! errors for routing and handshake failures. All of them are local,
//! recoverable errors returned to the immediate caller.

use vstd::prelude::*;

verus! {

pub type AndelinkResult<T> = Result<T, AndelinkError>;

pub type ClusterResult<T> = Result<T, ClusterError>;

/// Errors of the per-node command API.
#[derive(Debug, PartialEq)]
pub enum AndelinkError {
    /// A command needed a live connection and the node has none.
    NoWebsocket,
    /// A command targeted a guild with no player entry.
    PlayerNotFound,
    MissingHandlerToken,
    MissingHandlerEndpoint,
    MissingHandlerSessionId,
    InvalidDataToVoiceUpdate,
    InvalidDataToPlay,
    InvalidDataToStop,
    InvalidDataToDestroy,
    InvalidDataToPause,
    InvalidDataToVolume,
    InvalidDataToSeek,
    /// A transport-level write failed; carries the transport's description.
    ErrorSendingPayload(String),
}

impl AndelinkError {
    /// The description of this error.
    pub open spec fn message_spec(&self) -> Seq<char> {
        match self {
            AndelinkError::NoWebsocket => "There is no initialized websocket."@,
            AndelinkError::PlayerNotFound => "Player not found"@,
            AndelinkError::MissingHandlerToken => "No `token` was found on the handler."@,
            AndelinkError::MissingHandlerEndpoint => "No `endpoint` was found on the handler."@,
            AndelinkError::MissingHandlerSessionId => "No `session_id` was found on the hander"@,
            AndelinkError::InvalidDataToVoiceUpdate => "Invalid data was provided to the `voiceUpdate` json."@,
            AndelinkError::InvalidDataToPlay => "Invalid data was provided to the `play` json."@,
            AndelinkError::InvalidDataToStop => "Invalid data was provided to the `stop` json."@,
            AndelinkError::InvalidDataToDestroy => "Invalid data was provided to the `destroy` json."@,
            AndelinkError::InvalidDataToPause => "Invalid data was provided to the `pause` json."@,
            AndelinkError::InvalidDataToVolume => "Invalid data was provided to the `volume` json."@,
            AndelinkError::InvalidDataToSeek => "Invalid data was provided to the `seek` json."@,
            AndelinkError::ErrorSendingPayload(why) => "Error while sending payload, json => "@
                + why@,
        }
    }

    /// Renders the description of this error.
    pub fn message(&self) -> (r: String)
        ensures
            r@ == self.message_spec(),
    {
        match self {
            AndelinkError::NoWebsocket => String::from_str("There is no initialized websocket."),
            AndelinkError::PlayerNotFound => String::from_str("Player not found"),
            AndelinkError::MissingHandlerToken => String::from_str(
                "No `token` was found on the handler.",
            ),
            AndelinkError::MissingHandlerEndpoint => String::from_str(
                "No `endpoint` was found on the handler.",
            ),
            AndelinkError::MissingHandlerSessionId => String::from_str(
                "No `session_id` was found on the hander",
            ),
            AndelinkError::InvalidDataToVoiceUpdate => String::from_str(
                "Invalid data was provided to the `voiceUpdate` json.",
            ),
            AndelinkError::InvalidDataToPlay => String::from_str(
                "Invalid data was provided to the `play` json.",
            ),
            AndelinkError::InvalidDataToStop => String::from_str(
                "Invalid data was provided to the `stop` json.",
            ),
            AndelinkError::InvalidDataToDestroy => String::from_str(
                "Invalid data was provided to the `destroy` json.",
            ),
            AndelinkError::InvalidDataToPause => String::from_str(
                "Invalid data was provided to the `pause` json.",
            ),
            AndelinkError::InvalidDataToVolume => String::from_str(
                "Invalid data was provided to the `volume` json.",
            ),
            AndelinkError::InvalidDataToSeek => String::from_str(
                "Invalid data was provided to the `seek` json.",
            ),
            AndelinkError::ErrorSendingPayload(why) => {
                let mut s = String::from_str("Error while sending payload, json => ");
                s.append(why.as_str());
                s
            },
        }
    }
}

/// Errors of the cluster surface: routing failures, and per-node errors
/// passed through.
#[derive(Debug, PartialEq)]
pub enum ClusterError {
    MissingSelfRef,
    /// No registered node serves the requested guild.
    CannotFindNode,
    /// The registry is empty, so there is no best node.
    CannotFindBestNode,
    CannotAddNode,
    /// A completed handshake pair was missing a required field.
    CannotUpdateVoiceState,
    /// A transport-level failure; carries the transport's description.
    Tungstenite(String),
    /// A per-node command error passed through the cluster surface.
    Andelink(AndelinkError),
}

impl ClusterError {
    /// The description of this error.
    pub open spec fn message_spec(&self) -> Seq<char> {
        match self {
            ClusterError::MissingSelfRef => "Missing self arc reference to initialize the node"@,
            ClusterError::CannotFindNode => "Cannot find node, this can mean the node you're trying to search is not available or not exists"@,
            ClusterError::CannotFindBestNode => "Cannot find the best node, this is caused because there are no nodes added"@,
            ClusterError::CannotAddNode => "Cannot add node to cluster"@,
            ClusterError::CannotUpdateVoiceState => "Failed to update node voice state"@,
            ClusterError::Tungstenite(why) => why@,
            ClusterError::Andelink(e) => e.message_spec(),
        }
    }

    /// Renders the description of this error.
    pub fn message(&self) -> (r: String)
        ensures
            r@ == self.message_spec(),
    {
        match self {
            ClusterError::MissingSelfRef => String::from_str(
                "Missing self arc reference to initialize the node",
            ),
            ClusterError::CannotFindNode => String::from_str(
                "Cannot find node, this can mean the node you're trying to search is not available or not exists",
            ),
            ClusterError::CannotFindBestNode => String::from_str(
                "Cannot find the best node, this is caused because there are no nodes added",
            ),
            ClusterError::CannotAddNode => String::from_str("Cannot add node to cluster"),
            ClusterError::CannotUpdateVoiceState => String::from_str(
                "Failed to update node voice state",
            ),
            ClusterError::Tungstenite(why) => why.clone(),
            ClusterError::Andelink(e) => e.message(),
        }
    }
}

impl From<AndelinkError> for ClusterError {
    fn from(e: AndelinkError) -> (r: ClusterError) {
        ClusterError::Andelink(e)
    }
}

impl vstd::std_specs::convert::FromSpecImpl<AndelinkError> for ClusterError {
    open spec fn obeys_from_spec() -> bool {
        true
    }

    open spec fn from_spec(e: AndelinkError) -> ClusterError {
        ClusterError::Andelink(e)
    }
}

} // verus!
