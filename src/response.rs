use vstd::prelude::*;

verus! {

/// A server reply: either a payload or an error, never both.
pub struct ServerMsg<T> {
    pub data: Option<T>,
    pub error: Option<T>,
}

impl<T> ServerMsg<T> {
    pub fn data(data: T) -> (r: Self)
        ensures
            r.data == Some(data),
            r.error is None,
    {
        ServerMsg { data: Some(data), error: None }
    }

    pub fn error(error: T) -> (r: Self)
        ensures
            r.data is None,
            r.error == Some(error),
    {
        ServerMsg { data: None, error: Some(error) }
    }
}

/// Replies shared by every route.
#[derive(Clone, Copy, Debug, PartialEq, Eq, Structural)]
pub enum CommonResponses {
    MethodNotAllowed,
}

impl CommonResponses {
    /// The text of each shared reply.
    pub open spec fn message(&self) -> Seq<char> {
        match self {
            CommonResponses::MethodNotAllowed => "Method not allowed"@,
        }
    }

    pub fn json(&self) -> (r: ServerMsg<String>)
        ensures
            r.data is None,
            r.error matches Some(e) && e@ == self.message(),
    {
        proof {
            reveal_strlit("Method not allowed");
        }
        match self {
            CommonResponses::MethodNotAllowed => ServerMsg::error(String::from_str("Method not allowed")),
        }
    }
}

/// The state of a game board as the server reports it.
pub struct DefaultGameResponse {
    pub board: Vec<i8>,
    pub state: String,
}

/// A move on the game board.
#[derive(Clone, Copy, Debug, PartialEq, Eq, Structural)]
pub struct PlayDetails {
    pub position: u8,
}

/// A video frame received from a remote participant.
pub struct ReceivedVideoFrame {
    pub image_buffer: Vec<u8>,
    /// When the frame was captured, in microseconds.
    pub timestamp: i64,
}

} // verus!
