use std::sync::mpsc::{Receiver, TryRecvError};
use vstd::prelude::*;

use crate::scene::FrameError;
use crate::text::str_equal;

verus! {

#[verifier::external_type_specification]
#[verifier::external_body]
#[verifier::reject_recursive_types(T)]
pub struct ExReceiver<T>(Receiver<T>);

/// What a non-blocking look at the input channel found.
pub enum InputPoll {
    /// A message was waiting.
    Received(String),
    /// Nothing was waiting.
    Empty,
    /// Every sender is gone.
    Disconnected,
}

/// What the render loop does next.
pub enum TickAction {
    /// Leave the loop cleanly.
    Exit,
    /// Render one frame, after handing `input` to the scene if there is
    /// some; `log_stats` is set on the first frame only.
    Render { input: Option<String>, log_stats: bool },
}

/// Commands that end the render loop.
pub open spec fn is_exit_word(input: Seq<char>) -> bool {
    ||| input == "exit"@
    ||| input == "quit"@
    ||| input == "q"@
    ||| input == "bye"@
    ||| input == "goodbye"@
    ||| input == "ciao"@
    ||| input == "adios"@
}

/// Whether this tick's input asks the loop to end.
pub open spec fn exit_requested(input: Option<String>) -> bool {
    match input {
        Some(s) => is_exit_word(s@),
        None => false,
    }
}

pub fn is_exit_cmd(input: &str) -> (r: bool)
    ensures
        r == is_exit_word(input@),
{
    proof {
        reveal_strlit("exit");
        reveal_strlit("quit");
        reveal_strlit("q");
        reveal_strlit("bye");
        reveal_strlit("goodbye");
        reveal_strlit("ciao");
        reveal_strlit("adios");
    }
    str_equal(input, "exit") || str_equal(input, "quit") || str_equal(input, "q") || str_equal(
        input,
        "bye",
    ) || str_equal(input, "goodbye") || str_equal(input, "ciao") || str_equal(input, "adios")
}

/// Relies on std::sync::mpsc::Receiver::try_recv, which returns a waiting
/// message, or tells an empty channel from one whose senders are all gone;
/// which of these holds depends on other threads.
#[verifier::external_body]
fn poll_input(input_revr: &Receiver<String>) -> (r: InputPoll) {
    match input_revr.try_recv() {
        Ok(input) => InputPoll::Received(input),
        Err(TryRecvError::Empty) => InputPoll::Empty,
        Err(TryRecvError::Disconnected) => InputPoll::Disconnected,
    }
}

/// The input of one tick: the waiting message if any, nothing if the
/// channel is empty, an error if it is closed.
pub fn input_from_poll(poll: InputPoll) -> (r: Result<Option<String>, FrameError>)
    ensures
        poll matches InputPoll::Received(s) ==> r matches Ok(Some(t)) && t@ == s@,
        poll is Empty ==> r matches Ok(None),
        poll is Disconnected ==> r matches Err(FrameError::InputDisconnected),
{
    match poll {
        InputPoll::Received(input) => Ok(Some(input)),
        InputPoll::Empty => Ok(None),
        InputPoll::Disconnected => Err(FrameError::InputDisconnected),
    }
}

/// Takes the waiting input, if any, without blocking; a closed channel is
/// an error.
pub fn get_user_input(input_revr: &Receiver<String>) -> (r: Result<Option<String>, FrameError>)
    ensures
        r matches Err(e) ==> e == FrameError::InputDisconnected,
{
    input_from_poll(poll_input(input_revr))
}

/// The decisions of the render loop between ticks.
pub struct RenderLoop {
    num_of_frames: u64,
}

impl RenderLoop {
    pub closed spec fn frames(&self) -> u64 {
        self.num_of_frames
    }

    pub fn new() -> (r: RenderLoop)
        ensures
            r.frames() == 0,
    {
        RenderLoop { num_of_frames: 0 }
    }

    pub fn num_of_frames(&self) -> (r: u64)
        ensures
            r == self.frames(),
    {
        self.num_of_frames
    }

    /// Decides the next step from this tick's input: an exit command ends
    /// the loop; anything else is handed on with a frame to render.
    pub fn next_action(&self, input: Option<String>) -> (r: TickAction)
        ensures
            exit_requested(input) ==> r is Exit,
            !exit_requested(input) ==> r == (TickAction::Render {
                input,
                log_stats: self.frames() == 0,
            }),
    {
        match input {
            Some(s) => {
                if is_exit_cmd(s.as_str()) {
                    TickAction::Exit
                } else {
                    TickAction::Render { input: Some(s), log_stats: self.num_of_frames == 0 }
                }
            },
            None => TickAction::Render { input: None, log_stats: self.num_of_frames == 0 },
        }
    }

    /// Counts a rendered frame; the count stops at its largest value.
    pub fn frame_done(&mut self)
        ensures
            final(self).frames() == if old(self).frames() < u64::MAX {
                old(self).frames() + 1
            } else {
                old(self).frames() as int
            },
    {
        if self.num_of_frames < u64::MAX {
            self.num_of_frames = self.num_of_frames + 1;
        }
    }
}

} // verus!
