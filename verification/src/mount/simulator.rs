//! The client's side of the mount simulator's protocol: one request, one
//! reply. What goes over the line as text is not decided here; a session
//! says which request to send and what the reply to it means.

use crate::data::{Angle, AngularSpeed};
use crate::mount::{Axis, MountError};
use vstd::prelude::*;
use vstd::string::StringExecFns;

verus! {

/// What a client asks of the simulator.
#[derive(Clone, Copy, Debug, PartialEq, Eq, Structural)]
pub enum Request {
    /// Turn both axes at the speeds given.
    Slew { axis1: AngularSpeed, axis2: AngularSpeed },
    /// Bring both axes to rest.
    Stop,
    /// Report the position of both axes.
    GetPosition,
}

/// What the simulator answers.
#[derive(Clone, Copy, Debug)]
pub enum Response {
    /// The outcome of a command.
    Reply(Result<(), MountError>),
    /// The outcome of a query for the position.
    Position(Result<(Angle, Angle), MountError>),
    /// Any other message.
    Other,
}

/// The speeds asked of each axis last. The simulator takes the speeds of
/// both axes at once, so a client that sets one axis has to repeat what it
/// asked of the other.
#[derive(Clone, Copy, Debug, PartialEq, Eq, Structural)]
pub struct Session {
    /// Speed asked of the primary axis last.
    pub axis1_req_spd: AngularSpeed,
    /// Speed asked of the secondary axis last.
    pub axis2_req_spd: AngularSpeed,
}

impl Session {
    /// The session after both speeds were asked for.
    pub open spec fn after_slew(axis1: AngularSpeed, axis2: AngularSpeed) -> Session {
        Session { axis1_req_spd: axis1, axis2_req_spd: axis2 }
    }

    /// The session after `speed` was asked of `axis`.
    pub open spec fn after_slew_axis(self, axis: Axis, speed: AngularSpeed) -> Session {
        match axis {
            Axis::Primary => Session { axis1_req_spd: speed, ..self },
            Axis::Secondary => Session { axis2_req_spd: speed, ..self },
        }
    }

    /// A session in which nothing was asked yet: both axes at rest.
    pub fn new() -> (r: Session)
        ensures
            r == Session::after_slew(
                AngularSpeed { centiarcsec_per_s: 0 },
                AngularSpeed { centiarcsec_per_s: 0 },
            ),
    {
        Session {
            axis1_req_spd: AngularSpeed { centiarcsec_per_s: 0 },
            axis2_req_spd: AngularSpeed { centiarcsec_per_s: 0 },
        }
    }

    /// The request that sets the speed of both axes.
    pub fn slew(&mut self, axis1: AngularSpeed, axis2: AngularSpeed) -> (r: Request)
        ensures
            *final(self) == Session::after_slew(axis1, axis2),
            r == (Request::Slew { axis1, axis2 }),
    {
        self.axis1_req_spd = axis1;
        self.axis2_req_spd = axis2;
        Request::Slew { axis1, axis2 }
    }

    /// The request that sets the speed of one axis and repeats the speed
    /// asked last of the other.
    pub fn slew_axis(&mut self, axis: Axis, speed: AngularSpeed) -> (r: Request)
        ensures
            *final(self) == old(self).after_slew_axis(axis, speed),
            r == (Request::Slew {
                axis1: final(self).axis1_req_spd,
                axis2: final(self).axis2_req_spd,
            }),
    {
        match axis {
            Axis::Primary => {
                self.axis1_req_spd = speed;
            },
            Axis::Secondary => {
                self.axis2_req_spd = speed;
            },
        }
        Request::Slew { axis1: self.axis1_req_spd, axis2: self.axis2_req_spd }
    }

    /// The request that brings both axes to rest. No speed is asked of
    /// either axis after it.
    pub fn stop(&mut self) -> (r: Request)
        ensures
            *final(self) == Session::after_slew(
                AngularSpeed { centiarcsec_per_s: 0 },
                AngularSpeed { centiarcsec_per_s: 0 },
            ),
            r == Request::Stop,
    {
        self.axis1_req_spd = AngularSpeed { centiarcsec_per_s: 0 };
        self.axis2_req_spd = AngularSpeed { centiarcsec_per_s: 0 };
        Request::Stop
    }

    /// The request for the position of both axes.
    pub fn position(&self) -> (r: Request)
        ensures
            r == Request::GetPosition,
    {
        Request::GetPosition
    }
}

/// What the answer to a command means: the reply's own outcome; any other
/// message is an error.
pub fn expect_reply(response: Response) -> (r: Result<(), MountError>)
    ensures
        r == match response {
            Response::Reply(outcome) => outcome,
            _ => Err::<(), MountError>(MountError::UnexpectedReply),
        },
{
    match response {
        Response::Reply(outcome) => outcome,
        _ => Err(MountError::UnexpectedReply),
    }
}

/// What the answer to a query for the position means: the position, or
/// the error, that the message holds; any other message is an error.
pub fn expect_position(response: Response) -> (r: Result<(Angle, Angle), MountError>)
    ensures
        r == match response {
            Response::Position(outcome) => outcome,
            _ => Err::<(Angle, Angle), MountError>(MountError::UnexpectedReply),
        },
{
    match response {
        Response::Position(outcome) => outcome,
        _ => Err(MountError::UnexpectedReply),
    }
}

/// The line that names a simulator and its address.
pub fn info_line(address: &str) -> (line: String)
    ensures
        line@ == "Simulator on "@ + address@,
{
    String::from_str("Simulator on ").concat(address)
}

} // verus!
