use tptool::data::{deg, deg_per_s};
use tptool::mount::simulator::{expect_position, expect_reply, info_line, Request, Response, Session};
use tptool::mount::{Axis, MountError};

#[test]
fn slew_axis_repeats_the_speed_asked_last_of_the_other_axis() {
    let mut s = Session::new();
    assert_eq!(
        s.slew_axis(Axis::Primary, deg_per_s(2)),
        Request::Slew { axis1: deg_per_s(2), axis2: deg_per_s(0) }
    );
    assert_eq!(
        s.slew_axis(Axis::Secondary, deg_per_s(-1)),
        Request::Slew { axis1: deg_per_s(2), axis2: deg_per_s(-1) }
    );
    assert_eq!(
        s.slew(deg_per_s(3), deg_per_s(4)),
        Request::Slew { axis1: deg_per_s(3), axis2: deg_per_s(4) }
    );
    assert_eq!(
        s.slew_axis(Axis::Primary, deg_per_s(1)),
        Request::Slew { axis1: deg_per_s(1), axis2: deg_per_s(4) }
    );
}

#[test]
fn stop_leaves_both_axes_at_rest() {
    let mut s = Session::new();
    s.slew(deg_per_s(3), deg_per_s(4));
    assert_eq!(s.stop(), Request::Stop);
    assert_eq!(
        s.slew_axis(Axis::Primary, deg_per_s(1)),
        Request::Slew { axis1: deg_per_s(1), axis2: deg_per_s(0) }
    );
    assert_eq!(s.position(), Request::GetPosition);
}

#[test]
fn reply_must_be_of_the_expected_kind() {
    assert_eq!(expect_reply(Response::Reply(Ok(()))), Ok(()));
    assert_eq!(expect_reply(Response::Reply(Err(MountError::Rejected))), Err(MountError::Rejected));
    assert_eq!(
        expect_reply(Response::Position(Ok((deg(1), deg(2))))),
        Err(MountError::UnexpectedReply)
    );
    assert_eq!(expect_reply(Response::Other), Err(MountError::UnexpectedReply));
    assert_eq!(
        expect_position(Response::Position(Ok((deg(1), deg(2))))),
        Ok((deg(1), deg(2)))
    );
    assert_eq!(
        expect_position(Response::Position(Err(MountError::Rejected))),
        Err(MountError::Rejected)
    );
    assert_eq!(expect_position(Response::Reply(Ok(()))), Err(MountError::UnexpectedReply));
    assert_eq!(expect_position(Response::Other), Err(MountError::UnexpectedReply));
}

#[test]
fn simulator_info_line() {
    assert_eq!(info_line("127.0.0.1:45500"), "Simulator on 127.0.0.1:45500");
}
