use vstd::prelude::*;

use crate::direction::Direction;
use crate::telescope::TelescopeError;

verus! {

/// Length of a command frame sent to a mount controller.
pub const COMMAND_FRAME_LEN: usize = 13;

/// Length of a response frame sent back by a mount controller.
pub const RESPONSE_FRAME_LEN: usize = 12;

/// Leading byte of every command frame.
pub const COMMAND_OPCODE: u8 = 0x57;

/// Leading byte of a response that carries the mount's direction.
pub const DIRECTION_OPCODE: u8 = 0x58;

/// Command-kind byte asking for the mount's direction.
pub const KIND_GET_DIRECTION: u8 = 0x6F;

/// Command-kind byte asking the mount to stop.
pub const KIND_STOP: u8 = 0x0F;

/// Command-kind byte asking the mount to point somewhere.
pub const KIND_SET_DIRECTION: u8 = 0x2F;

/// Command-kind byte asking the controller to restart.
pub const KIND_RESTART: u8 = 0xF0;

/// Trailing byte of a command frame, and status byte of an acknowledgement.
pub const ACK: u8 = 0x20;

/// Status byte of a response to a frame that was not understood.
pub const NOT_UNDERSTOOD: u8 = 0x00;

/// Marker of a frame that carries angle digits (tenths of a degree).
pub const DIGITS_PER_DEGREE: u8 = 0x0A;

/// Offset, in tenths of a degree, added to an angle before it is written as digits.
pub const ANGLE_OFFSET_TENTHS: i64 = 3600;

/// Microdegrees per tenth of a degree.
pub const MICRODEGREES_PER_TENTH: i64 = 100_000;

/// A command to a mount controller.
#[derive(Clone, Copy, Debug, PartialEq, Eq, Structural)]
pub enum TelescopeCommand {
    Stop,
    Restart,
    GetDirection,
    SetDirection(Direction),
}

/// The answer of a mount controller to a command.
#[derive(Clone, Copy, Debug, PartialEq, Eq, Structural)]
pub enum TelescopeResponse {
    CurrentDirection(Direction),
    Ack,
}

pub open spec fn zeros(n: nat) -> Seq<u8> {
    Seq::new(n, |i: int| 0u8)
}

/// The first twelve bytes of a request for the mount's direction.
pub open spec fn direction_request() -> Seq<u8> {
    seq![COMMAND_OPCODE] + zeros(10) + seq![KIND_GET_DIRECTION]
}

/// The first twelve bytes of a request to stop.
pub open spec fn stop_request() -> Seq<u8> {
    seq![COMMAND_OPCODE] + zeros(10) + seq![KIND_STOP]
}

/// The acknowledgement of a request for the mount's direction.
pub open spec fn direction_ack() -> Seq<u8> {
    seq![DIRECTION_OPCODE] + zeros(10) + seq![ACK]
}

/// The acknowledgement of a request to stop.
pub open spec fn stop_ack() -> Seq<u8> {
    seq![COMMAND_OPCODE] + zeros(10) + seq![ACK]
}

/// The answer to a frame that was not understood: the frame echoed back with its
/// status byte cleared.
pub open spec fn not_understood(request: Seq<u8>) -> Seq<u8> {
    request.subrange(0, 11).push(NOT_UNDERSTOOD)
}

/// The answer of the simulated mount controller to the first twelve bytes of a frame.
pub open spec fn response_to(request: Seq<u8>) -> Seq<u8> {
    if request == direction_request() {
        direction_ack()
    } else if request == stop_request() {
        stop_ack()
    } else {
        not_understood(request)
    }
}

fn same_bytes(a: &[u8], b: &[u8; 12]) -> (r: bool)
    ensures
        r == (a@ == b@),
{
    if a.len() != 12 {
        return false;
    }
    let mut i: usize = 0;
    while i < 12
        invariant
            a@.len() == 12,
            b@.len() == 12,
            i <= 12,
            forall|j: int| 0 <= j < i ==> a@[j] == b@[j],
        decreases 12 - i,
    {
        if a[i] != b[i] {
            return false;
        }
        i = i + 1;
    }
    assert(a@ =~= b@);
    true
}

/// The answer of the simulated mount controller to the first twelve bytes of a
/// command frame: a fixed acknowledgement for a direction or stop request, and any
/// other frame echoed back with its status byte cleared.
pub fn handle(request: &[u8]) -> (r: [u8; 12])
    requires
        request@.len() == RESPONSE_FRAME_LEN,
    ensures
        r@ == response_to(request@),
        request@ != direction_request() && request@ != stop_request() ==> r@.subrange(0, 11)
            == request@.subrange(0, 11) && r@[11] == NOT_UNDERSTOOD,
{
    let direction: [u8; 12] = [0x57, 0, 0, 0, 0, 0, 0, 0, 0, 0, 0, 0x6F];
    let stop: [u8; 12] = [0x57, 0, 0, 0, 0, 0, 0, 0, 0, 0, 0, 0x0F];
    assert(direction@ =~= direction_request());
    assert(stop@ =~= stop_request());
    if same_bytes(request, &direction) {
        let r: [u8; 12] = [0x58, 0, 0, 0, 0, 0, 0, 0, 0, 0, 0, 0x20];
        assert(r@ =~= direction_ack());
        r
    } else if same_bytes(request, &stop) {
        let r: [u8; 12] = [0x57, 0, 0, 0, 0, 0, 0, 0, 0, 0, 0, 0x20];
        assert(r@ =~= stop_ack());
        r
    } else {
        let mut r: [u8; 12] = [0; 12];
        let mut i: usize = 0;
        while i < 11
            invariant
                i <= 11,
                r@.len() == 12,
                request@.len() == 12,
                r@[11] == NOT_UNDERSTOOD,
                forall|j: int| 0 <= j < i ==> r@[j] == request@[j],
            decreases 11 - i,
        {
            r[i] = request[i];
            i = i + 1;
        }
        assert(r@ =~= not_understood(request@));
        r
    }
}

/// What the simulated mount controller does with one read from its connection.
#[derive(Clone, Copy, Debug, PartialEq, Eq)]
pub enum ReadOutcome {
    /// The peer closed the connection.
    Closed,
    /// A whole command frame came in: send this answer.
    Reply([u8; 12]),
    /// A frame of another length came in: note it and keep serving.
    Ignored,
}

/// Decides what to do with one read into `buffer`: `Some(n)` when `n` bytes came
/// in, `None` when the read failed. Zero bytes mean the peer closed the
/// connection, a whole frame gets the answer to its first twelve bytes, and
/// anything else, a failed read included, is passed over so that the connection
/// keeps being served.
pub fn on_read(buffer: &[u8; 13], read: Option<usize>) -> (r: ReadOutcome)
    ensures
        read == Some(0usize) ==> r == ReadOutcome::Closed,
        read == Some(COMMAND_FRAME_LEN) ==> (r matches ReadOutcome::Reply(a) && a@ == response_to(
            buffer@.subrange(0, 12),
        )),
        (read is None || (read matches Some(n) && n != 0 && n != COMMAND_FRAME_LEN)) ==> r
            == ReadOutcome::Ignored,
{
    match read {
        None => ReadOutcome::Ignored,
        Some(n) => if n == 0 {
            ReadOutcome::Closed
        } else if n == COMMAND_FRAME_LEN {
            let mut request: [u8; 12] = [0; 12];
            let mut i: usize = 0;
            while i < 12
                invariant
                    i <= 12,
                    request@.len() == 12,
                    buffer@.len() == 13,
                    forall|j: int| 0 <= j < i ==> request@[j] == buffer@[j],
                decreases 12 - i,
            {
                request[i] = buffer[i];
                i = i + 1;
            }
            assert(request@ =~= buffer@.subrange(0, 12));
            ReadOutcome::Reply(handle(&request))
        } else {
            ReadOutcome::Ignored
        },
    }
}

/// Whether an angle can be written as four digits of tenths of a degree after
/// the offset is added.
pub open spec fn encodable(angle: i64) -> bool {
    0 <= angle + ANGLE_OFFSET_TENTHS * MICRODEGREES_PER_TENTH < 10_000 * MICRODEGREES_PER_TENTH
}

/// The four decimal digits of `v`, most significant first.
pub open spec fn digits(v: int) -> Seq<u8> {
    seq![(v / 1000) as u8, (v / 100 % 10) as u8, (v / 10 % 10) as u8, (v % 10) as u8]
}

/// The digits of an angle: its offset value in whole tenths of a degree.
pub open spec fn angle_digits(angle: i64) -> Seq<u8> {
    digits((angle + ANGLE_OFFSET_TENTHS * MICRODEGREES_PER_TENTH) / (MICRODEGREES_PER_TENTH as int))
}

pub open spec fn plain_frame(kind: u8) -> Seq<u8> {
    seq![COMMAND_OPCODE] + zeros(10) + seq![kind, ACK]
}

/// The frame that carries `cmd`, if its angles can be written.
pub open spec fn command_frame(cmd: TelescopeCommand) -> Option<Seq<u8>> {
    match cmd {
        TelescopeCommand::Stop => Some(plain_frame(KIND_STOP)),
        TelescopeCommand::Restart => Some(plain_frame(KIND_RESTART)),
        TelescopeCommand::GetDirection => Some(plain_frame(KIND_GET_DIRECTION)),
        TelescopeCommand::SetDirection(d) => if encodable(d.azimuth) && encodable(d.elevation) {
            Some(
                seq![COMMAND_OPCODE] + angle_digits(d.azimuth) + seq![DIGITS_PER_DEGREE]
                    + angle_digits(d.elevation) + seq![DIGITS_PER_DEGREE, KIND_SET_DIRECTION, ACK],
            )
        } else {
            None
        },
    }
}

fn push_plain(frame: &mut Vec<u8>, kind: u8)
    requires
        old(frame)@.len() == 0,
    ensures
        final(frame)@ == plain_frame(kind),
{
    frame.push(COMMAND_OPCODE);
    let mut i: usize = 0;
    while i < 10
        invariant
            i <= 10,
            frame@ == seq![COMMAND_OPCODE] + zeros(i as nat),
        decreases 10 - i,
    {
        frame.push(0);
        i = i + 1;
        assert(frame@ =~= seq![COMMAND_OPCODE] + zeros(i as nat));
    }
    frame.push(kind);
    frame.push(ACK);
    assert(frame@ =~= plain_frame(kind));
}

fn push_angle(frame: &mut Vec<u8>, angle: i64)
    requires
        encodable(angle),
    ensures
        final(frame)@ == old(frame)@ + angle_digits(angle),
{
    let v: i64 = (angle + ANGLE_OFFSET_TENTHS * MICRODEGREES_PER_TENTH) / MICRODEGREES_PER_TENTH;
    assert(0 <= v < 10_000);
    frame.push((v / 1000) as u8);
    frame.push((v / 100 % 10) as u8);
    frame.push((v / 10 % 10) as u8);
    frame.push((v % 10) as u8);
    assert(final(frame)@ =~= old(frame)@ + angle_digits(angle));
}

/// The frame that carries `cmd` to a mount controller. A pointing command whose
/// angles cannot be written as digits is refused with `TelescopeIOError`.
pub fn encode_command(cmd: TelescopeCommand) -> (r: Result<Vec<u8>, TelescopeError>)
    ensures
        match command_frame(cmd) {
            Some(f) => r matches Ok(v) && v@ == f,
            None => r matches Err(e) && e is TelescopeIOError,
        },
{
    let mut frame: Vec<u8> = Vec::new();
    match cmd {
        TelescopeCommand::Stop => push_plain(&mut frame, KIND_STOP),
        TelescopeCommand::Restart => push_plain(&mut frame, KIND_RESTART),
        TelescopeCommand::GetDirection => push_plain(&mut frame, KIND_GET_DIRECTION),
        TelescopeCommand::SetDirection(d) => {
            let lowest: i64 = -ANGLE_OFFSET_TENTHS * MICRODEGREES_PER_TENTH;
            let bound: i64 = (10_000 - ANGLE_OFFSET_TENTHS) * MICRODEGREES_PER_TENTH;
            if d.azimuth < lowest || d.azimuth >= bound || d.elevation < lowest || d.elevation
                >= bound {
                return Err(
                    TelescopeError::TelescopeIOError(
                        String::from_str("Direction cannot be written to the controller"),
                    ),
                );
            }
            frame.push(COMMAND_OPCODE);
            push_angle(&mut frame, d.azimuth);
            frame.push(DIGITS_PER_DEGREE);
            push_angle(&mut frame, d.elevation);
            frame.push(DIGITS_PER_DEGREE);
            frame.push(KIND_SET_DIRECTION);
            frame.push(ACK);
            assert(frame@ =~= command_frame(cmd)->0);
        },
    }
    Ok(frame)
}

/// The angle written as four digits starting at `start`, in microdegrees.
pub open spec fn angle_at(f: Seq<u8>, start: int) -> int {
    ((f[start] * 1000 + f[start + 1] * 100 + f[start + 2] * 10 + f[start + 3])
        - ANGLE_OFFSET_TENTHS) * MICRODEGREES_PER_TENTH
}

pub open spec fn digits_at(f: Seq<u8>, start: int) -> bool {
    forall|i: int| start <= i < start + 4 ==> f[i] <= 9
}

/// The response that frame `f` carries for `cmd`: an acknowledged frame of the
/// right length, which for a direction request also has the direction opcode and
/// eight digits.
pub open spec fn response_of(cmd: TelescopeCommand, f: Seq<u8>) -> Option<TelescopeResponse> {
    if f.len() != RESPONSE_FRAME_LEN || f[11] != ACK {
        None
    } else {
        match cmd {
            TelescopeCommand::GetDirection => if f[0] == DIRECTION_OPCODE && digits_at(f, 1)
                && digits_at(f, 6) {
                Some(
                    TelescopeResponse::CurrentDirection(
                        Direction { azimuth: angle_at(f, 1) as i64, elevation: angle_at(f, 6) as i64 },
                    ),
                )
            } else {
                None
            },
            _ => Some(TelescopeResponse::Ack),
        }
    }
}

fn read_angle(f: &[u8], start: usize) -> (r: Option<i64>)
    requires
        start + 4 <= f@.len(),
    ensures
        r == (if digits_at(f@, start as int) {
            Some(angle_at(f@, start as int) as i64)
        } else {
            None::<i64>
        }),
{
    let d0 = f[start];
    let d1 = f[start + 1];
    let d2 = f[start + 2];
    let d3 = f[start + 3];
    if d0 > 9 || d1 > 9 || d2 > 9 || d3 > 9 {
        return None;
    }
    let v: i64 = d0 as i64 * 1000 + d1 as i64 * 100 + d2 as i64 * 10 + d3 as i64;
    Some((v - ANGLE_OFFSET_TENTHS) * MICRODEGREES_PER_TENTH)
}

/// Reads the answer `frame` of a mount controller to `cmd`. Anything but a
/// recognized acknowledgement fails with `TelescopeIOError`.
pub fn decode_response(cmd: TelescopeCommand, frame: &[u8]) -> (r: Result<TelescopeResponse, TelescopeError>)
    ensures
        match response_of(cmd, frame@) {
            Some(resp) => r == Ok::<TelescopeResponse, TelescopeError>(resp),
            None => r matches Err(e) && e is TelescopeIOError,
        },
{
    if frame.len() != RESPONSE_FRAME_LEN || frame[11] != ACK {
        return Err(
            TelescopeError::TelescopeIOError(
                String::from_str("Telescope did not acknowledge the command"),
            ),
        );
    }
    match cmd {
        TelescopeCommand::GetDirection => {
            let az = read_angle(frame, 1);
            let el = read_angle(frame, 6);
            match (az, el) {
                (Some(azimuth), Some(elevation)) => {
                    if frame[0] == DIRECTION_OPCODE {
                        Ok(TelescopeResponse::CurrentDirection(Direction { azimuth, elevation }))
                    } else {
                        Err(
                            TelescopeError::TelescopeIOError(
                                String::from_str("Telescope did not respond with current direction"),
                            ),
                        )
                    }
                },
                _ => Err(
                    TelescopeError::TelescopeIOError(
                        String::from_str("Telescope sent a malformed direction"),
                    ),
                ),
            }
        },
        _ => Ok(TelescopeResponse::Ack),
    }
}

/// The simulated mount controller answers a whole frame by its first twelve
/// bytes: the direction request gets the direction acknowledgement, the stop
/// request the stop acknowledgement, and any other frame is echoed back with its
/// status byte cleared. The two acknowledgements differ, and both carry the
/// acknowledgement status.
pub proof fn lemma_frame_answers(frame: Seq<u8>)
    requires
        frame.len() == COMMAND_FRAME_LEN,
    ensures
        frame.subrange(0, 12) == direction_request() ==> response_to(frame.subrange(0, 12))
            == direction_ack(),
        frame.subrange(0, 12) == stop_request() ==> response_to(frame.subrange(0, 12))
            == stop_ack(),
        frame.subrange(0, 12) != direction_request() && frame.subrange(0, 12) != stop_request()
            ==> response_to(frame.subrange(0, 12)) == frame.subrange(0, 11).push(NOT_UNDERSTOOD),
        direction_ack() != stop_ack(),
        direction_ack()[11] == ACK && stop_ack()[11] == ACK,
        response_to(frame.subrange(0, 12)).len() == RESPONSE_FRAME_LEN,
{
    assert(direction_ack()[0] != stop_ack()[0]);
    assert(direction_request()[11] != stop_request()[11]);
}

} // verus!
