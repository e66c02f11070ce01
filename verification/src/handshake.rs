//! The protocol side of the one-shot TCP handshake: the request the
//! controller sends and the acceptance rule for the vehicle's answer.  The
//! JSON carriage and the socket work live outside the library.
use vstd::prelude::*;
use vstd::string::*;

verus! {

/// The ports on which a video stream and its control channel run.
#[derive(Debug, Clone, Copy, PartialEq, Eq, Structural)]
pub struct ArStream2 {
    pub stream_port: u16,
    pub control_port: u16,
}

/// What the controller sends to the vehicle's handshake port.
#[derive(Debug, Clone, PartialEq, Eq)]
pub struct Request {
    pub controller_name: String,
    pub controller_type: String,
    pub d2c_port: u16,
    pub arstream2: Option<ArStream2>,
}

/// What the vehicle answers: the negotiated command port, further ports,
/// and a status that is zero exactly when the connection is accepted.
#[derive(Debug, Clone, Copy, PartialEq, Eq)]
pub struct Response {
    pub arstream_fragment_maximum_number: Option<u8>,
    pub arstream_fragment_size: Option<u16>,
    pub arstream_max_ack_interval: Option<i8>,
    pub arstream2: Option<ArStream2>,
    pub c2d_port: u16,
    pub c2d_update_port: u16,
    pub c2d_user_port: u16,
    pub status: i8,
    pub qos_mode: u8,
    pub proto_v: u8,
}

/// Why a handshake is refused at the protocol level.
#[derive(Debug, Clone, Copy, PartialEq, Eq)]
pub enum Error {
    /// The vehicle answered with a non-zero status; the answer is kept for
    /// diagnostics.
    ConnectionRefused(Response),
}

/// The handshake request for a controller listening on `d2c_port`: a fixed
/// controller name and type, and the fixed stream and control ports.
pub fn make_request(d2c_port: u16) -> (r: Request)
    ensures
        r.controller_name@ == "arsdk-rs"@,
        r.controller_type@ == "computer"@,
        r.d2c_port == d2c_port,
        r.arstream2 == Some(ArStream2 { stream_port: 44445u16, control_port: 44446u16 }),
{
    Request {
        controller_name: String::from_str("arsdk-rs"),
        controller_type: String::from_str("computer"),
        d2c_port,
        arstream2: Some(ArStream2 { stream_port: 44445, control_port: 44446 }),
    }
}

/// Accepts or refuses a handshake answer: a zero status is an acceptance,
/// any other status a refusal.
pub fn check_response(r: Response) -> (out: Result<Response, Error>)
    ensures
        r.status == 0 ==> out == Ok::<Response, Error>(r),
        r.status != 0 ==> out == Err::<Response, Error>(Error::ConnectionRefused(r)),
{
    if r.status != 0 {
        Err(Error::ConnectionRefused(r))
    } else {
        Ok(r)
    }
}

} // verus!
