use twitch_api::eventsub::event::websocket::{EventsubWebsocketData as Ws, SessionData as WsSession};
use twitch_api::eventsub::{Event, Message, Payload};
use vstd::prelude::*;

verus! {

/// The session descriptor carried by welcome and reconnect frames.
#[derive(Debug, Clone)]
pub struct SessionData {
    pub id: String,
    pub reconnect_url: Option<String>,
}

/// The domain event of a notification frame, as far as dispatch needs it.
#[derive(Debug, Clone)]
pub enum Notice {
    /// A new follower (a `channel.follow` notification of version 2), with
    /// the follower's display name as the frame gives it.
    Follow { user_name: String },
    /// An event type that is known but not handled here.
    Unhandled,
}

/// A text frame of the feed, classified.
#[derive(Debug, Clone)]
pub enum Frame {
    Welcome(SessionData),
    Reconnect(SessionData),
    Notification(Notice),
    Revocation,
    Keepalive,
    Unrecognized,
}

/// What twitch_api's websocket parser makes of a text frame: `None` where
/// the text fits no frame shape.
pub uninterp spec fn decoded_frame(text: Seq<char>) -> Option<Frame>;

/// Relies on twitch_api's `Event::parse_websocket`, which parses the frame
/// from its text alone; the result is moved into the library's own types.
#[verifier::external_body]
pub(crate) fn parse_websocket(text: &str) -> (r: Option<Frame>)
    ensures
        r == decoded_frame(text@),
{
    let session = |s: WsSession| SessionData {
        id: s.id.to_string(),
        reconnect_url: s.reconnect_url.map(|u| u.to_string()),
    };
    Some(match Event::parse_websocket(text).ok()? {
        Ws::Welcome { payload, .. } => Frame::Welcome(session(payload.session)),
        Ws::Reconnect { payload, .. } => Frame::Reconnect(session(payload.session)),
        Ws::Notification { payload: Event::ChannelFollowV2(Payload { message: Message::Notification(p), .. }), .. } =>
            Frame::Notification(Notice::Follow { user_name: p.user_name.to_string() }),
        Ws::Notification { .. } => Frame::Notification(Notice::Unhandled),
        Ws::Revocation { .. } => Frame::Revocation,
        Ws::Keepalive { .. } => Frame::Keepalive,
        _ => Frame::Unrecognized,
    })
}

} // verus!
