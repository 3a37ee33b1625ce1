use crate::frame::{decoded_frame, parse_websocket, Frame, Notice, SessionData};
use vstd::prelude::*;

verus! {

/// What url's parser makes of a text: the serialization of the parsed URL,
/// or `None` where the text is no URL.
pub uninterp spec fn parsed_url(text: Seq<char>) -> Option<Seq<char>>;

/// Relies on `url::Url::parse`, which depends on the text alone, and on
/// `Url`'s `Display`, which writes out the URL's serialization.
#[verifier::external_body]
pub(crate) fn parse_url(text: &str) -> (r: Option<String>)
    ensures
        parsed_url(text@) == (match r {
            Some(u) => Some(u@),
            None => None::<Seq<char>>,
        }),
{
    url::Url::parse(text).ok().map(|u| u.to_string())
}

/// A text is a URL where it is what the parser made of some text.
pub open spec fn valid_url(u: Seq<char>) -> bool {
    exists|s: Seq<char>| #[trigger] parsed_url(s) == Some(u)
}

/// The text of an optional string.
pub open spec fn opt_view(o: Option<String>) -> Option<Seq<char>> {
    match o {
        Some(s) => Some(s@),
        None => None,
    }
}

/// Why handling a frame or a read failed. Each of these is fatal to the
/// receive loop.
#[derive(Debug, Clone, Copy, PartialEq, Eq, Structural)]
pub enum CoreError {
    /// A text frame fit no known frame shape.
    Decode,
    /// A handshake frame carried a reconnect URL that does not parse.
    BadReconnectUrl,
    /// Reading from the socket failed in a way that is not a reset.
    Read,
}

/// The work that handling a frame leaves for the caller to do.
#[derive(Debug, Clone)]
pub enum Action {
    /// Nothing to do.
    Idle,
    /// Register the feed's event subscription for this session, once.
    Subscribe { session_id: String },
    /// Hand the new follower's display name to the reaction handler, once.
    React { user_name: String },
    /// Dial `connect_url` again and read from the new stream.
    Reconnect,
}

pub enum ActionView {
    Idle,
    Subscribe(Seq<char>),
    React(Seq<char>),
    Reconnect,
}

impl View for Action {
    type V = ActionView;

    open spec fn view(&self) -> ActionView {
        match self {
            Action::Idle => ActionView::Idle,
            Action::Subscribe { session_id } => ActionView::Subscribe(session_id@),
            Action::React { user_name } => ActionView::React(user_name@),
            Action::Reconnect => ActionView::Reconnect,
        }
    }
}

pub open spec fn result_view(r: Result<Action, CoreError>) -> Result<ActionView, CoreError> {
    match r {
        Ok(a) => Ok(a@),
        Err(e) => Err(e),
    }
}

/// What a handshake does to the connect URL.
#[derive(Debug, Clone)]
pub enum UrlUpdate {
    /// No reconnect URL was given.
    Keep,
    /// The reconnect URL parsed to this one.
    Replace(String),
    /// The reconnect URL did not parse.
    Invalid,
}

pub enum UrlUpdateView {
    Keep,
    Replace(Seq<char>),
    Invalid,
}

impl View for UrlUpdate {
    type V = UrlUpdateView;

    open spec fn view(&self) -> UrlUpdateView {
        match self {
            UrlUpdate::Keep => UrlUpdateView::Keep,
            UrlUpdate::Replace(u) => UrlUpdateView::Replace(u@),
            UrlUpdate::Invalid => UrlUpdateView::Invalid,
        }
    }
}

/// A frame as read off the socket.
#[derive(Debug, Clone)]
pub enum WsMessage {
    Text(String),
    Close,
    /// Binary, ping, pong and raw frames.
    Other,
}

/// What waiting for the next frame gave.
#[derive(Debug, Clone)]
pub enum ReadOutcome {
    Message(WsMessage),
    /// The peer dropped the connection without the closing handshake.
    ResetWithoutClosingHandshake,
    /// Any other transport failure.
    Failed,
    /// The stream has no more frames.
    Ended,
}

/// The session state: the id the server gave and the URL to dial.
pub struct ClientView {
    pub session_id: Option<Seq<char>>,
    pub connect_url: Seq<char>,
}

pub open spec fn url_update_of(reconnect_url: Option<Seq<char>>) -> UrlUpdateView {
    match reconnect_url {
        None => UrlUpdateView::Keep,
        Some(u) => match parsed_url(u) {
            Some(p) => UrlUpdateView::Replace(p),
            None => UrlUpdateView::Invalid,
        },
    }
}

/// The state after adopting a session id and a URL update.
pub open spec fn adopted(s: ClientView, id: Seq<char>, u: UrlUpdateView) -> ClientView {
    ClientView {
        session_id: Some(id),
        connect_url: match u {
            UrlUpdateView::Replace(p) => p,
            _ => s.connect_url,
        },
    }
}

pub open spec fn adopt_result(id: Seq<char>, u: UrlUpdateView) -> Result<ActionView, CoreError> {
    match u {
        UrlUpdateView::Invalid => Err(CoreError::BadReconnectUrl),
        _ => Ok(ActionView::Subscribe(id)),
    }
}

/// The state after a handshake frame with this session descriptor.
pub open spec fn welcomed(s: ClientView, id: Seq<char>, reconnect_url: Option<Seq<char>>) -> ClientView {
    adopted(s, id, url_update_of(reconnect_url))
}

pub open spec fn welcome_result(id: Seq<char>, reconnect_url: Option<Seq<char>>) -> Result<
    ActionView,
    CoreError,
> {
    adopt_result(id, url_update_of(reconnect_url))
}

/// Only a follow reaches the reaction handler, with the name as given.
pub open spec fn dispatched(n: Notice) -> ActionView {
    match n {
        Notice::Follow { user_name } => ActionView::React(user_name@),
        Notice::Unhandled => ActionView::Idle,
    }
}

pub open spec fn framed(s: ClientView, f: Frame) -> ClientView {
    match f {
        Frame::Welcome(d) => welcomed(s, d.id@, opt_view(d.reconnect_url)),
        Frame::Reconnect(d) => welcomed(s, d.id@, opt_view(d.reconnect_url)),
        _ => s,
    }
}

pub open spec fn frame_result(f: Frame) -> Result<ActionView, CoreError> {
    match f {
        Frame::Welcome(d) => welcome_result(d.id@, opt_view(d.reconnect_url)),
        Frame::Reconnect(d) => welcome_result(d.id@, opt_view(d.reconnect_url)),
        Frame::Notification(notice) => Ok(dispatched(notice)),
        _ => Ok(ActionView::Idle),
    }
}

pub open spec fn messaged(s: ClientView, m: WsMessage) -> ClientView {
    match m {
        WsMessage::Text(t) => match decoded_frame(t@) {
            Some(f) => framed(s, f),
            None => s,
        },
        _ => s,
    }
}

/// A close frame is taken as a dropped connection: the loop dials again.
pub open spec fn message_result(m: WsMessage) -> Result<ActionView, CoreError> {
    match m {
        WsMessage::Text(t) => match decoded_frame(t@) {
            Some(f) => frame_result(f),
            None => Err(CoreError::Decode),
        },
        WsMessage::Close => Ok(ActionView::Reconnect),
        WsMessage::Other => Ok(ActionView::Idle),
    }
}

pub open spec fn read_state(s: ClientView, o: ReadOutcome) -> ClientView {
    match o {
        ReadOutcome::Message(m) => messaged(s, m),
        _ => s,
    }
}

/// A reset, or the end of the stream, is recovered from by dialing again;
/// any other read failure is fatal.
pub open spec fn read_result(o: ReadOutcome) -> Result<ActionView, CoreError> {
    match o {
        ReadOutcome::Message(m) => message_result(m),
        ReadOutcome::ResetWithoutClosingHandshake => Ok(ActionView::Reconnect),
        ReadOutcome::Failed => Err(CoreError::Read),
        ReadOutcome::Ended => Ok(ActionView::Reconnect),
    }
}

/// The session state of one feed connection.
pub struct WebsocketClient {
    pub session_id: Option<String>,
    pub connect_url: String,
}

impl View for WebsocketClient {
    type V = ClientView;

    open spec fn view(&self) -> ClientView {
        ClientView { session_id: opt_view(self.session_id), connect_url: self.connect_url@ }
    }
}

impl WebsocketClient {
    /// The connect URL is always a parsed URL.
    pub open spec fn well_formed(&self) -> bool {
        valid_url(self.connect_url@)
    }

    /// A client with no session yet that dials `url`; `None` where `url` is
    /// no URL.
    pub fn new(url: &str) -> (r: Option<WebsocketClient>)
        ensures
            match parsed_url(url@) {
                Some(p) => r matches Some(c) && c@ == ClientView { session_id: None, connect_url: p }
                    && c.well_formed(),
                None => r is None,
            },
    {
        match parse_url(url) {
            Some(connect_url) => Some(WebsocketClient { session_id: None, connect_url }),
            None => None,
        }
    }

    /// Takes on the session id and the URL update of a handshake, and asks
    /// for the subscription to be registered for the new session.
    pub fn adopt_session(&mut self, id: String, update: UrlUpdate) -> (r: Result<Action, CoreError>)
        ensures
            final(self)@ == adopted(old(self)@, id@, update@),
            result_view(r) == adopt_result(id@, update@),
            old(self).well_formed() && (update matches UrlUpdate::Replace(p) ==> valid_url(p@))
                ==> final(self).well_formed(),
    {
        self.session_id = Some(id.clone());
        match update {
            UrlUpdate::Keep => Ok(Action::Subscribe { session_id: id }),
            UrlUpdate::Replace(p) => {
                self.connect_url = p;
                Ok(Action::Subscribe { session_id: id })
            },
            UrlUpdate::Invalid => Err(CoreError::BadReconnectUrl),
        }
    }

    /// Handles the session descriptor of a welcome or reconnect frame: the
    /// session id is stored, a reconnect URL is parsed and stored, and the
    /// subscription is to be registered for the new session.
    pub fn process_welcome_message(&mut self, data: SessionData) -> (r: Result<Action, CoreError>)
        ensures
            final(self)@ == welcomed(old(self)@, data.id@, opt_view(data.reconnect_url)),
            result_view(r) == welcome_result(data.id@, opt_view(data.reconnect_url)),
            old(self).well_formed() ==> final(self).well_formed(),
    {
        let update = match data.reconnect_url {
            None => UrlUpdate::Keep,
            Some(u) => match parse_url(u.as_str()) {
                Some(p) => UrlUpdate::Replace(p),
                None => UrlUpdate::Invalid,
            },
        };
        self.adopt_session(data.id, update)
    }

    /// Dispatches a notification: a follow goes to the reaction handler with
    /// the follower's display name; every other event type is ignored.
    pub fn process_notification(&self, notice: Notice) -> (r: Action)
        ensures
            r@ == dispatched(notice),
    {
        match notice {
            Notice::Follow { user_name } => Action::React { user_name },
            Notice::Unhandled => Action::Idle,
        }
    }

    /// Handles a decoded frame: handshakes update the session, notifications
    /// are dispatched, and revocations, keepalives and unknown frames are
    /// accepted and dropped.
    pub fn process_frame(&mut self, frame: Frame) -> (r: Result<Action, CoreError>)
        ensures
            final(self)@ == framed(old(self)@, frame),
            result_view(r) == frame_result(frame),
            old(self).well_formed() ==> final(self).well_formed(),
    {
        match frame {
            Frame::Welcome(d) => self.process_welcome_message(d),
            Frame::Reconnect(d) => self.process_welcome_message(d),
            Frame::Notification(notice) => Ok(self.process_notification(notice)),
            _ => Ok(Action::Idle),
        }
    }

    /// Handles a frame read off the socket. A text frame that fits no frame
    /// shape is a decode error.
    pub fn process_message(&mut self, msg: WsMessage) -> (r: Result<Action, CoreError>)
        ensures
            final(self)@ == messaged(old(self)@, msg),
            result_view(r) == message_result(msg),
            old(self).well_formed() ==> final(self).well_formed(),
    {
        match msg {
            WsMessage::Text(t) => match parse_websocket(t.as_str()) {
                Some(frame) => self.process_frame(frame),
                None => Err(CoreError::Decode),
            },
            WsMessage::Close => Ok(Action::Reconnect),
            WsMessage::Other => Ok(Action::Idle),
        }
    }

    /// Decides what the receive loop does with what a read gave.
    pub fn handle_read(&mut self, outcome: ReadOutcome) -> (r: Result<Action, CoreError>)
        ensures
            final(self)@ == read_state(old(self)@, outcome),
            result_view(r) == read_result(outcome),
            old(self).well_formed() ==> final(self).well_formed(),
    {
        match outcome {
            ReadOutcome::Message(m) => self.process_message(m),
            ReadOutcome::ResetWithoutClosingHandshake => Ok(Action::Reconnect),
            ReadOutcome::Failed => Err(CoreError::Read),
            ReadOutcome::Ended => Ok(Action::Reconnect),
        }
    }
}

/// Handling a handshake frame stores its session id; the connect URL becomes
/// the parsed reconnect URL where one is given and parses, and stays as it
/// was otherwise.
pub proof fn handshake_sets_session(s: ClientView, data: SessionData)
    ensures
        welcomed(s, data.id@, opt_view(data.reconnect_url)).session_id == Some(data.id@),
        welcomed(s, data.id@, opt_view(data.reconnect_url)).connect_url == match data.reconnect_url {
            Some(u) => match parsed_url(u@) {
                Some(p) => p,
                None => s.connect_url,
            },
            None => s.connect_url,
        },
{
}

/// Handling the same handshake frame twice leaves the session as handling it
/// once does, and gives the same result both times.
pub proof fn handshake_is_idempotent(s: ClientView, frame: Frame)
    requires
        frame is Welcome || frame is Reconnect,
    ensures
        framed(framed(s, frame), frame) == framed(s, frame),
{
}

/// A follow notification asks for exactly one reaction, with the follower's
/// display name as the frame gave it; any other notification asks for none
/// and succeeds.
pub proof fn follow_alone_reacts(s: ClientView, notice: Notice)
    ensures
        framed(s, Frame::Notification(notice)) == s,
        match notice {
            Notice::Follow { user_name } => frame_result(
                Frame::Notification(notice),
            ) == Ok::<ActionView, CoreError>(ActionView::React(user_name@)),
            Notice::Unhandled => frame_result(Frame::Notification(notice))
                == Ok::<ActionView, CoreError>(ActionView::Idle),
        },
{
}

/// A reset without the closing handshake leads to a new connection and no
/// error; any other read failure is an error and leads to no new connection.
pub proof fn reset_is_recovered(s: ClientView)
    ensures
        read_state(s, ReadOutcome::ResetWithoutClosingHandshake) == s,
        read_result(ReadOutcome::ResetWithoutClosingHandshake) == Ok::<ActionView, CoreError>(
            ActionView::Reconnect,
        ),
        read_state(s, ReadOutcome::Failed) == s,
        read_result(ReadOutcome::Failed) == Err::<ActionView, CoreError>(CoreError::Read),
{
}

/// A text frame that fits no frame shape is a decode error, and leaves the
/// session as it was.
pub proof fn malformed_text_is_rejected(s: ClientView, text: String)
    requires
        decoded_frame(text@) is None,
    ensures
        messaged(s, WsMessage::Text(text)) == s,
        message_result(WsMessage::Text(text)) == Err::<ActionView, CoreError>(CoreError::Decode),
{
}

} // verus!
