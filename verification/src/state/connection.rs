//! Connection state: status of the link to the Engine, the session and user,
//! the connection handle and the ComfyUI service state.
use vstd::prelude::*;
use crate::dto::ParticipantRole;
use crate::text::owned;

verus! {

/// Connection status to the Engine server.
#[derive(Clone, Copy, Debug, PartialEq, Eq, Structural)]
pub enum ConnectionStatus {
    /// Not connected to any server.
    Disconnected,
    /// Attempting to connect.
    Connecting,
    /// Connected and ready.
    Connected,
    /// Connection lost, attempting to reconnect.
    Reconnecting,
    /// Connection failed.
    Failed,
}

/// The indicator color of a status.
pub open spec fn indicator_color_spec(s: ConnectionStatus) -> Seq<char> {
    match s {
        ConnectionStatus::Connected => "#4ade80"@,
        ConnectionStatus::Connecting => "#facc15"@,
        ConnectionStatus::Reconnecting => "#facc15"@,
        ConnectionStatus::Disconnected => "#f87171"@,
        ConnectionStatus::Failed => "#ef4444"@,
    }
}

/// The display text of a status.
pub open spec fn display_text_spec(s: ConnectionStatus) -> Seq<char> {
    match s {
        ConnectionStatus::Connected => "Connected"@,
        ConnectionStatus::Connecting => "Connecting..."@,
        ConnectionStatus::Reconnecting => "Reconnecting..."@,
        ConnectionStatus::Disconnected => "Disconnected"@,
        ConnectionStatus::Failed => "Connection Failed"@,
    }
}

impl ConnectionStatus {
    /// The status is `Connected`.
    pub open spec fn is_connected_spec(self) -> bool {
        self is Connected
    }

    /// True exactly when connected.
    pub fn is_connected(&self) -> (r: bool)
        ensures
            r == self.is_connected_spec(),
    {
        match self {
            ConnectionStatus::Connected => true,
            _ => false,
        }
    }

    /// The status indicator color: green when connected, yellow while
    /// connecting or reconnecting, red when disconnected, dark red on failure.
    pub fn indicator_color(&self) -> (r: &'static str)
        ensures
            r@ == indicator_color_spec(*self),
    {
        match self {
            ConnectionStatus::Connected => "#4ade80",
            ConnectionStatus::Connecting => "#facc15",
            ConnectionStatus::Reconnecting => "#facc15",
            ConnectionStatus::Disconnected => "#f87171",
            ConnectionStatus::Failed => "#ef4444",
        }
    }

    /// The status display text.
    pub fn display_text(&self) -> (r: &'static str)
        ensures
            r@ == display_text_spec(*self),
    {
        match self {
            ConnectionStatus::Connected => "Connected",
            ConnectionStatus::Connecting => "Connecting...",
            ConnectionStatus::Reconnecting => "Reconnecting...",
            ConnectionStatus::Disconnected => "Disconnected",
            ConnectionStatus::Failed => "Connection Failed",
        }
    }
}

/// The abstract connection state; `C` is the connection handle.
pub struct ConnectionModel<C> {
    pub connection_status: ConnectionStatus,
    pub session_id: Option<Seq<char>>,
    pub user_id: Option<Seq<char>>,
    pub user_role: Option<ParticipantRole>,
    pub server_url: Option<Seq<char>>,
    pub engine_client: Option<C>,
    pub error_message: Option<Seq<char>>,
    pub comfyui_state: Seq<char>,
    pub comfyui_message: Option<Seq<char>>,
    pub comfyui_retry_in_seconds: Option<u32>,
}

/// The view of an optional string.
pub open spec fn opt_view(s: Option<String>) -> Option<Seq<char>> {
    crate::dto::opt_str(s)
}

impl<C> ConnectionModel<C> {
    /// Disconnected, nothing known, ComfyUI "connected".
    pub open spec fn initial() -> ConnectionModel<C> {
        ConnectionModel {
            connection_status: ConnectionStatus::Disconnected,
            session_id: None,
            user_id: None,
            user_role: None,
            server_url: None,
            engine_client: None,
            error_message: None,
            comfyui_state: "connected"@,
            comfyui_message: None,
            comfyui_retry_in_seconds: None,
        }
    }

    /// `start_connecting`.
    pub open spec fn connecting(self, url: Seq<char>) -> ConnectionModel<C> {
        ConnectionModel {
            connection_status: ConnectionStatus::Connecting,
            server_url: Some(url),
            error_message: None,
            ..self
        }
    }

    /// `set_connected`.
    pub open spec fn connected(self, client: C) -> ConnectionModel<C> {
        ConnectionModel {
            connection_status: ConnectionStatus::Connected,
            engine_client: Some(client),
            error_message: None,
            ..self
        }
    }

    /// `set_disconnected`.
    pub open spec fn disconnected(self) -> ConnectionModel<C> {
        ConnectionModel {
            connection_status: ConnectionStatus::Disconnected,
            engine_client: None,
            session_id: None,
            ..self
        }
    }

    /// `set_failed`.
    pub open spec fn failed(self, error: Seq<char>) -> ConnectionModel<C> {
        ConnectionModel {
            connection_status: ConnectionStatus::Failed,
            error_message: Some(error),
            engine_client: None,
            ..self
        }
    }

    /// `clear`: every field back to its initial value.
    pub open spec fn cleared(self) -> ConnectionModel<C> {
        ConnectionModel::<C>::initial()
    }
}

/// Connection state for server and user information; `C` is the handle of
/// the game connection.
pub struct ConnectionState<C> {
    /// Current connection status.
    pub connection_status: ConnectionStatus,
    /// Session ID after joining.
    pub session_id: Option<String>,
    /// User ID (local identifier).
    pub user_id: Option<String>,
    /// User role.
    pub user_role: Option<ParticipantRole>,
    /// Server URL we are connected to.
    pub server_url: Option<String>,
    /// Game connection handle, if connected.
    pub engine_client: Option<C>,
    /// Error message if the connection failed.
    pub error_message: Option<String>,
    /// ComfyUI connection state ("connected", "degraded", "disconnected", "circuit_open").
    pub comfyui_state: String,
    pub comfyui_message: Option<String>,
    pub comfyui_retry_in_seconds: Option<u32>,
}

impl<C> View for ConnectionState<C> {
    type V = ConnectionModel<C>;

    open spec fn view(&self) -> ConnectionModel<C> {
        ConnectionModel {
            connection_status: self.connection_status,
            session_id: opt_view(self.session_id),
            user_id: opt_view(self.user_id),
            user_role: self.user_role,
            server_url: opt_view(self.server_url),
            engine_client: self.engine_client,
            error_message: opt_view(self.error_message),
            comfyui_state: self.comfyui_state@,
            comfyui_message: opt_view(self.comfyui_message),
            comfyui_retry_in_seconds: self.comfyui_retry_in_seconds,
        }
    }
}

impl<C> ConnectionState<C> {
    /// A disconnected state.
    pub fn new() -> (r: ConnectionState<C>)
        ensures
            r@ == ConnectionModel::<C>::initial(),
    {
        ConnectionState {
            connection_status: ConnectionStatus::Disconnected,
            session_id: None,
            user_id: None,
            user_role: None,
            server_url: None,
            engine_client: None,
            error_message: None,
            comfyui_state: owned("connected"),
            comfyui_message: None,
            comfyui_retry_in_seconds: None,
        }
    }

    /// Connecting to `server_url`; the error message is cleared.
    pub fn start_connecting(&mut self, server_url: &str)
        ensures
            final(self)@ == old(self)@.connecting(server_url@),
    {
        self.connection_status = ConnectionStatus::Connecting;
        self.server_url = Some(owned(server_url));
        self.error_message = None;
    }

    /// Connected through `client`; the error message is cleared.
    pub fn set_connected(&mut self, client: C)
        ensures
            final(self)@ == old(self)@.connected(client),
    {
        self.connection_status = ConnectionStatus::Connected;
        self.engine_client = Some(client);
        self.error_message = None;
    }

    /// Stores the connection handle without changing the status.
    pub fn set_connection_handle(&mut self, client: C)
        ensures
            final(self)@ == (ConnectionModel { engine_client: Some(client), ..old(self)@ }),
    {
        self.engine_client = Some(client);
    }

    /// The session has been joined.
    pub fn set_session_joined(&mut self, session_id: String)
        ensures
            final(self)@ == (ConnectionModel { session_id: Some(session_id@), ..old(self)@ }),
    {
        self.session_id = Some(session_id);
    }

    /// Sets the user ID and role.
    pub fn set_user(&mut self, user_id: String, role: ParticipantRole)
        ensures
            final(self)@ == (ConnectionModel {
                user_id: Some(user_id@),
                user_role: Some(role),
                ..old(self)@
            }),
    {
        self.user_id = Some(user_id);
        self.user_role = Some(role);
    }

    /// Disconnected: the handle and the session are dropped.
    pub fn set_disconnected(&mut self)
        ensures
            final(self)@ == old(self)@.disconnected(),
    {
        self.connection_status = ConnectionStatus::Disconnected;
        self.engine_client = None;
        self.session_id = None;
    }

    /// Failed with `error`: the handle is dropped.
    pub fn set_failed(&mut self, error: String)
        ensures
            final(self)@ == old(self)@.failed(error@),
    {
        self.connection_status = ConnectionStatus::Failed;
        self.error_message = Some(error);
        self.engine_client = None;
    }

    /// Reconnecting.
    pub fn set_reconnecting(&mut self)
        ensures
            final(self)@ == (ConnectionModel {
                connection_status: ConnectionStatus::Reconnecting,
                ..old(self)@
            }),
    {
        self.connection_status = ConnectionStatus::Reconnecting;
    }

    /// Whether a connection handle is held.
    pub fn has_client(&self) -> (r: bool)
        ensures
            r == self@.engine_client is Some,
    {
        self.engine_client.is_some()
    }

    /// Clears all connection state: afterwards it is as `new` made it.
    pub fn clear(&mut self)
        ensures
            final(self)@ == old(self)@.cleared(),
            final(self)@ == ConnectionModel::<C>::initial(),
    {
        self.connection_status = ConnectionStatus::Disconnected;
        self.session_id = None;
        self.user_id = None;
        self.user_role = None;
        self.server_url = None;
        self.engine_client = None;
        self.error_message = None;
        self.comfyui_state = owned("connected");
        self.comfyui_message = None;
        self.comfyui_retry_in_seconds = None;
    }
}

impl<C> Default for ConnectionState<C> {
    fn default() -> (r: ConnectionState<C>)
        ensures
            r@ == ConnectionModel::<C>::initial(),
    {
        ConnectionState::new()
    }
}

/// Laws of the connection lifecycle: connecting clears an old error;
/// a handle is held after `set_connected` and never after a disconnect, a
/// failure or a clear; the session is forgotten on disconnect; a failure
/// keeps its error message; `clear` returns to the initial state, the
/// ComfyUI fields included.
pub proof fn law_connection_lifecycle<C>(m: ConnectionModel<C>, url: Seq<char>, client: C, error: Seq<char>)
    ensures
        m.connecting(url).error_message is None,
        m.connecting(url).connected(client).engine_client == Some(client),
        m.connecting(url).connected(client).connection_status.is_connected_spec(),
        m.connected(client).disconnected().engine_client is None,
        m.connected(client).disconnected().session_id is None,
        m.connected(client).failed(error).engine_client is None,
        m.connected(client).failed(error).error_message == Some(error),
        m.cleared().engine_client is None,
        !m.cleared().connection_status.is_connected_spec(),
        m.cleared() == ConnectionModel::<C>::initial(),
        m.cleared().comfyui_state == "connected"@,
        m.cleared().comfyui_message is None,
        m.cleared().comfyui_retry_in_seconds is None,
{
}

/// Each status has its own text and the documented indicator colour: green
/// when connected, yellow while connecting or reconnecting, red when
/// disconnected, a deeper red when failed.
pub proof fn law_status_texts(s: ConnectionStatus)
    ensures
        s == ConnectionStatus::Connected ==> display_text_spec(s) == "Connected"@ && indicator_color_spec(s) == "#4ade80"@,
        s == ConnectionStatus::Connecting ==> display_text_spec(s) == "Connecting..."@ && indicator_color_spec(s) == "#facc15"@,
        s == ConnectionStatus::Reconnecting ==> display_text_spec(s) == "Reconnecting..."@ && indicator_color_spec(s) == "#facc15"@,
        s == ConnectionStatus::Disconnected ==> display_text_spec(s) == "Disconnected"@ && indicator_color_spec(s) == "#f87171"@,
        s == ConnectionStatus::Failed ==> display_text_spec(s) == "Connection Failed"@ && indicator_color_spec(s) == "#ef4444"@,
        s.is_connected_spec() <==> s == ConnectionStatus::Connected,
{
}

/// Each step of the connection sets its status and touches only what it
/// names: connecting records the server and clears the error, connecting
/// succeeds with the handle, disconnecting forgets the handle and session,
/// failing records the error and drops the handle; who the user is stays.
pub proof fn law_connection_steps<C>(m: ConnectionModel<C>, url: Seq<char>, client: C, error: Seq<char>)
    ensures
        m.connecting(url).connection_status == ConnectionStatus::Connecting,
        m.connecting(url).server_url == Some(url),
        m.connecting(url).engine_client == m.engine_client,
        m.connecting(url).session_id == m.session_id,
        m.connected(client).connection_status == ConnectionStatus::Connected,
        m.connected(client).error_message is None,
        m.connected(client).server_url == m.server_url,
        m.connected(client).session_id == m.session_id,
        m.disconnected().connection_status == ConnectionStatus::Disconnected,
        m.disconnected().server_url == m.server_url,
        m.disconnected().error_message == m.error_message,
        m.failed(error).connection_status == ConnectionStatus::Failed,
        m.failed(error).session_id == m.session_id,
        m.failed(error).server_url == m.server_url,
        m.connecting(url).user_id == m.user_id && m.connecting(url).user_role == m.user_role,
        m.connected(client).user_id == m.user_id && m.connected(client).user_role == m.user_role,
        m.disconnected().user_id == m.user_id && m.disconnected().user_role == m.user_role,
        m.failed(error).user_id == m.user_id && m.failed(error).user_role == m.user_role,
        m.connecting(url).comfyui_state == m.comfyui_state,
        m.connected(client).comfyui_state == m.comfyui_state,
        ConnectionModel::<C>::initial().connection_status == ConnectionStatus::Disconnected,
        ConnectionModel::<C>::initial().session_id is None,
        ConnectionModel::<C>::initial().engine_client is None,
        ConnectionModel::<C>::initial().server_url is None,
        ConnectionModel::<C>::initial().error_message is None,
        ConnectionModel::<C>::initial().user_id is None,
        ConnectionModel::<C>::initial().user_role is None,
{
}

} // verus!
