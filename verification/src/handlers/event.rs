//! How session events (connection changes and incoming messages) change
//! the presentation state.
use vstd::prelude::*;
use crate::handlers::message::{app_model, handle_server_message, message_effect, AppModel, ServerMessage};
use crate::state::connection::{ConnectionModel, ConnectionStatus};
use crate::state::dialogue::DialogueState;
use crate::state::game::GameState;
use crate::state::generation::GenerationState;
use crate::state::session::SessionState;

verus! {

/// The state of the game connection as the transport reports it.
#[derive(PartialEq, Eq, Structural, Clone, Copy, Debug)]
pub enum PortConnectionState {
    Disconnected,
    Connecting,
    Connected,
    Reconnecting,
    Failed,
}

/// An event of the session: the connection changed, or a message arrived.
pub enum SessionEvent {
    StateChanged(PortConnectionState),
    MessageReceived(ServerMessage),
}

/// The status shown for a transport state.
pub open spec fn status_of(state: PortConnectionState) -> ConnectionStatus {
    match state {
        PortConnectionState::Disconnected => ConnectionStatus::Disconnected,
        PortConnectionState::Connecting => ConnectionStatus::Connecting,
        PortConnectionState::Connected => ConnectionStatus::Connected,
        PortConnectionState::Reconnecting => ConnectionStatus::Reconnecting,
        PortConnectionState::Failed => ConnectionStatus::Failed,
    }
}

/// Maps a transport state to the status shown.
pub fn port_connection_state_to_status(state: PortConnectionState) -> (r: ConnectionStatus)
    ensures
        r == status_of(state),
{
    match state {
        PortConnectionState::Disconnected => ConnectionStatus::Disconnected,
        PortConnectionState::Connecting => ConnectionStatus::Connecting,
        PortConnectionState::Connected => ConnectionStatus::Connected,
        PortConnectionState::Reconnecting => ConnectionStatus::Reconnecting,
        PortConnectionState::Failed => ConnectionStatus::Failed,
    }
}

/// The connection after the transport reports `state`: the status follows
/// it, and the handle is dropped when the connection is lost or failed.
pub open spec fn connection_changed<C>(c: ConnectionModel<C>, state: PortConnectionState) -> ConnectionModel<C> {
    ConnectionModel {
        connection_status: status_of(state),
        engine_client: if state == PortConnectionState::Disconnected || state
            == PortConnectionState::Failed {
            None
        } else {
            c.engine_client
        },
        ..c
    }
}

/// What handling `event` at time `now` does to the state `pre`, giving `post`.
pub open spec fn event_effect<C>(pre: AppModel<C>, event: SessionEvent, now: u64, post: AppModel<C>) -> bool {
    match event {
        SessionEvent::StateChanged(state) => post == pre.with_connection(
            connection_changed(pre.session.connection, state),
        ),
        SessionEvent::MessageReceived(msg) => message_effect(pre, msg, now, post),
    }
}

/// Processes a session event received at time `now` (Unix seconds) and
/// updates the presentation state.
pub fn handle_session_event<C>(
    event: SessionEvent,
    session_state: &mut SessionState<C>,
    game_state: &mut GameState,
    dialogue_state: &mut DialogueState,
    generation_state: &mut GenerationState,
    now: u64,
)
    ensures
        event_effect(
            app_model(*old(session_state), *old(game_state), *old(dialogue_state), *old(generation_state)),
            event,
            now,
            app_model(*final(session_state), *final(game_state), *final(dialogue_state), *final(generation_state)),
        ),
{
    match event {
        SessionEvent::StateChanged(state) => {
            session_state.connection.connection_status = port_connection_state_to_status(state);
            match state {
                PortConnectionState::Disconnected | PortConnectionState::Failed => {
                    session_state.connection.engine_client = None;
                },
                _ => {},
            }
        },
        SessionEvent::MessageReceived(message) => {
            handle_server_message(message, session_state, game_state, dialogue_state, generation_state, now);
        },
    }
}

/// Losing or failing the connection drops the handle, whatever the state
/// before; the status always follows the transport, and nothing but the
/// connection changes.
pub proof fn law_connection_loss_drops_handle<C>(
    pre: AppModel<C>,
    state: PortConnectionState,
    now: u64,
    post: AppModel<C>,
)
    requires
        event_effect(pre, SessionEvent::StateChanged(state), now, post),
    ensures
        post.session.connection.connection_status == status_of(state),
        (state == PortConnectionState::Disconnected || state == PortConnectionState::Failed)
            ==> post.session.connection.engine_client is None,
        (state == PortConnectionState::Connecting || state == PortConnectionState::Connected || state
            == PortConnectionState::Reconnecting) ==> post.session.connection.engine_client
            == pre.session.connection.engine_client,
        post.session.connection.session_id == pre.session.connection.session_id,
        post.session.connection.server_url == pre.session.connection.server_url,
        post.session.connection.error_message == pre.session.connection.error_message,
        post.session.approval == pre.session.approval,
        post.session.challenge == pre.session.challenge,
        post.game == pre.game,
        post.dialogue == pre.dialogue,
        post.generation == pre.generation,
{
}

/// Each transport state is shown as the status of the same name.
pub proof fn law_status_follows_transport(state: PortConnectionState)
    ensures
        state == PortConnectionState::Disconnected <==> status_of(state) == ConnectionStatus::Disconnected,
        state == PortConnectionState::Connecting <==> status_of(state) == ConnectionStatus::Connecting,
        state == PortConnectionState::Connected <==> status_of(state) == ConnectionStatus::Connected,
        state == PortConnectionState::Reconnecting <==> status_of(state) == ConnectionStatus::Reconnecting,
        state == PortConnectionState::Failed <==> status_of(state) == ConnectionStatus::Failed,
{
}

} // verus!
