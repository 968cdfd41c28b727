use vstd::prelude::*;

verus! {

/// What happened in the world network loop.
#[derive(Debug, Clone, Copy, PartialEq, Eq, Structural)]
pub enum WorldLoopEvent {
    /// A packet arrived from the world server.
    ServerPacket,
    /// Reading from the world server failed.
    ServerReadFailed,
    /// The game no longer takes incoming packets.
    GameUnreachable,
    /// The game handed over a packet for the world server.
    GamePacket,
    /// Writing to the world server failed.
    ServerWriteFailed,
    /// The game asked to disconnect.
    GameDisconnected,
}

/// What the world network loop does next.
#[derive(Debug, Clone, Copy, PartialEq, Eq, Structural)]
pub enum WorldLoopAction {
    /// Hand the packet to the game and keep running.
    ForwardToGame,
    /// Write the packet to the world server and keep running.
    WriteToServer,
    /// Tell the game that the connection is gone, then stop.
    NotifyDisconnectAndStop,
    /// Stop the loop.
    Stop,
}

/// The network loop's answer to each event: packets are passed on in their direction,
/// a failed read is reported to the game, and every other failure or a requested
/// disconnect ends the loop.
pub fn world_loop_step(event: WorldLoopEvent) -> (action: WorldLoopAction)
    ensures
        action == match event {
            WorldLoopEvent::ServerPacket => WorldLoopAction::ForwardToGame,
            WorldLoopEvent::GamePacket => WorldLoopAction::WriteToServer,
            WorldLoopEvent::ServerReadFailed => WorldLoopAction::NotifyDisconnectAndStop,
            WorldLoopEvent::GameUnreachable => WorldLoopAction::Stop,
            WorldLoopEvent::ServerWriteFailed => WorldLoopAction::Stop,
            WorldLoopEvent::GameDisconnected => WorldLoopAction::Stop,
        },
{
    match event {
        WorldLoopEvent::ServerPacket => WorldLoopAction::ForwardToGame,
        WorldLoopEvent::GamePacket => WorldLoopAction::WriteToServer,
        WorldLoopEvent::ServerReadFailed => WorldLoopAction::NotifyDisconnectAndStop,
        WorldLoopEvent::GameUnreachable => WorldLoopAction::Stop,
        WorldLoopEvent::ServerWriteFailed => WorldLoopAction::Stop,
        WorldLoopEvent::GameDisconnected => WorldLoopAction::Stop,
    }
}

} // verus!
