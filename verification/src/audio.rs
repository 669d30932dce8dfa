use vstd::prelude::*;

verus! {

/// What to tell the tone player.
#[derive(Clone, Copy, Debug, PartialEq, Eq, Structural)]
pub enum PlayerCommand {
    /// Resume the paused tone.
    Play,
    /// Pause the tone.
    Pause,
    /// Leave the tone playing as it is.
    KeepPlaying,
}

/// Whether the player is paused after `cmd`, given whether it was paused before.
pub open spec fn paused_after(cmd: PlayerCommand, paused: bool) -> bool {
    match cmd {
        PlayerCommand::Play => false,
        PlayerCommand::Pause => true,
        PlayerCommand::KeepPlaying => paused,
    }
}

/// The command that makes the tone sound exactly when `playing`, given whether the player
/// is `paused` now. A paused player is only told to play, and a playing one is left alone.
pub fn playback_command(playing: bool, paused: bool) -> (cmd: PlayerCommand)
    ensures
        paused_after(cmd, paused) == !playing,
        cmd == PlayerCommand::Play <==> playing && paused,
        cmd == PlayerCommand::KeepPlaying <==> playing && !paused,
{
    if playing {
        if paused {
            PlayerCommand::Play
        } else {
            PlayerCommand::KeepPlaying
        }
    } else {
        PlayerCommand::Pause
    }
}

} // verus!
