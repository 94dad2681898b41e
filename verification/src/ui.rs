//! The score display's two-state machine: the live score while the game
//! runs, and a tween-driven game-over fade-in once the player is gone.

use crate::config::Config;
use crate::player::{Player, PlayerState};
use crate::tween::{Easing, Tween};
use vstd::prelude::*;

verus! {

/// Which screen the interface shows.
#[derive(Clone, Copy, Debug, PartialEq, Eq, Structural)]
pub enum UiState {
    GameActive,
    GameOver,
}

/// The interface state machine.
#[derive(Debug)]
pub struct UI {
    pub state: UiState,
    pub game_over_tween: Tween,
}

impl UI {
    /// The fade tween is sound.
    pub open spec fn wf(self) -> bool {
        self.game_over_tween.wf()
    }

    /// Builds the interface on the live-game screen with the game-over fade
    /// prepared.
    pub fn new(cfg: &Config) -> (u: UI)
        requires
            cfg.wf(),
        ensures
            u.state is GameActive,
            crate::pickups::stock_tween(
                u.game_over_tween,
                0,
                1000,
                cfg.game_over_fade_ms,
                Easing::Linear,
                false,
            ),
            u.wf(),
    {
        UI {
            state: UiState::GameActive,
            game_over_tween: Tween::two_keyframes(0, 1000, cfg.game_over_fade_ms, Easing::Linear, false),
        }
    }

    /// The interface after a switch to the game-over screen: a no-op when
    /// already there, else the fade restarts.
    pub open spec fn spec_go_to_game_over(self) -> UI {
        if self.state is GameOver {
            self
        } else {
            UI {
                state: UiState::GameOver,
                game_over_tween: Tween { elapsed: 0i64, playing: true, ..self.game_over_tween },
            }
        }
    }

    /// The interface after a switch to the live screen: a no-op when already
    /// there, else the fade stops.
    pub open spec fn spec_go_to_game_active(self) -> UI {
        if self.state is GameActive {
            self
        } else {
            UI {
                state: UiState::GameActive,
                game_over_tween: Tween {
                    elapsed: self.game_over_tween.length,
                    playing: false,
                    ..self.game_over_tween
                },
            }
        }
    }

    /// The interface one tick later: it follows the player's state, and on
    /// the game-over screen the fade advances.
    pub open spec fn spec_update(self, player: Player, dt: int) -> UI {
        match player.state {
            PlayerState::Active(_) => self.spec_go_to_game_active(),
            PlayerState::Exploding => self.spec_go_to_game_active(),
            PlayerState::Inactive => {
                let over = self.spec_go_to_game_over();
                UI { game_over_tween: over.game_over_tween.spec_update(dt), ..over }
            },
        }
    }

    /// Follows the player's state for `dt` milliseconds.
    pub fn update(&mut self, player: &Player, dt: u32)
        requires
            old(self).wf(),
        ensures
            *final(self) == old(self).spec_update(*player, dt as int),
            final(self).wf(),
    {
        match player.state {
            PlayerState::Active(_) => self.go_to_game_active(),
            PlayerState::Exploding => self.go_to_game_active(),
            PlayerState::Inactive => {
                self.go_to_game_over();
                self.game_over_tween.update(dt);
            },
        }
    }

    /// Switches to the game-over screen, restarting the fade.
    fn go_to_game_over(&mut self)
        ensures
            *final(self) == old(self).spec_go_to_game_over(),
    {
        match self.state {
            UiState::GameOver => {},
            UiState::GameActive => {
                self.game_over_tween.reset();
                self.state = UiState::GameOver;
            },
        }
    }

    /// Switches back to the live screen, stopping the fade.
    fn go_to_game_active(&mut self)
        ensures
            *final(self) == old(self).spec_go_to_game_active(),
    {
        match self.state {
            UiState::GameActive => {},
            UiState::GameOver => {
                self.game_over_tween.stop();
                self.state = UiState::GameActive;
            },
        }
    }
}

} // verus!
