//! A two-combatant, real-time round engine for a small card battle game.
//!
//! Every round lasts a fixed window of wall-clock time. Cards and skills are
//! gated by millisecond cooldowns, the player may use at most one card per
//! round, and the opponent acts at most once per round at a randomly planned
//! instant. The engine works on plain millisecond timestamps; the program that
//! drives it reads the clock, sleeps and talks to the console.
pub mod card;
mod chance;
pub mod combat;
pub mod cooldown;
pub mod enemy;
pub mod engine;
pub mod input;
pub mod player;
pub mod skill;
pub mod text;
pub mod turn;
