//! Rock-paper-scissors against a randomly drawn opponent, as a chat command.
//!
//! [`game`] holds the two value types, the dominance rule and the laws that
//! the rule obeys, and draws the opponent's choice. [`command`] reads the
//! player's choice from text and scripts the coloured reply to a round.

use vstd::prelude::*;

pub mod command;
pub mod game;

verus! {

/// The plugin that offers the command. It keeps no state between commands.
#[derive(PartialEq, Eq, Structural, Debug, Clone, Copy)]
pub struct MyPlugin;

impl MyPlugin {
    pub fn new() -> (plugin: Self)
        ensures
            plugin == MyPlugin,
    {
        MyPlugin {  }
    }
}

impl Default for MyPlugin {
    fn default() -> (plugin: Self)
        ensures
            plugin == MyPlugin,
    {
        Self::new()
    }
}

} // verus!
