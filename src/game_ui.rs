//! The chat box of the game screen.

use vstd::prelude::*;
use crate::messages::ClientMessage;

verus! {

pub struct GameUiState {
    /// What the player is typing.
    pub textbox_text: String,
    /// The lines shown above the text box.
    pub textbox_history: Vec<String>,
}

impl Default for GameUiState {
    fn default() -> (r: GameUiState)
        ensures
            r.textbox_text@ == Seq::<char>::empty(),
            r.textbox_history@ == Seq::<String>::empty(),
    {
        GameUiState { textbox_text: String::new(), textbox_history: Vec::new() }
    }
}

impl GameUiState {
    /// Sends what was typed: the chat message carrying it, with the text box
    /// emptied for the next line.
    pub fn take_chat_message(&mut self) -> (m: ClientMessage)
        ensures
            m matches ClientMessage::Chat(text) && text@ == old(self).textbox_text@,
            final(self).textbox_text@ == Seq::<char>::empty(),
            final(self).textbox_history@ == old(self).textbox_history@,
    {
        let text = self.textbox_text.clone();
        self.textbox_text = String::new();
        ClientMessage::Chat(text)
    }
}

} // verus!
