//! The shared conversational context a round writes into.
//!
//! A round appends exactly one user turn (its task) when it opens and, on
//! full success, exactly one assistant turn (its final outcome). The context
//! is held as plain values; handing the turns to a concrete backend is the
//! caller's business.

use vstd::prelude::*;

verus! {

/// Who authored a turn of the conversation.
#[derive(Debug, Clone, Copy, PartialEq, Eq, Structural)]
pub enum TurnRole {
    User,
    Assistant,
}

/// One turn of the conversation.
#[derive(Debug)]
pub struct Turn {
    pub role: TurnRole,
    pub content: String,
}

/// The conversational request context shared across the steps of a round.
#[derive(Debug)]
pub struct RequestContext {
    /// The turns appended so far, oldest first.
    pub turns: Vec<Turn>,
}

impl RequestContext {
    /// An empty context.
    pub fn new() -> (r: RequestContext)
        ensures
            r.turns@ =~= Seq::<Turn>::empty(),
    {
        RequestContext { turns: Vec::new() }
    }

    /// Appends one user turn with the given content.
    pub fn add_user_turn(&mut self, content: String)
        ensures
            final(self).turns@ == old(self).turns@.push(
                (Turn { role: TurnRole::User, content }),
            ),
    {
        self.turns.push(Turn { role: TurnRole::User, content });
    }

    /// Appends one assistant turn with the given content.
    pub fn add_assistant_turn(&mut self, content: String)
        ensures
            final(self).turns@ == old(self).turns@.push(
                (Turn { role: TurnRole::Assistant, content }),
            ),
    {
        self.turns.push(Turn { role: TurnRole::Assistant, content });
    }
}

} // verus!
