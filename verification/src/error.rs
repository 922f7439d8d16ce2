//! The ways in which a request to a session can fail.

use vstd::prelude::*;

verus! {

/// Why a request was turned down. A request that fails leaves the session as
/// it was.
#[derive(Debug, PartialEq, Eq, Clone, Copy, Structural)]
pub enum DraftError {
    /// The session, the player or the rule set is not known.
    NotFound,
    /// The session is in a state of its life that does not take the request.
    WrongState,
    /// The action is not the one that the current turn asks for.
    WrongPhase,
    /// The turn belongs to another player.
    NotYourTurn,
    /// The creature has been picked or banned before.
    ItemUnavailable,
    /// Another player of the session bears the name.
    NameTaken,
    /// The session has no seat left, or admits nobody any more.
    SessionFull,
    /// The secret is no key, or not the player's.
    AccessDenied,
    /// The store did not answer.
    StorageUnavailable,
}

impl DraftError {
    /// The sentence that `message` returns for each kind of failure.
    pub open spec fn message_text(self) -> Seq<char> {
        match self {
            DraftError::NotFound => "User not in session."@,
            DraftError::WrongState => "The draft is not in a state that allows this."@,
            DraftError::WrongPhase => "Current action not allowed"@,
            DraftError::NotYourTurn => "It is not your turn"@,
            DraftError::ItemUnavailable =>
                "Pokemon cannot be selected. It's either banned or has already been selected."@,
            DraftError::NameTaken => "Username already in use"@,
            DraftError::SessionFull => "Draft is no longer accepting players."@,
            DraftError::AccessDenied => "Access Denied"@,
            DraftError::StorageUnavailable => "Could not reach the store"@,
        }
    }

    /// A sentence for the person whose request failed.
    pub fn message(&self) -> (text: String)
        ensures
            text@ == self.message_text(),
    {
        match self {
            DraftError::NotFound => "User not in session.".to_owned(),
            DraftError::WrongState => "The draft is not in a state that allows this.".to_owned(),
            DraftError::WrongPhase => "Current action not allowed".to_owned(),
            DraftError::NotYourTurn => "It is not your turn".to_owned(),
            DraftError::ItemUnavailable =>
                "Pokemon cannot be selected. It's either banned or has already been selected.".to_owned(),
            DraftError::NameTaken => "Username already in use".to_owned(),
            DraftError::SessionFull => "Draft is no longer accepting players.".to_owned(),
            DraftError::AccessDenied => "Access Denied".to_owned(),
            DraftError::StorageUnavailable => "Could not reach the store".to_owned(),
        }
    }
}

} // verus!
