//! The structured summary that the parse stage hands back for a log file.
//! The binary format itself is decoded by the host's parse worker; the
//! pipeline only consumes these fields.

use vstd::prelude::*;

verus! {

/// What the parse stage extracted from one log file.
pub struct Encounter {
    /// The encounter's category id; the correlation key for every policy
    /// decision downstream.
    pub boss_id: u16,
    /// The recording player's account identifier, when the log carries one.
    pub pov_account: Option<String>,
    /// The account identifiers of the participants.
    pub participants: Vec<String>,
}

/// The mathematical value of an `Encounter`.
pub struct EncounterView {
    pub boss_id: u16,
    pub pov_account: Option<Seq<char>>,
    pub participants: Seq<Seq<char>>,
}

impl View for Encounter {
    type V = EncounterView;

    open spec fn view(&self) -> EncounterView {
        EncounterView {
            boss_id: self.boss_id,
            pov_account: self.pov_account.deep_view(),
            participants: self.participants.deep_view(),
        }
    }
}

impl DeepView for Encounter {
    type V = EncounterView;

    open spec fn deep_view(&self) -> EncounterView {
        self.view()
    }
}

} // verus!
