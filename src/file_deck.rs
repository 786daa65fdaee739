use vstd::prelude::*;

verus! {

/// The decks of the Automated Tropical Cyclone Forecast files.
#[derive(Clone, Copy, Debug, PartialEq, Eq, Structural)]
pub enum ATCFFileDeck {
    ADVISORY,
    BEST,
    FIXED,
}

/// The deck that a user asks for.
#[derive(Clone, Copy, Debug, PartialEq, Eq, Structural)]
pub enum FileDeckKind {
    ADVISORY,
    BEST,
    FIXED,
}

impl FileDeckKind {
    /// The deck of the same name.
    pub fn to_atcf_file_deck(&self) -> (r: ATCFFileDeck)
        ensures
            r == match self {
                FileDeckKind::ADVISORY => ATCFFileDeck::ADVISORY,
                FileDeckKind::BEST => ATCFFileDeck::BEST,
                FileDeckKind::FIXED => ATCFFileDeck::FIXED,
            },
    {
        match self {
            FileDeckKind::ADVISORY => ATCFFileDeck::ADVISORY,
            FileDeckKind::BEST => ATCFFileDeck::BEST,
            FileDeckKind::FIXED => ATCFFileDeck::FIXED,
        }
    }
}

} // verus!
