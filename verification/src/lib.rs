//! Game rules of a small survival game: character and behavior state
//! machines, game phases, player records and world bookkeeping, each
//! stated over plain values and proved.
pub mod game_module;
