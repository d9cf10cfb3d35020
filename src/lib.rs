//! A browsable catalog of creature records: navigation and filtering state,
//! the flattening of a record and its forms into detail rows, and the
//! composition of the ability panel.

pub mod ability;
pub mod dex;
pub mod pmlist;
pub mod record;
pub mod text;

pub use record::{Form, Iv, Pokemon};
pub use ability::{Ability, AbilityInfo};
pub use dex::{flat_dex, PokemonDex, PokemonDexState};
pub use pmlist::{PokemonList, PokemonListStatus};
