pub mod filter;
pub mod group;
pub mod lookup;
pub mod pick;
