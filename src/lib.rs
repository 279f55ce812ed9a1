//! A name registry: each name maps to an owner and an address, and only the
//! current owner of a name may change its address or hand it on.

mod abi;
mod event;
mod ids;
mod laws;
mod registry;
mod table;

pub use abi::{AbiRecord, AbiState, AbiStore, CodeHash};
pub use event::Event;
pub use ids::{AccountId, NameHash};
pub use laws::{
    lemma_addresses_owned_kept, lemma_fresh_reads_default, lemma_only_owner_sets_address,
    lemma_second_register_rejected, lemma_transfer_moves_control, lemma_unregistered_reads_default,
};
pub use registry::{PnsState, SimplePns};
pub use table::{lookup, NameTable};
