//! State-transition logic of a wrapped-ZEC token bridge.
//!
//! The bridge keeps a singleton ledger record ([`state::BridgeState`]) and
//! offers six authority-gated operations over it: initialize, mint, burn,
//! update-authority, pause and resume.  Minting and burning of the wrapped
//! token itself is delegated to an external custody collaborator: each
//! successful operation returns a receipt describing the custody effect the
//! host must perform atomically with committing the new state.

pub mod address;
pub mod errors;
pub mod fee;
pub mod ops;
pub mod state;

pub use errors::BridgeError;
pub use ops::BurnReceipt;
pub use ops::BurnWZEC;
pub use ops::Initialize;
pub use ops::MintReceipt;
pub use ops::MintWZEC;
pub use ops::PauseBridge;
pub use ops::ResumeBridge;
pub use ops::UpdateAuthority;
pub use ops::burn_wzec;
pub use ops::initialize;
pub use ops::mint_wzec;
pub use ops::pause_bridge;
pub use ops::resume_bridge;
pub use ops::update_authority;
pub use state::BridgeState;
pub use state::Pubkey;
