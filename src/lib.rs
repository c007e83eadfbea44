pub mod account;
pub mod address;
pub mod auth;
pub mod errors;
pub mod events;
pub mod model;
pub mod payments;
pub mod registry;
pub mod reserve;
pub mod types;

pub use account::{DataKey, EphemeralAccountContract, BASE_RESERVE_STROOPS};
pub use address::{Address, AddressKind};
pub use auth::{FixedAuthorization, SweepAuthorization};
pub use errors::Error;
pub use events::{AccountEvent, EventView};
pub use model::AccountModel;
pub use payments::MAX_PAYMENTS;
pub use registry::{ReserveContract, MAX_RESERVE_STROOPS};
pub use reserve::{ReserveReclaimed, ReserveState};
pub use types::{AccountConfig, AccountInfo, AccountStatus, Payment};
