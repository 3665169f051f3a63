pub mod claim;
pub mod close_user;
pub mod close_vault;
pub mod control_funder;
pub mod create_user;
pub mod create_vault;
pub mod fund;
pub mod stake;
pub mod unstake;

pub use claim::claim;
pub use close_user::close_user;
pub use close_vault::close_vault;
pub use control_funder::{authroize_funder, unauthorize_funder};
pub use create_user::create_user;
pub use create_vault::create_vault;
pub use fund::fund;
pub use stake::stake;
pub use unstake::unstake;
