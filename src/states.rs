//! One data type per player state, each implementing `StateLogic`.
pub mod aerial;
pub mod combo;
pub mod defeat;
pub mod idle;
pub mod jump;
pub mod kick;
pub mod movement;
pub mod punch;

pub use aerial::{JumpKickStateData, JumpPunchStateData};
pub use combo::PunchKickComboStateData;
pub use defeat::DefeatStateData;
pub use idle::IdleStateData;
pub use jump::{FallStateData, JumpStateData, LandStateData};
pub use kick::{KickComboStateData, KickStateData};
pub use movement::{IdleToRunStateData, IdleToWalkStateData, RunStateData, WalkStateData};
pub use punch::{PunchComboStateData, PunchStateData};
