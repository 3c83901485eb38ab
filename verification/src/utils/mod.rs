pub mod fee;
pub mod profit;

pub use fee::calculate_fee;
pub use profit::calculate_profit;
