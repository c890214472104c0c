pub mod make;
pub mod refund;
pub mod take;
