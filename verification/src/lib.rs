pub mod numeral;
pub mod page;
pub mod signup;
pub mod text;
pub mod tier;
