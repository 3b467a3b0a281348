pub mod atag;
pub mod raw;

pub use self::atag::Atag;
