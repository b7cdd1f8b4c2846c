pub mod bits;
pub mod bytes;
pub mod emotion_engine;
pub mod enum_set;
pub mod fifo;
pub mod fix;
pub mod instruction_format;
