pub mod clock;
pub mod global_auth;
pub mod sequence_id;
pub mod text;
pub mod token_codec;
