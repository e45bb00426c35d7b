//! Schedules a batch of video uploads at a fixed interval and manages the
//! lifecycle of the OAuth credentials used to upload them.

pub mod args;
pub mod auth;
pub mod interval;
pub mod metadata;
pub mod paths;
pub mod schedule;
pub mod text;
pub mod time;

pub use args::{Args, OAuthConfig};
pub use auth::{
    AuthAction, AuthError, AuthEvent, AuthFailure, AuthPhase, Authenticator, LoadError,
    RefreshReply, RefreshRequest, StoreError, StoredTokens, TokenGrant,
};
pub use interval::{parse_duration, parse_lowered_duration, Interval, ParseError, ParseErrorKind};
pub use metadata::{create_default_metadata, stamp_schedule, VideoMetadata};
pub use paths::expand_tilde;
pub use schedule::{generate_schedule, generate_schedule_at, GenerationError, TimestampSource};
pub use time::Timestamp;
