//! Verified core of a session-authenticated video-tracking backend: credential
//! checks, role derivation, session state, request guards and the
//! sign-up / login / logout / whoami / admin-read decisions.

pub mod auth;
pub mod errors;
pub mod guards;
pub mod keys;
pub mod laws;
pub mod models;
pub mod password;
pub mod session;
pub mod store;
pub mod validation;

pub use auth::{
    authorize_admin, complete_login, complete_sign_up, determine_role, establish_session, login, logout, secret,
    sign_up, user_data, validate_session, AdminSecrets, Credentials, LoginOutcome, UserProfile,
};
pub use errors::AuthError;
pub use guards::{RoleGuard, SessionGuard};
pub use keys::{apikey_to_state, generate_key, AppState, API_KEY_LEN};
pub use laws::{
    lemma_admin_only_on_exact_match, lemma_duplicate_sign_up, lemma_invalid_email_creates_nothing,
    lemma_login_failures_indistinguishable, lemma_logout_then_secret, lemma_sign_up_then_login,
};
pub use models::{
    LikedVideos, PostUser, Role, SwaggerErrorResponse, User, UserWithVideos, VideoType,
    VideoTypeResult, WatchedVideos,
};
pub use password::{hash_password, verify_password};
pub use session::{Session, SessionKey, SESSION_TTL_SECS};
pub use store::UserStore;
pub use validation::{contains_str, str_equal, validate_email};
