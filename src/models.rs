use vstd::prelude::*;

use crate::errors::AuthError;
use crate::validation::str_equal;

verus! {

/// Authorization level attached to an authenticated identity.
#[derive(Debug, Clone, Copy, PartialEq, Eq, Structural)]
pub enum Role {
    User,
    ADMIN,
}

/// The textual form of each role, as held in sessions and records.
pub open spec fn role_text(r: Role) -> Seq<char> {
    match r {
        Role::User => "User"@,
        Role::ADMIN => "ADMIN"@,
    }
}

/// The role that a text names, if any.
pub open spec fn parse_role(s: Seq<char>) -> Option<Role> {
    if s == "User"@ {
        Some(Role::User)
    } else if s == "ADMIN"@ {
        Some(Role::ADMIN)
    } else {
        None
    }
}

impl Role {
    /// Total parse of a role name: anything but the two exact names is refused.
    pub fn from_str(s: &str) -> (r: Result<Role, AuthError>)
        ensures
            r matches Ok(role) ==> parse_role(s@) == Some(role),
            r is Err ==> parse_role(s@) is None && r == Err::<Role, AuthError>(
                AuthError::MalformedRole,
            ),
            parse_role(s@) is None ==> r is Err,
    {
        if str_equal(s, "User") {
            Ok(Role::User)
        } else if str_equal(s, "ADMIN") {
            Ok(Role::ADMIN)
        } else {
            Err(AuthError::MalformedRole)
        }
    }

    pub fn as_str(&self) -> (r: &'static str)
        ensures
            r@ == role_text(*self),
    {
        match self {
            Role::User => "User",
            Role::ADMIN => "ADMIN",
        }
    }
}

/// Which of the two per-user video lists a record belongs to.
#[derive(Debug, Clone, Copy, PartialEq, Eq, Structural)]
pub enum VideoType {
    WATCHED,
    LIKED,
}

/// The video list that a text names, if any.
pub open spec fn parse_video_type(s: Seq<char>) -> Option<VideoType> {
    if s == "liked"@ {
        Some(VideoType::LIKED)
    } else if s == "watched"@ {
        Some(VideoType::WATCHED)
    } else {
        None
    }
}

impl VideoType {
    /// Total parse of a video list name; each name maps to its own list.
    pub fn from_str(s: &str) -> (r: Result<VideoType, ()>)
        ensures
            r matches Ok(v) ==> parse_video_type(s@) == Some(v),
            r is Err ==> parse_video_type(s@) is None,
            parse_video_type(s@) is None ==> r is Err,
    {
        if str_equal(s, "liked") {
            Ok(VideoType::LIKED)
        } else if str_equal(s, "watched") {
            Ok(VideoType::WATCHED)
        } else {
            Err(())
        }
    }
}

/// A stored account.
#[derive(Debug, PartialEq, Eq)]
pub struct User {
    pub id: i32,
    pub email: String,
    pub password_hash: String,
    pub role: Option<String>,
}

impl User {
    /// A field-by-field copy of the record.
    pub fn duplicate(&self) -> (r: User)
        ensures
            r == *self,
    {
        let role = match &self.role {
            Some(s) => Some(s.clone()),
            None => None,
        };
        User { id: self.id, email: self.email.clone(), password_hash: self.password_hash.clone(), role }
    }
}

#[derive(Debug, PartialEq, Eq)]
pub struct LikedVideos {
    pub id: i32,
    pub title: String,
    pub video_id: i32,
    pub user_id: i32,
}

#[derive(Debug, PartialEq, Eq)]
pub struct WatchedVideos {
    pub id: i32,
    pub title: String,
    pub video_id: i32,
    pub user_id: i32,
}

/// A user's full record together with both video lists.
#[derive(Debug)]
pub struct UserWithVideos {
    pub user: User,
    pub liked_videos: Vec<LikedVideos>,
    pub watched_videos: Vec<WatchedVideos>,
}

#[derive(Debug, Clone)]
pub struct PostUser {
    pub pass: String,
}

/// A freshly stored video record, tagged with the list it went to.
#[derive(Debug)]
pub enum VideoTypeResult {
    WATCHED(WatchedVideos),
    LIKED(LikedVideos),
}

/// The error bodies that the HTTP API documents.
#[derive(Debug, Clone)]
pub enum SwaggerErrorResponse {
    NotFound(String),
    Conflict(String),
    Unauthorized(String),
}

} // verus!
