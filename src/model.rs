use vstd::prelude::*;

verus! {

/// What a capsule holds.
pub enum CapsuleContent {
    Text(String),
    EncryptedMessage { content: Vec<u8>, public_key: String },
    MediaReference { ipfs_hash: String, media_type: String },
    MultipartMessage { parts: Vec<CapsuleContent>, title: String },
}

impl CapsuleContent {
    /// Plain text with no characters: the one content a capsule may not hold.
    pub open spec fn is_empty_text(&self) -> bool {
        match self {
            CapsuleContent::Text(t) => t@.len() == 0,
            _ => false,
        }
    }

    pub fn check_empty_text(&self) -> (r: bool)
        ensures
            r == self.is_empty_text(),
    {
        match self {
            CapsuleContent::Text(t) => {
                let none = String::new();
                proof {
                    if t@.len() == 0 {
                        assert(t@ =~= none@);
                    }
                }
                *t == none
            },
            _ => false,
        }
    }
}

/// Who may read a capsule once it has unlocked.
pub enum AccessControl {
    Public,
    Private { allowed_viewers: Vec<String> },
    Conditional { condition_type: String, condition_data: String },
}

/// A point on the globe. Latitude and longitude are kept as the bit patterns
/// of IEEE-754 double-precision degrees: the library stores them and hands
/// them back unchanged, and never computes with them.
pub struct GeoLocation {
    pub latitude_bits: u64,
    pub longitude_bits: u64,
    pub location_name: String,
}

/// Descriptive data that travels with a capsule.
pub struct CapsuleMetadata {
    pub title: String,
    pub description: String,
    pub tags: Vec<String>,
    pub location: Option<GeoLocation>,
    pub cultural_significance: Option<String>,
}

/// The lifecycle stage recorded on a capsule. Creation records `Sealed` and
/// no operation changes it: whether a capsule has unlocked is decided from
/// the current time on every read, never from this field.
#[derive(PartialEq, Eq, Structural, Clone, Copy, Debug)]
pub enum CapsuleStatus {
    Sealed,
    UnlockPending,
    Unlocked,
    Archived,
}

/// A stored capsule. Times are host clock ticks.
pub struct TimeCapsule {
    pub id: u64,
    pub creator: String,
    pub creation_date: u64,
    pub unlock_date: u64,
    pub content: CapsuleContent,
    pub access_control: AccessControl,
    pub metadata: CapsuleMetadata,
    pub status: CapsuleStatus,
}

/// What a caller hands in to create a capsule.
pub struct CreateCapsulePayload {
    pub content: CapsuleContent,
    pub unlock_date: u64,
    pub access_control: AccessControl,
    pub metadata: CapsuleMetadata,
}

/// Why an operation on the store did not succeed.
#[derive(PartialEq, Eq, Structural, Clone, Copy, Debug)]
pub enum CapsuleError {
    UnlockDateNotInFuture,
    EmptyContent,
    NotFound,
    StillSealed,
    AccessDenied,
    UnknownCondition,
}

impl CapsuleError {
    /// The message that callers at the boundary receive.
    pub fn message(&self) -> &'static str {
        match self {
            CapsuleError::UnlockDateNotInFuture => "Unlock date must be in the future.",
            CapsuleError::EmptyContent => "Content cannot be empty.",
            CapsuleError::NotFound => "Capsule not found.",
            CapsuleError::StillSealed => "Capsule is still sealed.",
            CapsuleError::AccessDenied => "Access denied.",
            CapsuleError::UnknownCondition => "Unknown condition type.",
        }
    }
}

} // verus!
