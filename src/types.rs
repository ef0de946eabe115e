use vstd::prelude::*;

verus! {

/// Failure to decode a stored number as an enum value.
#[derive(Debug, Clone, Copy, PartialEq, Eq, Structural)]
pub enum Error {
    Unknown,
}

/// An enum stored as an integer.
pub trait EnumType: Sized {
    /// The value stored as `n`, if `n` stands for one.
    spec fn spec_from_number(n: i32) -> Option<Self>;

    /// The integer that stores `self`.
    spec fn spec_number(self) -> i32;

    /// Decodes a stored integer.
    fn try_from(n: i32) -> (r: Result<Self, Error>)
        ensures
            match Self::spec_from_number(n) {
                Some(v) => r == Ok::<Self, Error>(v),
                None => r == Err::<Self, Error>(Error::Unknown),
            },
    ;

    /// The integer that stores this value.
    fn number(self) -> (r: i32)
        ensures
            r == self.spec_number(),
    ;
}

/// What a piece of content is.
#[derive(Debug, Clone, Copy, PartialEq, Eq, Structural)]
pub enum ContentType {
    Article,
    SinglePage,
}

impl EnumType for ContentType {
    open spec fn spec_from_number(n: i32) -> Option<Self> {
        if n == 0 {
            Some(ContentType::Article)
        } else if n == 1 {
            Some(ContentType::SinglePage)
        } else {
            None
        }
    }

    open spec fn spec_number(self) -> i32 {
        match self {
            ContentType::Article => 0,
            ContentType::SinglePage => 1,
        }
    }

    fn try_from(n: i32) -> (r: Result<Self, Error>) {
        match n {
            0 => Ok(ContentType::Article),
            1 => Ok(ContentType::SinglePage),
            _ => Err(Error::Unknown),
        }
    }

    fn number(self) -> (r: i32) {
        match self {
            ContentType::Article => 0,
            ContentType::SinglePage => 1,
        }
    }
}

/// Where a piece of content shows and who may see it.
#[derive(Debug, Clone, Copy, PartialEq, Eq, Structural)]
pub enum ContentStatus {
    /// Listed, visible to everyone.
    Normal,
    /// Deleted.
    Deleted,
    /// Not listed, visible to everyone.
    Hidden,
    /// Shown in the admin panel only.
    Unpublished,
    /// Listed, visible to logged-in users only.
    WithAccessOnly,
}

impl ContentStatus {
    /// Whether content of this status can be seen without logging in.
    pub fn is_visible_to_public(&self) -> (r: bool)
        ensures
            r == (*self == ContentStatus::Normal || *self == ContentStatus::Hidden),
    {
        match self {
            ContentStatus::Normal | ContentStatus::Hidden => true,
            _ => false,
        }
    }

    /// Whether content of this status can be seen by a logged-in user.
    pub fn is_visible_to_logged_in(&self) -> (r: bool)
        ensures
            r == (*self == ContentStatus::Normal || *self == ContentStatus::Hidden
                || *self == ContentStatus::WithAccessOnly),
    {
        match self {
            ContentStatus::Normal | ContentStatus::Hidden | ContentStatus::WithAccessOnly => true,
            _ => false,
        }
    }
}

impl EnumType for ContentStatus {
    open spec fn spec_from_number(n: i32) -> Option<Self> {
        if n == 0 {
            Some(ContentStatus::Normal)
        } else if n == 1 {
            Some(ContentStatus::Deleted)
        } else if n == 2 {
            Some(ContentStatus::Hidden)
        } else if n == 3 {
            Some(ContentStatus::Unpublished)
        } else if n == 4 {
            Some(ContentStatus::WithAccessOnly)
        } else {
            None
        }
    }

    open spec fn spec_number(self) -> i32 {
        match self {
            ContentStatus::Normal => 0,
            ContentStatus::Deleted => 1,
            ContentStatus::Hidden => 2,
            ContentStatus::Unpublished => 3,
            ContentStatus::WithAccessOnly => 4,
        }
    }

    fn try_from(n: i32) -> (r: Result<Self, Error>) {
        match n {
            0 => Ok(ContentStatus::Normal),
            1 => Ok(ContentStatus::Deleted),
            2 => Ok(ContentStatus::Hidden),
            3 => Ok(ContentStatus::Unpublished),
            4 => Ok(ContentStatus::WithAccessOnly),
            _ => Err(Error::Unknown),
        }
    }

    fn number(self) -> (r: i32) {
        match self {
            ContentStatus::Normal => 0,
            ContentStatus::Deleted => 1,
            ContentStatus::Hidden => 2,
            ContentStatus::Unpublished => 3,
            ContentStatus::WithAccessOnly => 4,
        }
    }
}

/// Whether a user account is in use.
#[derive(Debug, Clone, Copy, PartialEq, Eq, Structural)]
pub enum UserStatus {
    Normal,
    Deleted,
}

impl EnumType for UserStatus {
    open spec fn spec_from_number(n: i32) -> Option<Self> {
        if n == 0 {
            Some(UserStatus::Normal)
        } else if n == 1 {
            Some(UserStatus::Deleted)
        } else {
            None
        }
    }

    open spec fn spec_number(self) -> i32 {
        match self {
            UserStatus::Normal => 0,
            UserStatus::Deleted => 1,
        }
    }

    fn try_from(n: i32) -> (r: Result<Self, Error>) {
        match n {
            0 => Ok(UserStatus::Normal),
            1 => Ok(UserStatus::Deleted),
            _ => Err(Error::Unknown),
        }
    }

    fn number(self) -> (r: i32) {
        match self {
            UserStatus::Normal => 0,
            UserStatus::Deleted => 1,
        }
    }
}

/// The moderation state of a comment.
#[derive(Debug, Clone, Copy, PartialEq, Eq, Structural)]
pub enum CommentStatus {
    Normal,
    Deleted,
    Spam,
    PendingReview,
}

impl Default for CommentStatus {
    fn default() -> (r: Self)
        ensures
            r == CommentStatus::Normal,
    {
        CommentStatus::Normal
    }
}

impl EnumType for CommentStatus {
    open spec fn spec_from_number(n: i32) -> Option<Self> {
        if n == 0 {
            Some(CommentStatus::Normal)
        } else if n == 1 {
            Some(CommentStatus::Deleted)
        } else if n == 2 {
            Some(CommentStatus::Spam)
        } else if n == 3 {
            Some(CommentStatus::PendingReview)
        } else {
            None
        }
    }

    open spec fn spec_number(self) -> i32 {
        match self {
            CommentStatus::Normal => 0,
            CommentStatus::Deleted => 1,
            CommentStatus::Spam => 2,
            CommentStatus::PendingReview => 3,
        }
    }

    fn try_from(n: i32) -> (r: Result<Self, Error>) {
        match n {
            0 => Ok(CommentStatus::Normal),
            1 => Ok(CommentStatus::Deleted),
            2 => Ok(CommentStatus::Spam),
            3 => Ok(CommentStatus::PendingReview),
            _ => Err(Error::Unknown),
        }
    }

    fn number(self) -> (r: i32) {
        match self {
            CommentStatus::Normal => 0,
            CommentStatus::Deleted => 1,
            CommentStatus::Spam => 2,
            CommentStatus::PendingReview => 3,
        }
    }
}

} // verus!
