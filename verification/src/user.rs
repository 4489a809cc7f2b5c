use vstd::prelude::*;

verus! {

/// Opaque, stable, unique identifier of a user in the source export.
/// Used only as a mapping key; never parsed or interpreted.
pub struct UserId(pub String);

impl View for UserId {
    type V = Seq<char>;

    open spec fn view(&self) -> Seq<char> {
        self.0@
    }
}

/// Profile snapshot carried by a `User`.
pub struct UserProfile {
    /// Preferred display name; absent when the user never set one.
    pub display_name: Option<String>,
    /// Avatar location.
    pub image_512: String,
}

/// One user record from the export's user list: identity and profile
/// snapshot. Created once at startup, never mutated afterwards.
pub struct User {
    pub id: UserId,
    pub name: String,
    pub deleted: bool,
    pub real_name: String,
    pub profile: UserProfile,
    pub is_bot: bool,
    pub is_admin: bool,
    pub is_owner: bool,
}

impl User {
    /// The name shown for this user: the profile's display name when it is
    /// set and non-empty, the real name otherwise.
    pub open spec fn spec_display_name(&self) -> Seq<char> {
        match self.profile.display_name {
            Some(d) => if d@.len() == 0 {
                self.real_name@
            } else {
                d@
            },
            None => self.real_name@,
        }
    }

    /// Display-name resolution: an empty or absent display name falls back
    /// to the real name; a non-empty display name is returned verbatim.
    pub fn display_name(&self) -> (r: &str)
        ensures
            r@ == self.spec_display_name(),
    {
        match &self.profile.display_name {
            Some(d) => {
                if d.as_str().is_empty() {
                    self.real_name.as_str()
                } else {
                    d.as_str()
                }
            },
            None => self.real_name.as_str(),
        }
    }
}

} // verus!
