//! Player identities as the resolver hands them around.

use vstd::prelude::*;

verus! {

/// A stable platform identifier with the display name it was seen under, if
/// known.
pub struct ProfileDTO {
    pub id: String,
    pub name: Option<String>,
}

/// The display name, or the empty text where none is known.
pub open spec fn name_or_empty(name: Option<String>) -> Seq<char> {
    match name {
        Some(n) => n@,
        None => Seq::empty(),
    }
}

/// A copy of an optional string.
pub fn copy_name(name: &Option<String>) -> (r: Option<String>)
    ensures
        r == *name,
{
    match name {
        Some(n) => Some(n.clone()),
        None => None,
    }
}

impl ProfileDTO {
    pub fn new(id: String, name: Option<String>) -> (r: ProfileDTO)
        ensures
            r.id == id,
            r.name == name,
    {
        ProfileDTO { id, name }
    }

    /// A copy of this identity.
    pub fn duplicate(&self) -> (r: ProfileDTO)
        ensures
            r == *self,
    {
        ProfileDTO { id: self.id.clone(), name: copy_name(&self.name) }
    }

    /// The display name, or an empty string where none is known.
    pub fn name_or_empty(&self) -> (r: String)
        ensures
            r@ == name_or_empty(self.name),
    {
        match &self.name {
            Some(n) => n.clone(),
            None => String::new(),
        }
    }

    /// Whether the display name still has to be looked up by id.
    pub fn needs_name(&self) -> (r: bool)
        ensures
            r == (self.name is None),
    {
        self.name.is_none()
    }

    /// Fills in a display name found by a lookup by id; a known name stays.
    pub fn with_found_name(self, found: Option<String>) -> (r: ProfileDTO)
        ensures
            r.id == self.id,
            r.name == (if self.name is Some { self.name } else { found }),
    {
        match self.name {
            Some(n) => ProfileDTO { id: self.id, name: Some(n) },
            None => ProfileDTO { id: self.id, name: found },
        }
    }
}

} // verus!
