//! Permission sets that say who may modify a configuration value at run
//! time, and their encoding in the foreign runtime's integer field.

use vstd::prelude::*;

verus! {

/// The encoding of a permission set in the foreign runtime's `modifiable`
/// field: each scope owns one bit, so a combined permission carries the bit
/// of every member scope (the sum below equals the bitwise or, because the
/// bits are distinct powers of two).
pub open spec fn bits_of(user: bool, dir: bool, system: bool) -> u32 {
    ((if user { 1u32 } else { 0u32 }) + (if dir { 2u32 } else { 0u32 })
        + (if system { 4u32 } else { 0u32 })) as u32
}

/// A set of configuration scopes allowed to change an ini value at run
/// time. The set is closed: values arise only from the named constructors
/// and from [`IniEntryPermission::or`], which unions two sets the way the
/// foreign runtime's permission constants combine under bitwise or.
#[derive(Clone, Copy, PartialEq, Eq, Structural, Debug)]
pub struct IniEntryPermission {
    user: bool,
    dir: bool,
    system: bool,
}

impl IniEntryPermission {
    /// Whether the per-user configuration scope may modify the value.
    pub closed spec fn has_user(self) -> bool {
        self.user
    }

    /// Whether the per-directory configuration scope may modify the value.
    pub closed spec fn has_dir(self) -> bool {
        self.dir
    }

    /// Whether the system (global) configuration scope may modify the value.
    pub closed spec fn has_system(self) -> bool {
        self.system
    }

    /// The permission's encoding in the foreign integer field.
    pub open spec fn spec_bits(self) -> u32 {
        bits_of(self.has_user(), self.has_dir(), self.has_system())
    }

    /// Modifiable in the per-user configuration scope.
    pub fn per_user() -> (p: Self)
        ensures
            p.has_user() && !p.has_dir() && !p.has_system(),
    {
        IniEntryPermission { user: true, dir: false, system: false }
    }

    /// Modifiable in the per-directory configuration scope.
    pub fn per_dir() -> (p: Self)
        ensures
            !p.has_user() && p.has_dir() && !p.has_system(),
    {
        IniEntryPermission { user: false, dir: true, system: false }
    }

    /// Modifiable at system (global) scope.
    pub fn system() -> (p: Self)
        ensures
            !p.has_user() && !p.has_dir() && p.has_system(),
    {
        IniEntryPermission { user: false, dir: false, system: true }
    }

    /// Modifiable in all scopes: the union of the other three.
    pub fn all() -> (p: Self)
        ensures
            p.has_user() && p.has_dir() && p.has_system(),
    {
        IniEntryPermission { user: true, dir: true, system: true }
    }

    /// Combines two permissions into the union of their scopes.
    pub fn or(self, other: Self) -> (r: Self)
        ensures
            r.has_user() == (self.has_user() || other.has_user()),
            r.has_dir() == (self.has_dir() || other.has_dir()),
            r.has_system() == (self.has_system() || other.has_system()),
    {
        IniEntryPermission {
            user: self.user || other.user,
            dir: self.dir || other.dir,
            system: self.system || other.system,
        }
    }

    /// The encoded permission bits, as they are handed to the foreign
    /// runtime at the serialization boundary.
    pub fn bits(&self) -> (r: u32)
        ensures
            r == self.spec_bits(),
    {
        let mut r: u32 = 0;
        if self.user {
            r = r + 1;
        }
        if self.dir {
            r = r + 2;
        }
        if self.system {
            r = r + 4;
        }
        r
    }
}

} // verus!
