//! Construction and validation of single ini entry records.
//!
//! The foreign runtime consumes records holding narrow, null-free byte
//! strings with explicit 16-bit length fields, permission bits in one
//! byte, and callback and context slots that this registrar always leaves
//! empty. Validation runs entirely before any foreign-facing memory is
//! built, so a malformed entry never reaches the runtime.

use vstd::prelude::*;

use crate::permission::IniEntryPermission;

verus! {

/// No byte of the string is a null byte, so the string survives the trip
/// through a C string pointer without truncation.
pub open spec fn null_free(s: Seq<u8>) -> bool {
    forall|i: int| 0 <= i < s.len() ==> s[i] != 0
}

/// The string fits the foreign record: null-free, and short enough for the
/// 16-bit length field.
pub open spec fn valid_bytes(s: Seq<u8>) -> bool {
    null_free(s) && s.len() <= 65535
}

/// A reason the registrar rejects an entry, before any foreign-facing
/// memory exists.
#[derive(Clone, Copy, PartialEq, Eq, Structural, Debug)]
pub enum IniEntryError {
    /// A string holds an embedded null byte, so it cannot be represented as
    /// a narrow C string.
    Encoding,
    /// A string is longer than the 16-bit length field allows.
    LengthOverflow,
    /// The permission bits do not fit the foreign integer field. The closed
    /// permission set keeps this from ever happening, but the conversion is
    /// checked rather than assumed.
    PermissionEncoding,
}

/// The error that building an entry from the given strings reports: an
/// embedded null byte is found before an oversized length is.
pub open spec fn build_error(name: Seq<u8>, value: Seq<u8>) -> IniEntryError {
    if !null_free(name) || !null_free(value) {
        IniEntryError::Encoding
    } else {
        IniEntryError::LengthOverflow
    }
}

/// The mathematical content of one foreign-layout record.
#[verifier::ext_equal]
pub ghost struct EntryData {
    /// The entry's name; the terminator record has none (a null pointer in
    /// the foreign layout).
    pub name: Option<Seq<u8>>,
    /// Address of a foreign modification hook; never set by this registrar.
    pub on_modify: Option<usize>,
    /// Addresses of the hook's three context arguments; never set here.
    pub mh_arg1: Option<usize>,
    pub mh_arg2: Option<usize>,
    pub mh_arg3: Option<usize>,
    /// The entry's default value; the terminator record has none.
    pub value: Option<Seq<u8>>,
    /// Address of a foreign display hook; never set by this registrar.
    pub displayer: Option<usize>,
    /// The encoded permission bits.
    pub modifiable: u8,
    /// Exact byte length of the default value.
    pub value_length: u16,
    /// Exact byte length of the name.
    pub name_length: u16,
}

/// The all-zero record: the sentinel that ends every materialized list.
pub open spec fn zero_entry() -> EntryData {
    EntryData {
        name: None,
        on_modify: None,
        mh_arg1: None,
        mh_arg2: None,
        mh_arg3: None,
        value: None,
        displayer: None,
        modifiable: 0,
        value_length: 0,
        name_length: 0,
    }
}

impl EntryData {
    /// A record the foreign runtime can consume: either the terminator, or
    /// a validated entry whose length fields match its strings exactly and
    /// whose callback and context slots are all empty.
    pub open spec fn wf(self) -> bool {
        ||| self == zero_entry()
        ||| {
            &&& self.name matches Some(n) && valid_bytes(n) && self.name_length as nat == n.len()
            &&& self.value matches Some(v) && valid_bytes(v) && self.value_length as nat
                == v.len()
            &&& self.on_modify is None
            &&& self.mh_arg1 is None
            &&& self.mh_arg2 is None
            &&& self.mh_arg3 is None
            &&& self.displayer is None
        }
    }
}

/// The bytes a string field holds, if any.
pub open spec fn bytes_view(o: Option<Vec<u8>>) -> Option<Seq<u8>> {
    match o {
        Some(v) => Some(v@),
        None => None,
    }
}

/// One ini entry definition, laid out like the foreign runtime's record:
/// owned copies of the name and default-value strings next to their exact
/// byte lengths, the encoded permission bits, and the callback and context
/// slots (opaque foreign addresses) that this registrar always leaves
/// empty. Values are built only by [`IniEntryDef::new`] and
/// [`IniEntryDef::end`], so every record in circulation is well-formed.
#[derive(Debug)]
pub struct IniEntryDef {
    name: Option<Vec<u8>>,
    on_modify: Option<usize>,
    mh_arg1: Option<usize>,
    mh_arg2: Option<usize>,
    mh_arg3: Option<usize>,
    value: Option<Vec<u8>>,
    displayer: Option<usize>,
    modifiable: u8,
    value_length: u16,
    name_length: u16,
}

impl View for IniEntryDef {
    type V = EntryData;

    closed spec fn view(&self) -> EntryData {
        EntryData {
            name: bytes_view(self.name),
            on_modify: self.on_modify,
            mh_arg1: self.mh_arg1,
            mh_arg2: self.mh_arg2,
            mh_arg3: self.mh_arg3,
            value: bytes_view(self.value),
            displayer: self.displayer,
            modifiable: self.modifiable,
            value_length: self.value_length,
            name_length: self.name_length,
        }
    }
}

/// Scans a byte string for an embedded null byte.
fn contains_nul(bytes: &Vec<u8>) -> (found: bool)
    ensures
        found == !null_free(bytes@),
{
    let mut i: usize = 0;
    while i < bytes.len()
        invariant
            i <= bytes@.len(),
            forall|j: int| 0 <= j < i ==> bytes@[j] != 0,
        decreases bytes@.len() - i,
    {
        if bytes[i] == 0 {
            return true;
        }
        i = i + 1;
    }
    false
}

impl IniEntryDef {
    /// Returns the empty record that signals the end of an entry list, also
    /// usable as a template whose fields are all at their zero or null
    /// value.
    pub fn end() -> (r: Self)
        ensures
            r@ == zero_entry(),
            r@.wf(),
    {
        IniEntryDef {
            name: None,
            on_modify: None,
            mh_arg1: None,
            mh_arg2: None,
            mh_arg3: None,
            value: None,
            displayer: None,
            modifiable: 0,
            value_length: 0,
            name_length: 0,
        }
    }

    /// Builds a validated entry from a name, a default value and a
    /// permission, taking ownership of the two strings.
    ///
    /// Both strings must be null-free and at most 65535 bytes long; the
    /// permission must fit the foreign byte-wide field (its closed set
    /// guarantees that, but the conversion is checked). On success the
    /// record holds the exact strings, their exact byte counts, and the
    /// encoded permission bits, with every callback slot empty. A string
    /// with an embedded null byte is reported before an oversized one.
    pub fn new(name: Vec<u8>, default_value: Vec<u8>, permission: &IniEntryPermission) -> (r:
        Result<Self, IniEntryError>)
        ensures
            r is Ok <==> valid_bytes(name@) && valid_bytes(default_value@),
            (r matches Ok(e) ==> {
                &&& e@.name == Some(name@)
                &&& e@.name_length as nat == name@.len()
                &&& e@.value == Some(default_value@)
                &&& e@.value_length as nat == default_value@.len()
                &&& e@.modifiable as u32 == permission.spec_bits()
                &&& e@.on_modify is None
                &&& e@.mh_arg1 is None
                &&& e@.mh_arg2 is None
                &&& e@.mh_arg3 is None
                &&& e@.displayer is None
                &&& e@.wf()
            }),
            (r matches Err(err) ==> err == build_error(name@, default_value@)),
    {
        if contains_nul(&name) {
            return Err(IniEntryError::Encoding);
        }
        if contains_nul(&default_value) {
            return Err(IniEntryError::Encoding);
        }
        if name.len() > 65535 {
            return Err(IniEntryError::LengthOverflow);
        }
        if default_value.len() > 65535 {
            return Err(IniEntryError::LengthOverflow);
        }
        let bits: u32 = permission.bits();
        if bits > 255 {
            return Err(IniEntryError::PermissionEncoding);
        }
        let name_length: u16 = name.len() as u16;
        let value_length: u16 = default_value.len() as u16;
        Ok(
            IniEntryDef {
                name: Some(name),
                on_modify: None,
                mh_arg1: None,
                mh_arg2: None,
                mh_arg3: None,
                value: Some(default_value),
                displayer: None,
                modifiable: bits as u8,
                value_length,
                name_length,
            },
        )
    }

    /// The entry's name, if any: the terminator record has none.
    pub fn name(&self) -> (r: &Option<Vec<u8>>)
        ensures
            bytes_view(*r) == self@.name,
    {
        &self.name
    }

    /// The entry's default value, if any: the terminator record has none.
    pub fn value(&self) -> (r: &Option<Vec<u8>>)
        ensures
            bytes_view(*r) == self@.value,
    {
        &self.value
    }

    /// The exact byte length of the name.
    pub fn name_length(&self) -> (r: u16)
        ensures
            r == self@.name_length,
    {
        self.name_length
    }

    /// The exact byte length of the default value.
    pub fn value_length(&self) -> (r: u16)
        ensures
            r == self@.value_length,
    {
        self.value_length
    }

    /// The encoded permission bits.
    pub fn modifiable(&self) -> (r: u8)
        ensures
            r == self@.modifiable,
    {
        self.modifiable
    }
}

} // verus!
