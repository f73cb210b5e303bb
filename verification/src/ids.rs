//! Identifiers. Each holds the 128-bit value of a UUID.
use vstd::prelude::*;

verus! {

/// The node that made a change.
#[derive(Debug, Clone, Copy, PartialEq, Eq, Structural, Hash)]
pub struct NodeId(pub u128);

/// A document.
#[derive(Debug, Clone, Copy, PartialEq, Eq, Structural, Hash)]
pub struct DocumentId(pub u128);

/// An entity of the knowledge graph.
#[derive(Debug, Clone, Copy, PartialEq, Eq, Structural, Hash)]
pub struct EntityId(pub u128);

/// A relationship of the knowledge graph.
#[derive(Debug, Clone, Copy, PartialEq, Eq, Structural, Hash)]
pub struct RelationshipId(pub u128);

} // verus!

verus! {

/// Byte `i` (0 to 15) of a UUID's value, most significant first.
pub open spec fn uuid_byte(x: u128, i: int) -> u8 {
    ((x >> (((15 - i) * 8) as u32)) & 0xff) as u8
}

pub open spec fn uuid_bytes(x: u128, from: int, to: int) -> Seq<u8> {
    Seq::new((to - from) as nat, |i: int| uuid_byte(x, from + i))
}

/// The hyphenated lower-case text of a UUID: 8-4-4-4-12 hexadecimal digits.
pub open spec fn uuid_text(x: u128) -> Seq<char> {
    crate::hex::hex_encode(uuid_bytes(x, 0, 4)) + "-"@ + crate::hex::hex_encode(uuid_bytes(x, 4, 6)) + "-"@
        + crate::hex::hex_encode(uuid_bytes(x, 6, 8)) + "-"@ + crate::hex::hex_encode(uuid_bytes(x, 8, 10))
        + "-"@ + crate::hex::hex_encode(uuid_bytes(x, 10, 16))
}

fn uuid_group(x: u128, from: u32, to: u32) -> (v: Vec<u8>)
    requires
        from <= to <= 16,
    ensures
        v@ == uuid_bytes(x, from as int, to as int),
{
    let mut v: Vec<u8> = Vec::new();
    let mut i = from;
    while i < to
        invariant
            from <= i <= to <= 16,
            v@ =~= uuid_bytes(x, from as int, i as int),
        decreases to - i,
    {
        let shift: u32 = (15 - i) * 8;
        v.push(((x >> shift) & 0xff) as u8);
        i = i + 1;
    }
    v
}

/// The hyphenated lower-case text of a UUID, as `uuid::Uuid` displays it.
pub fn uuid_to_string(x: u128) -> (s: String)
    ensures
        s@ == uuid_text(x),
{
    let mut s = crate::hex::encode(uuid_group(x, 0, 4).as_slice());
    s.append("-");
    s.append(crate::hex::encode(uuid_group(x, 4, 6).as_slice()).as_str());
    s.append("-");
    s.append(crate::hex::encode(uuid_group(x, 6, 8).as_slice()).as_str());
    s.append("-");
    s.append(crate::hex::encode(uuid_group(x, 8, 10).as_slice()).as_str());
    s.append("-");
    s.append(crate::hex::encode(uuid_group(x, 10, 16).as_slice()).as_str());
    s
}

impl DocumentId {
    /// The id as text, in the hyphenated form.
    pub fn to_string(&self) -> (s: String)
        ensures
            s@ == uuid_text(self.0),
    {
        uuid_to_string(self.0)
    }
}

impl NodeId {
    /// The id as text, in the hyphenated form.
    pub fn to_string(&self) -> (s: String)
        ensures
            s@ == uuid_text(self.0),
    {
        uuid_to_string(self.0)
    }
}

impl EntityId {
    /// The id as text, in the hyphenated form.
    pub fn to_string(&self) -> (s: String)
        ensures
            s@ == uuid_text(self.0),
    {
        uuid_to_string(self.0)
    }
}

impl RelationshipId {
    /// The id as text, in the hyphenated form.
    pub fn to_string(&self) -> (s: String)
        ensures
            s@ == uuid_text(self.0),
    {
        uuid_to_string(self.0)
    }
}

} // verus!
