//! Device addresses as they are observed in advertisements.

use vstd::prelude::*;

verus! {

/// Code of a public device address.
pub const KIND_PUBLIC: u8 = 0;

/// Code of a random device address.
pub const KIND_RANDOM: u8 = 1;

/// Code of a resolvable private address that falls back to the public one.
pub const KIND_RESOLVABLE_PUBLIC: u8 = 2;

/// Code of a resolvable private address that falls back to the random one.
pub const KIND_RESOLVABLE_RANDOM: u8 = 3;

/// Code of an anonymous advertisement, which carries no address.
pub const KIND_ANONYMOUS: u8 = 0xff;

/// Addressing kind of a device, kept as the code the controller reports.
#[derive(Clone, Copy, Debug, PartialEq, Eq, Structural)]
pub struct AddrKind {
    pub code: u8,
}

/// A device address: its kind and its six bytes, least significant first.
#[derive(Clone, Copy, Debug, Eq)]
pub struct Address {
    pub kind: AddrKind,
    pub bytes: [u8; 6],
}

impl PartialEq for Address {
    fn eq(&self, other: &Address) -> (equal: bool) {
        let equal = self.kind.code == other.kind.code && self.bytes[0] == other.bytes[0]
            && self.bytes[1] == other.bytes[1] && self.bytes[2] == other.bytes[2]
            && self.bytes[3] == other.bytes[3] && self.bytes[4] == other.bytes[4]
            && self.bytes[5] == other.bytes[5];
        proof {
            if equal {
                assert(self.bytes =~= other.bytes);
            }
        }
        equal
    }
}

impl vstd::std_specs::cmp::PartialEqSpecImpl for Address {
    open spec fn obeys_eq_spec() -> bool {
        true
    }

    open spec fn eq_spec(&self, other: &Address) -> bool {
        *self == *other
    }
}

/// Whether `code` is one of the five kinds an address can have.
pub open spec fn is_known_kind(code: u8) -> bool {
    code == KIND_PUBLIC || code == KIND_RANDOM || code == KIND_RESOLVABLE_PUBLIC
        || code == KIND_RESOLVABLE_RANDOM || code == KIND_ANONYMOUS
}

/// The name under which a kind is reported.
pub open spec fn kind_name(code: u8) -> Seq<char> {
    if code == KIND_PUBLIC {
        "public"@
    } else if code == KIND_RANDOM {
        "random"@
    } else if code == KIND_RESOLVABLE_PUBLIC {
        "resolvable-public"@
    } else if code == KIND_RESOLVABLE_RANDOM {
        "resolvable-random"@
    } else if code == KIND_ANONYMOUS {
        "anonymous-adv"@
    } else {
        "unknown"@
    }
}

impl AddrKind {
    pub fn new(code: u8) -> (kind: AddrKind)
        ensures
            kind.code == code,
    {
        AddrKind { code }
    }

    pub fn into_inner(self) -> (code: u8)
        ensures
            code == self.code,
    {
        self.code
    }

    /// Whether this is one of the five kinds an address can have.
    pub fn is_known(self) -> (known: bool)
        ensures
            known == is_known_kind(self.code),
    {
        self.code == KIND_PUBLIC || self.code == KIND_RANDOM || self.code
            == KIND_RESOLVABLE_PUBLIC || self.code == KIND_RESOLVABLE_RANDOM || self.code
            == KIND_ANONYMOUS
    }
}

impl Address {
    pub fn new(kind: AddrKind, bytes: [u8; 6]) -> (address: Address)
        ensures
            address.kind == kind,
            address.bytes == bytes,
    {
        Address { kind, bytes }
    }

    /// A random address with the given bytes.
    pub fn random(bytes: [u8; 6]) -> (address: Address)
        ensures
            address.kind.code == KIND_RANDOM,
            address.bytes == bytes,
    {
        Address { kind: AddrKind { code: KIND_RANDOM }, bytes }
    }
}

/// Name of an addressing kind, for diagnostics.
pub fn addr_kind_str(k: AddrKind) -> (name: &'static str)
    ensures
        name@ == kind_name(k.code),
{
    let byte: u8 = k.into_inner();
    if byte == KIND_RANDOM {
        "random"
    } else if byte == KIND_PUBLIC {
        "public"
    } else if byte == KIND_RESOLVABLE_PUBLIC {
        "resolvable-public"
    } else if byte == KIND_RESOLVABLE_RANDOM {
        "resolvable-random"
    } else if byte == KIND_ANONYMOUS {
        "anonymous-adv"
    } else {
        "unknown"
    }
}

} // verus!
