//! The dispatch-table layout that the host fixes for its two interfaces.
//!
//! A dispatch table is an array of function pointers. An entry is addressed by
//! its position alone, so the positions below have to be those of the host's
//! binary: entries this library never calls are declared all the same, to keep
//! the ones it does call in place.

use vstd::prelude::*;

verus! {

/// The interfaces of the host that this library reads.
#[derive(Clone, Copy, Debug, PartialEq, Eq, Structural)]
pub enum Interface {
    /// The application object.
    Application,
    /// A track object.
    Track,
}

/// How an entry of a dispatch table is called. Every entry takes the object
/// itself first.
#[derive(Clone, Copy, Debug, PartialEq, Eq, Structural)]
pub enum Signature {
    /// Takes an interface identifier and a place for an object; returns a
    /// status code.
    QueryInterface,
    /// Takes nothing more; returns a reference count.
    Counting,
    /// Declared to hold its position only, as taking nothing more and
    /// returning a status code. Never called.
    Placeholder,
    /// Takes a place for a 32-bit integer; returns a status code.
    OutInt32,
    /// Takes a place for a 64-bit integer; returns a status code.
    OutInt64,
    /// Takes a place for an object; returns a status code.
    OutObject,
    /// Takes a place for a length-prefixed text; returns a status code.
    OutText,
}

/// The entries this library calls.
#[derive(Clone, Copy, Debug, PartialEq, Eq, Structural)]
pub enum Method {
    GetPlayerState,
    GetPlayerPosition,
    GetCurrentTrack,
    GetName,
    GetArtist,
}

/// The number of entries every automation interface begins with: three for
/// object identity and lifetime, four for late-bound dispatch.
pub const INHERITED_ENTRIES: usize = 7;

/// The number of entries in the table of the application interface.
pub const APPLICATION_ENTRIES: usize = 63;

/// The number of entries in the table of the track interface.
pub const TRACK_ENTRIES: usize = 23;

/// The number of entries in the table of an interface.
pub open spec fn entries(interface: Interface) -> nat {
    match interface {
        Interface::Application => APPLICATION_ENTRIES as nat,
        Interface::Track => TRACK_ENTRIES as nat,
    }
}

/// The interface whose table holds a method.
pub open spec fn interface_of(method: Method) -> Interface {
    match method {
        Method::GetPlayerState => Interface::Application,
        Method::GetPlayerPosition => Interface::Application,
        Method::GetCurrentTrack => Interface::Application,
        Method::GetName => Interface::Track,
        Method::GetArtist => Interface::Track,
    }
}

/// The position of a method in the table of its interface, counted from zero.
pub open spec fn slot_of(method: Method) -> nat {
    match method {
        Method::GetPlayerState => 39,
        Method::GetPlayerPosition => 40,
        Method::GetCurrentTrack => 62,
        Method::GetName => 8,
        Method::GetArtist => 22,
    }
}

/// How a method is called.
pub open spec fn signature_of(method: Method) -> Signature {
    match method {
        Method::GetPlayerState => Signature::OutInt32,
        Method::GetPlayerPosition => Signature::OutInt64,
        Method::GetCurrentTrack => Signature::OutObject,
        Method::GetName => Signature::OutText,
        Method::GetArtist => Signature::OutText,
    }
}

/// The method that this library calls at a position of an interface's table,
/// if it calls any there.
pub open spec fn method_at(interface: Interface, slot: int) -> Option<Method> {
    match interface {
        Interface::Application => if slot == 39 {
            Some(Method::GetPlayerState)
        } else if slot == 40 {
            Some(Method::GetPlayerPosition)
        } else if slot == 62 {
            Some(Method::GetCurrentTrack)
        } else {
            None
        },
        Interface::Track => if slot == 8 {
            Some(Method::GetName)
        } else if slot == 22 {
            Some(Method::GetArtist)
        } else {
            None
        },
    }
}

/// The declaration at a position of an interface's table; none outside the
/// table.
pub open spec fn declared(interface: Interface, slot: int) -> Option<Signature> {
    if slot < 0 || slot >= entries(interface) {
        None
    } else if slot == 0 {
        Some(Signature::QueryInterface)
    } else if slot <= 2 {
        Some(Signature::Counting)
    } else {
        match method_at(interface, slot) {
            Some(method) => Some(signature_of(method)),
            None => Some(Signature::Placeholder),
        }
    }
}

/// The width of one table entry in bytes: that of a pointer on the machine
/// this runs on.
pub open spec fn pointer_bytes() -> nat {
    (usize::BITS / 8) as nat
}

/// The distance in bytes from the start of a table to the entry at a position.
pub open spec fn entry_offset(slot: nat) -> nat {
    slot * pointer_bytes()
}

impl Interface {
    /// The number of entries in the table of this interface.
    pub fn entries(self) -> (n: usize)
        ensures
            n == entries(self),
    {
        match self {
            Interface::Application => APPLICATION_ENTRIES,
            Interface::Track => TRACK_ENTRIES,
        }
    }

    /// The method that this library calls at a position of this interface's
    /// table, if it calls any there.
    pub fn method_at(self, slot: usize) -> (r: Option<Method>)
        ensures
            r == method_at(self, slot as int),
    {
        match self {
            Interface::Application => {
                if slot == 39 {
                    Some(Method::GetPlayerState)
                } else if slot == 40 {
                    Some(Method::GetPlayerPosition)
                } else if slot == 62 {
                    Some(Method::GetCurrentTrack)
                } else {
                    None
                }
            },
            Interface::Track => {
                if slot == 8 {
                    Some(Method::GetName)
                } else if slot == 22 {
                    Some(Method::GetArtist)
                } else {
                    None
                }
            },
        }
    }

    /// The declaration at a position of this interface's table, or none if
    /// the table has no such position.
    pub fn declared(self, slot: usize) -> (r: Option<Signature>)
        ensures
            r == declared(self, slot as int),
    {
        if slot >= self.entries() {
            None
        } else if slot == 0 {
            Some(Signature::QueryInterface)
        } else if slot <= 2 {
            Some(Signature::Counting)
        } else {
            match self.method_at(slot) {
                Some(method) => Some(method.signature()),
                None => Some(Signature::Placeholder),
            }
        }
    }
}

impl Method {
    /// The interface whose table holds this method.
    pub fn interface(self) -> (i: Interface)
        ensures
            i == interface_of(self),
    {
        match self {
            Method::GetPlayerState => Interface::Application,
            Method::GetPlayerPosition => Interface::Application,
            Method::GetCurrentTrack => Interface::Application,
            Method::GetName => Interface::Track,
            Method::GetArtist => Interface::Track,
        }
    }

    /// The position of this method in the table of its interface.
    pub fn slot(self) -> (n: usize)
        ensures
            n == slot_of(self),
    {
        match self {
            Method::GetPlayerState => 39,
            Method::GetPlayerPosition => 40,
            Method::GetCurrentTrack => 62,
            Method::GetName => 8,
            Method::GetArtist => 22,
        }
    }

    /// How this method is called.
    pub fn signature(self) -> (s: Signature)
        ensures
            s == signature_of(self),
    {
        match self {
            Method::GetPlayerState => Signature::OutInt32,
            Method::GetPlayerPosition => Signature::OutInt64,
            Method::GetCurrentTrack => Signature::OutObject,
            Method::GetName => Signature::OutText,
            Method::GetArtist => Signature::OutText,
        }
    }

    /// The distance in bytes from the start of the table to this method's
    /// entry.
    pub fn offset(self) -> (bytes: usize)
        ensures
            bytes == entry_offset(slot_of(self)),
    {
        let width: usize = (usize::BITS / 8) as usize;
        self.slot() * width
    }
}

/// No two methods share a table entry: different methods differ in their
/// interface or in their position.
pub proof fn lemma_methods_apart(a: Method, b: Method)
    requires
        a != b,
    ensures
        interface_of(a) != interface_of(b) || slot_of(a) != slot_of(b),
{
}

/// A method is found at a position of a table exactly when that is its
/// interface and its position.
pub proof fn lemma_method_at(interface: Interface, slot: int, method: Method)
    ensures
        method_at(interface, slot) == Some(method) <==> interface_of(method) == interface
            && slot_of(method) == slot,
{
}

/// Every method lies inside the table of its interface, behind the inherited
/// entries, and is declared there with its own signature.
pub proof fn lemma_method_declared(method: Method)
    ensures
        INHERITED_ENTRIES <= slot_of(method) < entries(interface_of(method)),
        declared(interface_of(method), slot_of(method) as int) == Some(signature_of(method)),
{
}

/// A table entry is as wide as a pointer: four bytes or eight.
pub proof fn lemma_pointer_bytes()
    ensures
        pointer_bytes() == 4 || pointer_bytes() == 8,
{
}

/// The entries of a table lie apart: a later entry begins no earlier than
/// where an earlier one ends, so no two positions share an offset.
pub proof fn lemma_entries_apart(first: nat, second: nat)
    requires
        first < second,
    ensures
        entry_offset(first) + pointer_bytes() <= entry_offset(second),
        entry_offset(first) != entry_offset(second),
{
    let width = pointer_bytes();
    assert(width > 0);
    assert(first * width + width <= second * width) by (nonlinear_arith)
        requires
            first < second,
            width > 0,
    ;
}

} // verus!
