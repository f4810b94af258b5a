//! Atom resolution: protocol atom names become server-assigned identifiers.
//! The backend interns every required name up front (one batched round
//! trip); this module owns the logic on the replies — the "none" check, the
//! resolved table, and the lazy cell that caches a deferred resolution.

use vstd::prelude::*;
use vstd::string::StringExecFns;
use crate::error::Error;

verus! {

/// The protocol's "no such atom" sentinel. A required name that resolves to
/// it is a fatal error: no hint can be published without the atom.
pub const ATOM_NONE: u32 = 0;

/// How many atom names the adapter requires.
pub const ATOM_NAME_COUNT: usize = 10;

/// The EWMH atom names the adapter requires, in the fixed order in which
/// their intern replies are handed back.
#[derive(Debug, Clone, Copy, PartialEq, Eq, Structural)]
pub enum AtomName {
    WindowType,
    WindowTypeDock,
    State,
    StateSkipTaskbar,
    StateBelow,
    StateSticky,
    Strut,
    StrutPartial,
    Desktop,
    AllowedActions,
}

/// The position of each required name in the batched reply order.
pub open spec fn index_spec(name: AtomName) -> int {
    match name {
        AtomName::WindowType => 0,
        AtomName::WindowTypeDock => 1,
        AtomName::State => 2,
        AtomName::StateSkipTaskbar => 3,
        AtomName::StateBelow => 4,
        AtomName::StateSticky => 5,
        AtomName::Strut => 6,
        AtomName::StrutPartial => 7,
        AtomName::Desktop => 8,
        AtomName::AllowedActions => 9,
    }
}

/// The name at each position of the batched reply order.
pub open spec fn atom_of_index(i: int) -> AtomName {
    if i == 0 {
        AtomName::WindowType
    } else if i == 1 {
        AtomName::WindowTypeDock
    } else if i == 2 {
        AtomName::State
    } else if i == 3 {
        AtomName::StateSkipTaskbar
    } else if i == 4 {
        AtomName::StateBelow
    } else if i == 5 {
        AtomName::StateSticky
    } else if i == 6 {
        AtomName::Strut
    } else if i == 7 {
        AtomName::StrutPartial
    } else if i == 8 {
        AtomName::Desktop
    } else {
        AtomName::AllowedActions
    }
}

impl AtomName {
    /// The wire name the backend interns for this atom.
    pub fn as_str(&self) -> (r: &'static str)
        ensures
            r@ == name_spec(*self),
    {
        match *self {
            AtomName::WindowType => "_NET_WM_WINDOW_TYPE",
            AtomName::WindowTypeDock => "_NET_WM_WINDOW_TYPE_DOCK",
            AtomName::State => "_NET_WM_STATE",
            AtomName::StateSkipTaskbar => "_NET_WM_STATE_SKIP_TASKBAR",
            AtomName::StateBelow => "_NET_WM_STATE_BELOW",
            AtomName::StateSticky => "_NET_WM_STATE_STICKY",
            AtomName::Strut => "_NET_WM_STRUT",
            AtomName::StrutPartial => "_NET_WM_STRUT_PARTIAL",
            AtomName::Desktop => "_NET_WM_DESKTOP",
            AtomName::AllowedActions => "_NET_WM_ALLOWED_ACTIONS",
        }
    }
}

/// The wire name of each required atom.
pub open spec fn name_spec(name: AtomName) -> Seq<char> {
    match name {
        AtomName::WindowType => "_NET_WM_WINDOW_TYPE"@,
        AtomName::WindowTypeDock => "_NET_WM_WINDOW_TYPE_DOCK"@,
        AtomName::State => "_NET_WM_STATE"@,
        AtomName::StateSkipTaskbar => "_NET_WM_STATE_SKIP_TASKBAR"@,
        AtomName::StateBelow => "_NET_WM_STATE_BELOW"@,
        AtomName::StateSticky => "_NET_WM_STATE_STICKY"@,
        AtomName::Strut => "_NET_WM_STRUT"@,
        AtomName::StrutPartial => "_NET_WM_STRUT_PARTIAL"@,
        AtomName::Desktop => "_NET_WM_DESKTOP"@,
        AtomName::AllowedActions => "_NET_WM_ALLOWED_ACTIONS"@,
    }
}

/// All required names, in reply order, for the backend to intern in one
/// batch.
pub fn all_atom_names() -> (r: Vec<AtomName>)
    ensures
        r@.len() == ATOM_NAME_COUNT,
        forall|i: int| 0 <= i < ATOM_NAME_COUNT ==> index_spec(r@[i]) == i,
{
    let mut v: Vec<AtomName> = Vec::new();
    v.push(AtomName::WindowType);
    v.push(AtomName::WindowTypeDock);
    v.push(AtomName::State);
    v.push(AtomName::StateSkipTaskbar);
    v.push(AtomName::StateBelow);
    v.push(AtomName::StateSticky);
    v.push(AtomName::Strut);
    v.push(AtomName::StrutPartial);
    v.push(AtomName::Desktop);
    v.push(AtomName::AllowedActions);
    v
}

/// A deferred atom resolution: either still waiting for the intern reply, or
/// resolved and cached.
#[derive(Debug, Clone, Copy, PartialEq, Eq, Structural)]
pub enum LazyAtom {
    Pending { name: AtomName },
    Ready { atom: u32 },
}

/// What one resolution step does: a pending cell consumes the intern reply —
/// the "none" sentinel is an error, anything else resolves and is cached; a
/// resolved cell returns its cached identifier and ignores the reply.
pub open spec fn accept_reply_spec(a: LazyAtom, reply: u32) -> (Result<u32, Error>, LazyAtom) {
    match a {
        LazyAtom::Pending { name } => {
            if reply == ATOM_NONE {
                (Err(Error::MissingAtom(name)), a)
            } else {
                (Ok(reply), LazyAtom::Ready { atom: reply })
            }
        },
        LazyAtom::Ready { atom } => (Ok(atom), a),
    }
}

impl LazyAtom {
    /// A fresh cell waiting for the intern reply of `name`.
    pub fn pending(name: AtomName) -> (r: Self)
        ensures
            r == (LazyAtom::Pending { name }),
    {
        LazyAtom::Pending { name }
    }

    /// Whether resolving this cell still needs a reply from the server.
    pub fn needs_round_trip(&self) -> (r: bool)
        ensures
            r == (*self is Pending),
    {
        match *self {
            LazyAtom::Pending { .. } => true,
            LazyAtom::Ready { .. } => false,
        }
    }

    /// Resolves the cell against the intern reply, caching the result.
    pub fn accept_reply(&mut self, reply: u32) -> (r: Result<u32, Error>)
        ensures
            r == accept_reply_spec(*old(self), reply).0,
            *final(self) == accept_reply_spec(*old(self), reply).1,
    {
        match *self {
            LazyAtom::Ready { atom } => Ok(atom),
            LazyAtom::Pending { name } => {
                if reply == ATOM_NONE {
                    Err(Error::MissingAtom(name))
                } else {
                    *self = LazyAtom::Ready { atom: reply };
                    Ok(reply)
                }
            },
        }
    }
}

/// Law: atom resolution is idempotent. Once a resolution has succeeded, the
/// cell is resolved — a second resolution returns the same identifier
/// whatever reply the transport would deliver, leaves the cell as it is, and
/// needs no further round trip.
pub proof fn lemma_atom_resolution_idempotent(a: LazyAtom, reply1: u32, reply2: u32)
    requires
        accept_reply_spec(a, reply1).0 is Ok,
    ensures
        accept_reply_spec(accept_reply_spec(a, reply1).1, reply2).0 == accept_reply_spec(
            a,
            reply1,
        ).0,
        accept_reply_spec(accept_reply_spec(a, reply1).1, reply2).1 == accept_reply_spec(
            a,
            reply1,
        ).1,
        !(accept_reply_spec(a, reply1).1 is Pending),
{
}

/// The resolved atom table: one identifier per required name, populated once
/// per connection and immutable thereafter.
#[derive(Debug, Clone, Copy, PartialEq, Eq, Structural)]
pub struct AtomTable {
    pub window_type: u32,
    pub window_type_dock: u32,
    pub state: u32,
    pub state_skip_taskbar: u32,
    pub state_below: u32,
    pub state_sticky: u32,
    pub strut: u32,
    pub strut_partial: u32,
    pub desktop: u32,
    pub allowed_actions: u32,
}

impl AtomTable {
    /// Every required atom resolved to a real identifier.
    pub open spec fn wf(self) -> bool {
        &&& self.window_type != 0
        &&& self.window_type_dock != 0
        &&& self.state != 0
        &&& self.state_skip_taskbar != 0
        &&& self.state_below != 0
        &&& self.state_sticky != 0
        &&& self.strut != 0
        &&& self.strut_partial != 0
        &&& self.desktop != 0
        &&& self.allowed_actions != 0
    }

    /// The identifier stored for a name.
    pub open spec fn lookup(self, name: AtomName) -> u32 {
        match name {
            AtomName::WindowType => self.window_type,
            AtomName::WindowTypeDock => self.window_type_dock,
            AtomName::State => self.state,
            AtomName::StateSkipTaskbar => self.state_skip_taskbar,
            AtomName::StateBelow => self.state_below,
            AtomName::StateSticky => self.state_sticky,
            AtomName::Strut => self.strut,
            AtomName::StrutPartial => self.strut_partial,
            AtomName::Desktop => self.desktop,
            AtomName::AllowedActions => self.allowed_actions,
        }
    }

    /// Populates the table from the batched intern replies, one per required
    /// name in reply order. Succeeds exactly when every reply is a real
    /// identifier; a "none" reply names the first missing atom.
    pub fn from_replies(replies: &Vec<u32>) -> (r: Result<AtomTable, Error>)
        ensures
            r matches Ok(t) ==> {
                &&& replies@.len() == ATOM_NAME_COUNT
                &&& forall|i: int| 0 <= i < ATOM_NAME_COUNT ==> replies@[i] != ATOM_NONE
                &&& forall|i: int|
                    0 <= i < ATOM_NAME_COUNT ==> t.lookup(atom_of_index(i)) == replies@[i]
                &&& t.wf()
            },
            replies@.len() == ATOM_NAME_COUNT && (exists|i: int|
                0 <= i < ATOM_NAME_COUNT && replies@[i] == ATOM_NONE) ==> {
                exists|i: int|
                    {
                        &&& 0 <= i < ATOM_NAME_COUNT
                        &&& replies@[i] == ATOM_NONE
                        &&& (forall|j: int| 0 <= j < i ==> replies@[j] != ATOM_NONE)
                        &&& r == Err::<AtomTable, Error>(Error::MissingAtom(atom_of_index(i)))
                    }
            },
            replies@.len() != ATOM_NAME_COUNT ==> r is Err,
            r is Ok <==> (replies@.len() == ATOM_NAME_COUNT && forall|i: int|
                0 <= i < ATOM_NAME_COUNT ==> replies@[i] != ATOM_NONE),
    {
        if replies.len() != ATOM_NAME_COUNT {
            return Err(Error::Protocol(String::from_str("wrong number of atom replies")));
        }
        let mut k: usize = 0;
        while k < ATOM_NAME_COUNT
            invariant
                k <= ATOM_NAME_COUNT,
                replies@.len() == ATOM_NAME_COUNT,
                forall|j: int| 0 <= j < k ==> replies@[j] != ATOM_NONE,
            decreases ATOM_NAME_COUNT - k,
        {
            if replies[k] == ATOM_NONE {
                let name = AtomName::from_index(k);
                return Err(Error::MissingAtom(name));
            }
            k += 1;
        }
        Ok(AtomTable {
            window_type: replies[0],
            window_type_dock: replies[1],
            state: replies[2],
            state_skip_taskbar: replies[3],
            state_below: replies[4],
            state_sticky: replies[5],
            strut: replies[6],
            strut_partial: replies[7],
            desktop: replies[8],
            allowed_actions: replies[9],
        })
    }

    /// Looks a resolved identifier up by name.
    pub fn get(&self, name: AtomName) -> (r: u32)
        ensures
            r == self.lookup(name),
    {
        match name {
            AtomName::WindowType => self.window_type,
            AtomName::WindowTypeDock => self.window_type_dock,
            AtomName::State => self.state,
            AtomName::StateSkipTaskbar => self.state_skip_taskbar,
            AtomName::StateBelow => self.state_below,
            AtomName::StateSticky => self.state_sticky,
            AtomName::Strut => self.strut,
            AtomName::StrutPartial => self.strut_partial,
            AtomName::Desktop => self.desktop,
            AtomName::AllowedActions => self.allowed_actions,
        }
    }
}

impl AtomName {
    /// The name at a position of the reply order.
    pub fn from_index(i: usize) -> (r: AtomName)
        requires
            i < ATOM_NAME_COUNT,
        ensures
            r == atom_of_index(i as int),
            index_spec(r) == i,
    {
        if i == 0 {
            AtomName::WindowType
        } else if i == 1 {
            AtomName::WindowTypeDock
        } else if i == 2 {
            AtomName::State
        } else if i == 3 {
            AtomName::StateSkipTaskbar
        } else if i == 4 {
            AtomName::StateBelow
        } else if i == 5 {
            AtomName::StateSticky
        } else if i == 6 {
            AtomName::Strut
        } else if i == 7 {
            AtomName::StrutPartial
        } else if i == 8 {
            AtomName::Desktop
        } else {
            AtomName::AllowedActions
        }
    }
}

} // verus!
