use vstd::prelude::*;
use vstd::string::*;

verus! {

/// A team member's privilege level: Owner > Admin > Write > Read.
#[derive(PartialEq, Eq, Structural, Clone, Copy, Debug)]
pub enum Authority {
    Owner,
    Admin,
    Write,
    Read,
}

/// The position of an authority in the privilege order.
pub open spec fn rank(a: Authority) -> nat {
    match a {
        Authority::Owner => 3,
        Authority::Admin => 2,
        Authority::Write => 1,
        Authority::Read => 0,
    }
}

/// Whether an authority suffices where `required` is asked for.
pub open spec fn permits_spec(held: Authority, required: Authority) -> bool {
    rank(held) >= rank(required)
}

/// The stored name of each authority.
pub open spec fn authority_name(a: Authority) -> Seq<char> {
    match a {
        Authority::Owner => "OWNER"@,
        Authority::Admin => "ADMIN"@,
        Authority::Write => "WRITE"@,
        Authority::Read => "READ"@,
    }
}

/// The authority whose stored name is `s`.
pub open spec fn parse_authority(s: Seq<char>) -> Option<Authority> {
    if s == "OWNER"@ {
        Some(Authority::Owner)
    } else if s == "ADMIN"@ {
        Some(Authority::Admin)
    } else if s == "WRITE"@ {
        Some(Authority::Write)
    } else if s == "READ"@ {
        Some(Authority::Read)
    } else {
        None
    }
}

/// The classes of action that the services guard.
#[derive(PartialEq, Eq, Structural, Clone, Copy, Debug)]
pub enum ActionClass {
    Read,
    Write,
    Admin,
}

/// The least authority that each action class asks for.
pub open spec fn required_spec(c: ActionClass) -> Authority {
    match c {
        ActionClass::Read => Authority::Read,
        ActionClass::Write => Authority::Write,
        ActionClass::Admin => Authority::Admin,
    }
}

/// The action class of note creation.
pub const CREATE_NOTE: ActionClass = ActionClass::Write;

impl ActionClass {
    pub fn required(self) -> (r: Authority)
        ensures
            r == required_spec(self),
    {
        match self {
            ActionClass::Read => Authority::Read,
            ActionClass::Write => Authority::Write,
            ActionClass::Admin => Authority::Admin,
        }
    }
}

impl Authority {
    pub fn rank(self) -> (r: u8)
        ensures
            r as nat == rank(self),
    {
        match self {
            Authority::Owner => 3,
            Authority::Admin => 2,
            Authority::Write => 1,
            Authority::Read => 0,
        }
    }

    /// Whether this authority suffices where `required` is asked for.
    pub fn permits(self, required: Authority) -> (r: bool)
        ensures
            r == permits_spec(self, required),
    {
        self.rank() >= required.rank()
    }

    pub fn to_name(self) -> (r: String)
        ensures
            r@ == authority_name(self),
    {
        match self {
            Authority::Owner => String::from_str("OWNER"),
            Authority::Admin => String::from_str("ADMIN"),
            Authority::Write => String::from_str("WRITE"),
            Authority::Read => String::from_str("READ"),
        }
    }

    pub fn from_name(s: &String) -> (r: Option<Authority>)
        ensures
            r == parse_authority(s@),
    {
        if *s == String::from_str("OWNER") {
            Some(Authority::Owner)
        } else if *s == String::from_str("ADMIN") {
            Some(Authority::Admin)
        } else if *s == String::from_str("WRITE") {
            Some(Authority::Write)
        } else if *s == String::from_str("READ") {
            Some(Authority::Read)
        } else {
            None
        }
    }
}

/// Every authority is read back from its stored name.
pub proof fn lemma_authority_name_round_trip(a: Authority)
    ensures
        parse_authority(authority_name(a)) == Some(a),
{
    reveal_strlit("OWNER");
    reveal_strlit("ADMIN");
    reveal_strlit("WRITE");
    reveal_strlit("READ");
    assert("OWNER"@[0] == 'O' && "ADMIN"@[0] == 'A' && "WRITE"@[0] == 'W' && "READ"@[0] == 'R');
}

/// An authority permits an action exactly when its rank is at least the
/// rank that the action asks for; a higher authority permits whatever a
/// lower one does.
pub proof fn lemma_authorization_monotone(held: Authority, other: Authority, required: Authority)
    ensures
        permits_spec(held, required) <==> rank(held) >= rank(required),
        permits_spec(held, required) && rank(other) >= rank(held) ==> permits_spec(
            other,
            required,
        ),
        permits_spec(held, held),
        held != required ==> (permits_spec(held, required) != permits_spec(required, held)),
{
}

} // verus!
