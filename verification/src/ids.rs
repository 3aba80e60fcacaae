//! Server identifiers and the team scope an operation runs in.
use crate::text::{push_char, str_eq};
use vstd::prelude::*;

verus! {

/// The width of a server UID.
pub const SERVER_UID_LEN: usize = 22;

/// The decimal digit character for `d` (below ten).
pub open spec fn digit_char(d: nat) -> char {
    if d == 0 {
        '0'
    } else if d == 1 {
        '1'
    } else if d == 2 {
        '2'
    } else if d == 3 {
        '3'
    } else if d == 4 {
        '4'
    } else if d == 5 {
        '5'
    } else if d == 6 {
        '6'
    } else if d == 7 {
        '7'
    } else if d == 8 {
        '8'
    } else {
        '9'
    }
}

/// The decimal representation of `n`, without leading zeros ("0" for zero).
pub open spec fn decimal(n: nat) -> Seq<char>
    decreases n,
{
    if n < 10 {
        seq![digit_char(n)]
    } else {
        decimal(n / 10).push(digit_char(n % 10))
    }
}

/// `n` zero characters.
pub open spec fn zeros(n: nat) -> Seq<char> {
    Seq::new(n, |i: int| '0')
}

/// The UID of a numeric id: its decimal form, padded on the left with zeros
/// to the UID width.
pub open spec fn numeric_uid(n: nat) -> Seq<char> {
    let d = decimal(n);
    if d.len() < SERVER_UID_LEN {
        zeros((SERVER_UID_LEN - d.len()) as nat) + d
    } else {
        d
    }
}

fn digit(d: u64) -> (c: char)
    requires
        d < 10,
    ensures
        c == digit_char(d as nat),
{
    if d == 0 {
        '0'
    } else if d == 1 {
        '1'
    } else if d == 2 {
        '2'
    } else if d == 3 {
        '3'
    } else if d == 4 {
        '4'
    } else if d == 5 {
        '5'
    } else if d == 6 {
        '6'
    } else if d == 7 {
        '7'
    } else if d == 8 {
        '8'
    } else {
        '9'
    }
}

/// The decimal representation of `n`.
pub fn decimal_string(n: u64) -> (r: String)
    ensures
        r@ == decimal(n as nat),
    decreases n,
{
    if n < 10 {
        let mut s = String::new();
        push_char(&mut s, digit(n));
        assert(s@ =~= seq![digit_char(n as nat)]);
        s
    } else {
        let mut s = decimal_string(n / 10);
        push_char(&mut s, digit(n % 10));
        s
    }
}

/// The identifier of an object on the server.
#[derive(Debug)]
pub struct ServerId {
    uid: String,
}

impl View for ServerId {
    type V = Seq<char>;

    closed spec fn view(&self) -> Seq<char> {
        self.uid@
    }
}

impl ServerId {
    /// The id of a numeric identifier: zero-padded to the UID width.
    pub fn from_number(n: u64) -> (r: Self)
        ensures
            r@ == numeric_uid(n as nat),
    {
        let d = decimal_string(n);
        let len = d.unicode_len();
        if len < SERVER_UID_LEN {
            let mut s = String::new();
            let mut i: usize = 0;
            while i < SERVER_UID_LEN - len
                invariant
                    len == d@.len(),
                    len < SERVER_UID_LEN,
                    i <= SERVER_UID_LEN - len,
                    s@ == zeros(i as nat),
                decreases SERVER_UID_LEN - len - i,
            {
                push_char(&mut s, '0');
                assert(s@ =~= zeros((i + 1) as nat));
                i = i + 1;
            }
            s.append(d.as_str());
            ServerId { uid: s }
        } else {
            ServerId { uid: d }
        }
    }

    /// The id whose UID is `uid`, taken as it is.
    pub fn from_string_lossy(uid: &str) -> (r: Self)
        ensures
            r@ == uid@,
    {
        ServerId { uid: String::from_str(uid) }
    }

    /// The UID.
    pub fn uid(&self) -> (r: String)
        ensures
            r@ == self@,
    {
        self.uid.clone()
    }

    /// The UID, borrowed.
    pub fn uid_str(&self) -> (r: &str)
        ensures
            r@ == self@,
    {
        self.uid.as_str()
    }

    /// Whether two ids are the same.
    pub fn same_as(&self, other: &ServerId) -> (r: bool)
        ensures
            r == (self@ == other@),
    {
        str_eq(self.uid.as_str(), other.uid.as_str())
    }
}

impl Clone for ServerId {
    fn clone(&self) -> (r: Self)
        ensures
            r@ == self@,
    {
        ServerId { uid: self.uid.clone() }
    }
}

/// The team an operation acts for: a team, or no team (personal scope).
pub struct TeamContextForOperation {
    team_uid: Option<ServerId>,
}

/// The team of a scope, as a UID.
pub open spec fn scope_team(t: Option<ServerId>) -> Option<Seq<char>> {
    match t {
        Some(id) => Some(id@),
        None => None,
    }
}

impl TeamContextForOperation {
    /// The scope of the team `team_uid`.
    pub fn for_team(team_uid: ServerId) -> (r: Self)
        ensures
            r.team() == Some(team_uid@),
    {
        TeamContextForOperation { team_uid: Some(team_uid) }
    }

    /// The scope that belongs to no team.
    pub fn teamless() -> (r: Self)
        ensures
            r.team() == None::<Seq<char>>,
    {
        TeamContextForOperation { team_uid: None }
    }

    /// The team's UID, if the scope has a team.
    pub closed spec fn team(&self) -> Option<Seq<char>> {
        scope_team(self.team_uid)
    }

    /// The team's id, if the scope has a team.
    pub fn team_uid(&self) -> (r: Option<ServerId>)
        ensures
            scope_team(r) == self.team(),
    {
        match &self.team_uid {
            Some(id) => Some(id.clone()),
            None => None,
        }
    }
}

/// The team a request to the server is sent for; a scoped request carries
/// the team UID in a header, an unscoped one carries none.
pub struct RequestTeamScope {
    pub team_uid: Option<String>,
}

impl RequestTeamScope {
    /// The request scope of an operation scope.
    pub fn from_scope(scope: &TeamContextForOperation) -> (r: Self)
        ensures
            match r.team_uid {
                Some(u) => scope.team() == Some(u@),
                None => scope.team() is None,
            },
    {
        match scope.team_uid() {
            Some(id) => RequestTeamScope { team_uid: Some(id.uid()) },
            None => RequestTeamScope { team_uid: None },
        }
    }

    /// The value of the team header of a request in this scope, if the
    /// request carries one. An absent scope sends no header.
    pub fn team_header_value(scope: Option<&RequestTeamScope>) -> (r: Option<String>)
        ensures
            match scope {
                None => r is None,
                Some(s) => match (r, s.team_uid) {
                    (Some(v), Some(u)) => v@ == u@,
                    (None, None) => true,
                    _ => false,
                },
            },
    {
        match scope {
            None => None,
            Some(s) => match &s.team_uid {
                Some(u) => Some(u.clone()),
                None => None,
            },
        }
    }
}

} // verus!
