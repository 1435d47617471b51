use crate::attr::{AttrMap, AttrSeq, AttrValueV};
use crate::error::AllError;
use crate::model::{Note, Project, Record, Team, TeamInvite, TeamUser};
use crate::scan::{DecodePolicy, Scan};
use vstd::prelude::*;
use vstd::string::*;

verus! {

/// A single put for the store to make.
#[derive(Debug)]
pub struct PutRequest {
    pub table: String,
    pub item: AttrMap,
}

/// A single delete by exact key for the store to make.
#[derive(Debug)]
pub struct DeleteRequest {
    pub table: String,
    pub key: AttrMap,
}

/// The store's condition that attribute `name` equals the value bound to
/// its placeholder.
pub open spec fn condition(name: Seq<char>) -> Seq<char> {
    name + " = :"@ + name
}

/// The placeholder that a filter binds an attribute's value to.
pub open spec fn placeholder_spec(name: Seq<char>) -> Seq<char> {
    ":"@ + name
}

/// The store's filter expression for an equality conjunction over the
/// attributes of `m`, in order.
pub open spec fn filter_expr(m: AttrSeq) -> Seq<char>
    decreases m.len(),
{
    if m.len() == 0 {
        Seq::empty()
    } else if m.len() == 1 {
        condition(m[0].0)
    } else {
        filter_expr(m.drop_last()) + " AND "@ + condition(m.last().0)
    }
}

/// The filter expression that asks each attribute of `filter` to equal the
/// value bound to its placeholder.
pub fn filter_expression(filter: &AttrMap) -> (r: String)
    ensures
        r@ == filter_expr(filter@),
{
    let mut s = String::new();
    let mut i: usize = 0;
    while i < filter.entries.len()
        invariant
            0 <= i <= filter.entries@.len(),
            s@ == filter_expr(filter@.take(i as int)),
        decreases filter.entries@.len() - i,
    {
        let ghost before = s@;
        if i > 0 {
            s.append(" AND ");
        }
        let name = filter.entries[i].name.as_str();
        s.append(name);
        s.append(" = :");
        s.append(name);
        assert(filter@.take(i + 1).drop_last() =~= filter@.take(i as int));
        assert(filter@.take(i + 1).last() == filter@[i as int]);
        assert(s@ =~= filter_expr(filter@.take(i + 1)));
        i = i + 1;
    }
    assert(filter@.take(filter.entries@.len() as int) =~= filter@);
    s
}

/// The placeholder of attribute `name` in a filter expression.
pub fn placeholder(name: &str) -> (r: String)
    ensures
        r@ == placeholder_spec(name@),
{
    let mut s = String::from_str(":");
    s.append(name);
    s
}

/// The put that stores an entity in its table.
pub fn put_request<E: Record>(e: &E) -> (r: PutRequest)
    ensures
        r.table@ == E::table_spec(),
        r.item@ == E::encode_spec(e@),
{
    PutRequest { table: String::from_str(E::table_name()), item: e.encode() }
}

/// An attribute map of one string attribute.
pub fn single_attr(name: &str, value: &String) -> (r: AttrMap)
    ensures
        r@ == seq![(name@, AttrValueV::S(value@))],
{
    let mut m = AttrMap::new();
    m.push_s(name, value);
    assert(m@ =~= seq![(name@, AttrValueV::S(value@))]);
    m
}

/// An attribute map of two string attributes.
pub fn pair_attr(n1: &str, v1: &String, n2: &str, v2: &String) -> (r: AttrMap)
    ensures
        r@ == seq![(n1@, AttrValueV::S(v1@)), (n2@, AttrValueV::S(v2@))],
{
    let mut m = AttrMap::new();
    m.push_s(n1, v1);
    m.push_s(n2, v2);
    assert(m@ =~= seq![(n1@, AttrValueV::S(v1@)), (n2@, AttrValueV::S(v2@))]);
    m
}

/// A scan of the table of `E` for the records that match `filter`,
/// dropping records that do not decode.
pub fn scan_by<E: Record>(filter: AttrMap) -> (r: Scan<E>)
    ensures
        r.wf(),
        r.table@ == E::table_spec(),
        r.filter@ == filter@,
        r.policy == DecodePolicy::Skip,
        r.status is Running,
        r.start_key is None,
        r.pages@ == Seq::<Seq<AttrSeq>>::empty(),
{
    Scan::new(E::table_name(), filter, DecodePolicy::Skip)
}

/// The outcome of a put or delete: a store failure becomes `StoreError`;
/// a delete of a key that was not there is a success like any other.
pub fn write_outcome(store: Result<(), String>) -> (r: Result<(), AllError>)
    ensures
        match store {
            Ok(()) => r == Ok::<(), AllError>(()),
            Err(d) => r == Err::<(), AllError>(AllError::StoreError(d)),
        },
{
    match store {
        Ok(()) => Ok(()),
        Err(d) => Err(AllError::StoreError(d)),
    }
}

/// The outcome of a create: the new entity's key once the put succeeded.
pub fn create_outcome(store: Result<(), String>, key: String) -> (r: Result<String, AllError>)
    ensures
        match store {
            Ok(()) => r == Ok::<String, AllError>(key),
            Err(d) => r == Err::<String, AllError>(AllError::StoreError(d)),
        },
{
    match store {
        Ok(()) => Ok(key),
        Err(d) => Err(AllError::StoreError(d)),
    }
}

/// The first entity that a scan found, or `NotFound` where it found none.
pub fn first_or_not_found<E: Record>(found: Result<Vec<E>, AllError>) -> (r: Result<E, AllError>)
    ensures
        match found {
            Ok(v) => if v@.len() > 0 {
                r is Ok && r->Ok_0@ == v@[0]@
            } else {
                r == Err::<E, AllError>(AllError::NotFound)
            },
            Err(e) => r == Err::<E, AllError>(e),
        },
{
    match found {
        Ok(mut v) => {
            if v.len() > 0 {
                Ok(v.remove(0))
            } else {
                Err(AllError::NotFound)
            }
        },
        Err(e) => Err(e),
    }
}

/// The first entity that a scan found, if any.
pub fn first_or_none<E: Record>(found: Result<Vec<E>, AllError>) -> (r: Result<
    Option<E>,
    AllError,
>)
    ensures
        match found {
            Ok(v) => if v@.len() > 0 {
                r is Ok && r->Ok_0 is Some && r->Ok_0->Some_0@ == v@[0]@
            } else {
                r == Ok::<Option<E>, AllError>(None)
            },
            Err(e) => r == Err::<Option<E>, AllError>(e),
        },
{
    match found {
        Ok(mut v) => {
            if v.len() > 0 {
                Ok(Some(v.remove(0)))
            } else {
                Ok(None)
            }
        },
        Err(e) => Err(e),
    }
}

/// The delete of a team by its id.
pub fn delete_team_request(team_id: &String) -> (r: DeleteRequest)
    ensures
        r.table@ == Team::table_spec(),
        r.key@ == seq![("id"@, AttrValueV::S(team_id@))],
{
    DeleteRequest { table: String::from_str(Team::NAME), key: single_attr("id", team_id) }
}

/// The delete of a membership by team and user.
pub fn delete_team_user_request(team_id: &String, user_id: &String) -> (r: DeleteRequest)
    ensures
        r.table@ == TeamUser::table_spec(),
        r.key@ == seq![("team_id"@, AttrValueV::S(team_id@)), ("user_id"@, AttrValueV::S(user_id@))],
{
    DeleteRequest {
        table: String::from_str(TeamUser::NAME),
        key: pair_attr("team_id", team_id, "user_id", user_id),
    }
}

/// The delete of an invite by its code.
pub fn delete_team_invite_request(code: &String) -> (r: DeleteRequest)
    ensures
        r.table@ == TeamInvite::table_spec(),
        r.key@ == seq![("code"@, AttrValueV::S(code@))],
{
    DeleteRequest { table: String::from_str(TeamInvite::NAME), key: single_attr("code", code) }
}

/// The scan for a team by id.
pub fn team_by_id_scan(team_id: &String) -> (r: Scan<Team>)
    ensures
        r.wf(),
        r.table@ == Team::table_spec(),
        r.filter@ == seq![("id"@, AttrValueV::S(team_id@))],
        r.policy == DecodePolicy::Skip,
        r.status is Running,
        r.start_key is None,
        r.pages@ == Seq::<Seq<AttrSeq>>::empty(),
{
    scan_by(single_attr("id", team_id))
}

/// The scan for the memberships of a user.
pub fn team_users_by_user_id_scan(user_id: &String) -> (r: Scan<TeamUser>)
    ensures
        r.wf(),
        r.table@ == TeamUser::table_spec(),
        r.filter@ == seq![("user_id"@, AttrValueV::S(user_id@))],
        r.policy == DecodePolicy::Skip,
        r.status is Running,
        r.start_key is None,
        r.pages@ == Seq::<Seq<AttrSeq>>::empty(),
{
    scan_by(single_attr("user_id", user_id))
}

/// The scan for the memberships of a team.
pub fn team_users_by_team_id_scan(team_id: &String) -> (r: Scan<TeamUser>)
    ensures
        r.wf(),
        r.table@ == TeamUser::table_spec(),
        r.filter@ == seq![("team_id"@, AttrValueV::S(team_id@))],
        r.policy == DecodePolicy::Skip,
        r.status is Running,
        r.start_key is None,
        r.pages@ == Seq::<Seq<AttrSeq>>::empty(),
{
    scan_by(single_attr("team_id", team_id))
}

/// The scan for one user's membership of one team.
pub fn team_user_scan(team_id: &String, user_id: &String) -> (r: Scan<TeamUser>)
    ensures
        r.wf(),
        r.table@ == TeamUser::table_spec(),
        r.filter@ == seq![("team_id"@, AttrValueV::S(team_id@)), ("user_id"@, AttrValueV::S(user_id@))],
        r.policy == DecodePolicy::Skip,
        r.status is Running,
        r.start_key is None,
        r.pages@ == Seq::<Seq<AttrSeq>>::empty(),
{
    scan_by(pair_attr("team_id", team_id, "user_id", user_id))
}

/// The scan for an invite by code.
pub fn team_invite_by_code_scan(code: &String) -> (r: Scan<TeamInvite>)
    ensures
        r.wf(),
        r.table@ == TeamInvite::table_spec(),
        r.filter@ == seq![("code"@, AttrValueV::S(code@))],
        r.policy == DecodePolicy::Skip,
        r.status is Running,
        r.start_key is None,
        r.pages@ == Seq::<Seq<AttrSeq>>::empty(),
{
    scan_by(single_attr("code", code))
}

/// The scan for a project by id.
pub fn project_by_id_scan(project_id: &String) -> (r: Scan<Project>)
    ensures
        r.wf(),
        r.table@ == Project::table_spec(),
        r.filter@ == seq![("id"@, AttrValueV::S(project_id@))],
        r.policy == DecodePolicy::Skip,
        r.status is Running,
        r.start_key is None,
        r.pages@ == Seq::<Seq<AttrSeq>>::empty(),
{
    scan_by(single_attr("id", project_id))
}

/// The scan for a note by id.
pub fn note_by_id_scan(note_id: &String) -> (r: Scan<Note>)
    ensures
        r.wf(),
        r.table@ == Note::table_spec(),
        r.filter@ == seq![("id"@, AttrValueV::S(note_id@))],
        r.policy == DecodePolicy::Skip,
        r.status is Running,
        r.start_key is None,
        r.pages@ == Seq::<Seq<AttrSeq>>::empty(),
{
    scan_by(single_attr("id", note_id))
}

} // verus!
