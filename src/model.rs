use crate::attr::{lookup_from, lookup_n, lookup_s, AttrMap, AttrSeq, AttrValueV};
use crate::authority::{
    authority_name, lemma_authority_name_round_trip, parse_authority, Authority,
};
use vstd::prelude::*;

verus! {

/// An entity that the store holds as an attribute map.
pub trait Record: Sized + View {
    /// The attribute map that an entity is stored as.
    spec fn encode_spec(v: Self::V) -> AttrSeq;

    /// The entity that an attribute map holds, if it holds one.
    spec fn decode_spec(m: AttrSeq) -> Option<Self::V>;

    /// The name of the table that holds this kind of entity.
    spec fn table_spec() -> Seq<char>;

    fn table_name() -> (r: &'static str)
        ensures
            r@ == Self::table_spec(),
    ;

    fn encode(&self) -> (r: AttrMap)
        ensures
            r@ == Self::encode_spec(self@),
    ;

    fn decode(m: &AttrMap) -> (r: Option<Self>)
        ensures
            match r {
                Some(e) => Self::decode_spec(m@) == Some(e@),
                None => Self::decode_spec(m@) is None,
            },
    ;

    proof fn lemma_round_trip(v: Self::V)
        ensures
            Self::decode_spec(Self::encode_spec(v)) == Some(v),
    ;
}

/// Decoding what was encoded gives the entity back, for every entity value.
pub proof fn lemma_codec_round_trip<E: Record>(v: E::V)
    ensures
        E::decode_spec(E::encode_spec(v)) == Some(v),
{
    E::lemma_round_trip(v);
}

#[derive(Debug)]
pub struct Team {
    pub id: String,
    pub name: String,
    pub owner_id: String,
}

pub struct TeamV {
    pub id: Seq<char>,
    pub name: Seq<char>,
    pub owner_id: Seq<char>,
}

impl View for Team {
    type V = TeamV;

    open spec fn view(&self) -> TeamV {
        TeamV { id: self.id@, name: self.name@, owner_id: self.owner_id@ }
    }
}

impl Team {
    pub const NAME: &'static str = "team";
}

impl Record for Team {
    open spec fn encode_spec(v: TeamV) -> AttrSeq {
        seq![
            ("id"@, AttrValueV::S(v.id)),
            ("name"@, AttrValueV::S(v.name)),
            ("owner_id"@, AttrValueV::S(v.owner_id)),
        ]
    }

    open spec fn decode_spec(m: AttrSeq) -> Option<TeamV> {
        match (lookup_s(m, "id"@), lookup_s(m, "name"@), lookup_s(m, "owner_id"@)) {
            (Some(id), Some(name), Some(owner_id)) => Some(TeamV { id, name, owner_id }),
            _ => None,
        }
    }

    open spec fn table_spec() -> Seq<char> {
        Team::NAME@
    }

    fn table_name() -> (r: &'static str) {
        Team::NAME
    }

    fn encode(&self) -> (r: AttrMap) {
        let mut m = AttrMap::new();
        m.push_s("id", &self.id);
        m.push_s("name", &self.name);
        m.push_s("owner_id", &self.owner_id);
        assert(m@ =~= Self::encode_spec(self@));
        m
    }

    fn decode(m: &AttrMap) -> (r: Option<Team>) {
        match (m.get_s("id"), m.get_s("name"), m.get_s("owner_id")) {
            (Some(id), Some(name), Some(owner_id)) => Some(Team { id, name, owner_id }),
            _ => None,
        }
    }

    proof fn lemma_round_trip(v: TeamV) {
        reveal_strlit("id");
        reveal_strlit("name");
        reveal_strlit("owner_id");
        assert("id"@[0] == 'i' && "name"@[0] == 'n' && "owner_id"@[0] == 'o');
        reveal_with_fuel(lookup_from, 4);
    }
}

#[derive(Debug)]
pub struct TeamUser {
    pub team_id: String,
    pub user_id: String,
    pub authority: Authority,
}

pub struct TeamUserV {
    pub team_id: Seq<char>,
    pub user_id: Seq<char>,
    pub authority: Authority,
}

impl View for TeamUser {
    type V = TeamUserV;

    open spec fn view(&self) -> TeamUserV {
        TeamUserV { team_id: self.team_id@, user_id: self.user_id@, authority: self.authority }
    }
}

impl TeamUser {
    pub const NAME: &'static str = "team_user";
}

impl Record for TeamUser {
    open spec fn encode_spec(v: TeamUserV) -> AttrSeq {
        seq![
            ("team_id"@, AttrValueV::S(v.team_id)),
            ("user_id"@, AttrValueV::S(v.user_id)),
            ("authority"@, AttrValueV::S(authority_name(v.authority))),
        ]
    }

    open spec fn decode_spec(m: AttrSeq) -> Option<TeamUserV> {
        let team_id = lookup_s(m, "team_id"@);
        let user_id = lookup_s(m, "user_id"@);
        let authority = match lookup_s(m, "authority"@) { Some(s) => parse_authority(s), None => None };
        if team_id is Some && user_id is Some && authority is Some {
            Some(TeamUserV { team_id: team_id->0, user_id: user_id->0, authority: authority->0 })
        } else {
            None
        }
    }

    open spec fn table_spec() -> Seq<char> {
        TeamUser::NAME@
    }

    fn table_name() -> (r: &'static str) {
        TeamUser::NAME
    }

    fn encode(&self) -> (r: AttrMap) {
        let mut m = AttrMap::new();
        m.push_s("team_id", &self.team_id);
        m.push_s("user_id", &self.user_id);
        m.push_s("authority", &self.authority.to_name());
        assert(m@ =~= Self::encode_spec(self@));
        m
    }

    fn decode(m: &AttrMap) -> (r: Option<TeamUser>) {
        let team_id = m.get_s("team_id");
        let user_id = m.get_s("user_id");
        let authority = match m.get_s("authority") {
            Some(s) => Authority::from_name(&s),
            None => None,
        };
        match (team_id, user_id, authority) {
            (Some(team_id), Some(user_id), Some(authority)) => Some(TeamUser { team_id, user_id, authority }),
            _ => None,
        }
    }

    proof fn lemma_round_trip(v: TeamUserV) {
        reveal_strlit("team_id");
        reveal_strlit("user_id");
        reveal_strlit("authority");
        assert("team_id"@[0] == 't' && "user_id"@[0] == 'u' && "authority"@[0] == 'a');
        lemma_authority_name_round_trip(v.authority);
        reveal_with_fuel(lookup_from, 4);
    }
}

#[derive(Debug)]
pub struct TeamInvite {
    pub code: String,
    pub team_id: String,
    pub authority: Authority,
}

pub struct TeamInviteV {
    pub code: Seq<char>,
    pub team_id: Seq<char>,
    pub authority: Authority,
}

impl View for TeamInvite {
    type V = TeamInviteV;

    open spec fn view(&self) -> TeamInviteV {
        TeamInviteV { code: self.code@, team_id: self.team_id@, authority: self.authority }
    }
}

impl TeamInvite {
    pub const NAME: &'static str = "team_invite";
}

impl Record for TeamInvite {
    open spec fn encode_spec(v: TeamInviteV) -> AttrSeq {
        seq![
            ("code"@, AttrValueV::S(v.code)),
            ("team_id"@, AttrValueV::S(v.team_id)),
            ("authority"@, AttrValueV::S(authority_name(v.authority))),
        ]
    }

    open spec fn decode_spec(m: AttrSeq) -> Option<TeamInviteV> {
        let code = lookup_s(m, "code"@);
        let team_id = lookup_s(m, "team_id"@);
        let authority = match lookup_s(m, "authority"@) { Some(s) => parse_authority(s), None => None };
        if code is Some && team_id is Some && authority is Some {
            Some(TeamInviteV { code: code->0, team_id: team_id->0, authority: authority->0 })
        } else {
            None
        }
    }

    open spec fn table_spec() -> Seq<char> {
        TeamInvite::NAME@
    }

    fn table_name() -> (r: &'static str) {
        TeamInvite::NAME
    }

    fn encode(&self) -> (r: AttrMap) {
        let mut m = AttrMap::new();
        m.push_s("code", &self.code);
        m.push_s("team_id", &self.team_id);
        m.push_s("authority", &self.authority.to_name());
        assert(m@ =~= Self::encode_spec(self@));
        m
    }

    fn decode(m: &AttrMap) -> (r: Option<TeamInvite>) {
        let code = m.get_s("code");
        let team_id = m.get_s("team_id");
        let authority = match m.get_s("authority") {
            Some(s) => Authority::from_name(&s),
            None => None,
        };
        match (code, team_id, authority) {
            (Some(code), Some(team_id), Some(authority)) => Some(TeamInvite { code, team_id, authority }),
            _ => None,
        }
    }

    proof fn lemma_round_trip(v: TeamInviteV) {
        reveal_strlit("code");
        reveal_strlit("team_id");
        reveal_strlit("authority");
        assert("code"@[0] == 'c' && "team_id"@[0] == 't' && "authority"@[0] == 'a');
        lemma_authority_name_round_trip(v.authority);
        reveal_with_fuel(lookup_from, 4);
    }
}

#[derive(Debug)]
pub struct Project {
    pub id: String,
    pub team_id: String,
    pub name: String,
}

pub struct ProjectV {
    pub id: Seq<char>,
    pub team_id: Seq<char>,
    pub name: Seq<char>,
}

impl View for Project {
    type V = ProjectV;

    open spec fn view(&self) -> ProjectV {
        ProjectV { id: self.id@, team_id: self.team_id@, name: self.name@ }
    }
}

impl Project {
    pub const NAME: &'static str = "project";
}

impl Record for Project {
    open spec fn encode_spec(v: ProjectV) -> AttrSeq {
        seq![
            ("id"@, AttrValueV::S(v.id)),
            ("team_id"@, AttrValueV::S(v.team_id)),
            ("name"@, AttrValueV::S(v.name)),
        ]
    }

    open spec fn decode_spec(m: AttrSeq) -> Option<ProjectV> {
        let id = lookup_s(m, "id"@);
        let team_id = lookup_s(m, "team_id"@);
        let name = lookup_s(m, "name"@);
        if id is Some && team_id is Some && name is Some {
            Some(ProjectV { id: id->0, team_id: team_id->0, name: name->0 })
        } else {
            None
        }
    }

    open spec fn table_spec() -> Seq<char> {
        Project::NAME@
    }

    fn table_name() -> (r: &'static str) {
        Project::NAME
    }

    fn encode(&self) -> (r: AttrMap) {
        let mut m = AttrMap::new();
        m.push_s("id", &self.id);
        m.push_s("team_id", &self.team_id);
        m.push_s("name", &self.name);
        assert(m@ =~= Self::encode_spec(self@));
        m
    }

    fn decode(m: &AttrMap) -> (r: Option<Project>) {
        let id = m.get_s("id");
        let team_id = m.get_s("team_id");
        let name = m.get_s("name");
        match (id, team_id, name) {
            (Some(id), Some(team_id), Some(name)) => Some(Project { id, team_id, name }),
            _ => None,
        }
    }

    proof fn lemma_round_trip(v: ProjectV) {
        reveal_strlit("id");
        reveal_strlit("team_id");
        reveal_strlit("name");
        assert("id"@[0] == 'i' && "team_id"@[0] == 't' && "name"@[0] == 'n');
        reveal_with_fuel(lookup_from, 4);
    }
}

#[derive(Debug)]
pub struct Note {
    pub id: String,
    pub project_id: String,
    pub content: String,
    pub x: i64,
    pub y: i64,
}

pub struct NoteV {
    pub id: Seq<char>,
    pub project_id: Seq<char>,
    pub content: Seq<char>,
    pub x: i64,
    pub y: i64,
}

impl View for Note {
    type V = NoteV;

    open spec fn view(&self) -> NoteV {
        NoteV { id: self.id@, project_id: self.project_id@, content: self.content@, x: self.x, y: self.y }
    }
}

impl Note {
    pub const NAME: &'static str = "note";
}

impl Record for Note {
    open spec fn encode_spec(v: NoteV) -> AttrSeq {
        seq![
            ("id"@, AttrValueV::S(v.id)),
            ("project_id"@, AttrValueV::S(v.project_id)),
            ("content"@, AttrValueV::S(v.content)),
            ("x"@, AttrValueV::N(v.x)),
            ("y"@, AttrValueV::N(v.y)),
        ]
    }

    open spec fn decode_spec(m: AttrSeq) -> Option<NoteV> {
        let id = lookup_s(m, "id"@);
        let project_id = lookup_s(m, "project_id"@);
        let content = lookup_s(m, "content"@);
        let x = lookup_n(m, "x"@);
        let y = lookup_n(m, "y"@);
        if id is Some && project_id is Some && content is Some && x is Some && y is Some {
            Some(NoteV { id: id->0, project_id: project_id->0, content: content->0, x: x->0, y: y->0 })
        } else {
            None
        }
    }

    open spec fn table_spec() -> Seq<char> {
        Note::NAME@
    }

    fn table_name() -> (r: &'static str) {
        Note::NAME
    }

    fn encode(&self) -> (r: AttrMap) {
        let mut m = AttrMap::new();
        m.push_s("id", &self.id);
        m.push_s("project_id", &self.project_id);
        m.push_s("content", &self.content);
        m.push_n("x", self.x);
        m.push_n("y", self.y);
        assert(m@ =~= Self::encode_spec(self@));
        m
    }

    fn decode(m: &AttrMap) -> (r: Option<Note>) {
        let id = m.get_s("id");
        let project_id = m.get_s("project_id");
        let content = m.get_s("content");
        let x = m.get_n("x");
        let y = m.get_n("y");
        match (id, project_id, content, x, y) {
            (Some(id), Some(project_id), Some(content), Some(x), Some(y)) => Some(Note { id, project_id, content, x, y }),
            _ => None,
        }
    }

    proof fn lemma_round_trip(v: NoteV) {
        reveal_strlit("id");
        reveal_strlit("project_id");
        reveal_strlit("content");
        reveal_strlit("x");
        reveal_strlit("y");
        assert("id"@[0] == 'i' && "project_id"@[0] == 'p' && "content"@[0] == 'c' && "x"@[0] == 'x' && "y"@[0] == 'y');
        reveal_with_fuel(lookup_from, 6);
    }
}

#[derive(Debug)]
pub struct User {
    pub id: String,
    pub email: String,
    pub nickname: String,
}

pub struct UserV {
    pub id: Seq<char>,
    pub email: Seq<char>,
    pub nickname: Seq<char>,
}

impl View for User {
    type V = UserV;

    open spec fn view(&self) -> UserV {
        UserV { id: self.id@, email: self.email@, nickname: self.nickname@ }
    }
}

impl User {
    pub const NAME: &'static str = "user";
}

impl Record for User {
    open spec fn encode_spec(v: UserV) -> AttrSeq {
        seq![
            ("id"@, AttrValueV::S(v.id)),
            ("email"@, AttrValueV::S(v.email)),
            ("nickname"@, AttrValueV::S(v.nickname)),
        ]
    }

    open spec fn decode_spec(m: AttrSeq) -> Option<UserV> {
        let id = lookup_s(m, "id"@);
        let email = lookup_s(m, "email"@);
        let nickname = lookup_s(m, "nickname"@);
        if id is Some && email is Some && nickname is Some {
            Some(UserV { id: id->0, email: email->0, nickname: nickname->0 })
        } else {
            None
        }
    }

    open spec fn table_spec() -> Seq<char> {
        User::NAME@
    }

    fn table_name() -> (r: &'static str) {
        User::NAME
    }

    fn encode(&self) -> (r: AttrMap) {
        let mut m = AttrMap::new();
        m.push_s("id", &self.id);
        m.push_s("email", &self.email);
        m.push_s("nickname", &self.nickname);
        assert(m@ =~= Self::encode_spec(self@));
        m
    }

    fn decode(m: &AttrMap) -> (r: Option<User>) {
        let id = m.get_s("id");
        let email = m.get_s("email");
        let nickname = m.get_s("nickname");
        match (id, email, nickname) {
            (Some(id), Some(email), Some(nickname)) => Some(User { id, email, nickname }),
            _ => None,
        }
    }

    proof fn lemma_round_trip(v: UserV) {
        reveal_strlit("id");
        reveal_strlit("email");
        reveal_strlit("nickname");
        assert("id"@[0] == 'i' && "email"@[0] == 'e' && "nickname"@[0] == 'n');
        reveal_with_fuel(lookup_from, 4);
    }
}

} // verus!
