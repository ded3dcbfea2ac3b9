//! Members and the member directory.
//!
//! The directory itself is owned by an external collaborator; this module
//! models it as the core reads it: point lookups by member id or GitHub
//! username, and the insert performed when a new member is provisioned.

use vstd::prelude::*;

use crate::models::auth::Role;

verus! {

/// Sex of a human member, as recorded in the member directory.
#[derive(Clone, Copy, PartialEq, Eq, Structural, Debug)]
pub enum Sex {
    M,
    F,
    Other,
}

/// A person, or the ephemeral bot identity synthesized from an API key.
/// Human members carry positive identifiers; a bot principal carries the
/// negation of its API key id and is never persisted in the directory.
#[derive(Debug)]
pub struct Member {
    pub member_id: i64,
    pub roll_no: Option<String>,
    pub name: String,
    pub email: String,
    pub sex: Option<Sex>,
    pub year: Option<i64>,
    pub hostel: Option<String>,
    pub mac_address: Option<String>,
    pub discord_id: Option<String>,
    pub group_id: Option<i64>,
    pub role: Role,
    pub track: Option<String>,
    pub github_user: Option<String>,
    pub created_at: u64,
    pub updated_at: u64,
}

/// Mathematical image of a `Member`.
pub struct MemberView {
    pub member_id: i64,
    pub roll_no: Option<Seq<char>>,
    pub name: Seq<char>,
    pub email: Seq<char>,
    pub sex: Option<Sex>,
    pub year: Option<i64>,
    pub hostel: Option<Seq<char>>,
    pub mac_address: Option<Seq<char>>,
    pub discord_id: Option<Seq<char>>,
    pub group_id: Option<i64>,
    pub role: Role,
    pub track: Option<Seq<char>>,
    pub github_user: Option<Seq<char>>,
    pub created_at: u64,
    pub updated_at: u64,
}

impl View for Member {
    type V = MemberView;

    open spec fn view(&self) -> MemberView {
        MemberView {
            member_id: self.member_id,
            roll_no: self.roll_no.deep_view(),
            name: self.name@,
            email: self.email@,
            sex: self.sex,
            year: self.year,
            hostel: self.hostel.deep_view(),
            mac_address: self.mac_address.deep_view(),
            discord_id: self.discord_id.deep_view(),
            group_id: self.group_id,
            role: self.role,
            track: self.track.deep_view(),
            github_user: self.github_user.deep_view(),
            created_at: self.created_at,
            updated_at: self.updated_at,
        }
    }
}

impl DeepView for Member {
    type V = MemberView;

    open spec fn deep_view(&self) -> MemberView {
        self.view()
    }
}

impl Clone for Member {
    fn clone(&self) -> (r: Self)
        ensures
            r@ == self@,
    {
        Member {
            member_id: self.member_id,
            roll_no: self.roll_no.clone(),
            name: self.name.clone(),
            email: self.email.clone(),
            sex: self.sex,
            year: self.year,
            hostel: self.hostel.clone(),
            mac_address: self.mac_address.clone(),
            discord_id: self.discord_id.clone(),
            group_id: self.group_id,
            role: self.role,
            track: self.track.clone(),
            github_user: self.github_user.clone(),
            created_at: self.created_at,
            updated_at: self.updated_at,
        }
    }
}

/// Fields required to enrol a member directly.
#[derive(Debug)]
pub struct CreateMemberInput {
    pub roll_no: String,
    pub name: String,
    pub email: String,
    pub sex: Sex,
    pub year: i64,
    pub hostel: String,
    pub mac_address: String,
    pub discord_id: String,
    pub group_id: i64,
    pub track: Option<String>,
    pub github_user: Option<String>,
}

/// A partial update of a member's own details: absent fields keep their
/// current value.
#[derive(Debug)]
pub struct UpdateMemberInput {
    pub roll_no: Option<String>,
    pub name: Option<String>,
    pub email: Option<String>,
    pub sex: Option<Sex>,
    pub year: Option<i64>,
    pub hostel: Option<String>,
    pub mac_address: Option<String>,
    pub discord_id: Option<String>,
    pub group_id: Option<i64>,
    pub track: Option<String>,
    pub github_user: Option<String>,
}

impl Member {
    /// The new value of the member after a self-service update: each field
    /// present in the input replaces the old one, each absent field is kept.
    pub fn apply_update(&self, input: UpdateMemberInput) -> (r: Member)
        ensures
            r@.member_id == self@.member_id,
            r@.role == self@.role,
            r@.created_at == self@.created_at,
            r@.updated_at == self@.updated_at,
            r@.roll_no == (match input.roll_no {
                Some(v) => Some(v@),
                None => self@.roll_no,
            }),
            r@.name == (match input.name {
                Some(v) => v@,
                None => self@.name,
            }),
            r@.email == (match input.email {
                Some(v) => v@,
                None => self@.email,
            }),
            r@.sex == (match input.sex {
                Some(v) => Some(v),
                None => self@.sex,
            }),
            r@.year == (match input.year {
                Some(v) => Some(v),
                None => self@.year,
            }),
            r@.hostel == (match input.hostel {
                Some(v) => Some(v@),
                None => self@.hostel,
            }),
            r@.mac_address == (match input.mac_address {
                Some(v) => Some(v@),
                None => self@.mac_address,
            }),
            r@.discord_id == (match input.discord_id {
                Some(v) => Some(v@),
                None => self@.discord_id,
            }),
            r@.group_id == (match input.group_id {
                Some(v) => Some(v),
                None => self@.group_id,
            }),
            r@.track == (match input.track {
                Some(v) => Some(v@),
                None => self@.track,
            }),
            r@.github_user == (match input.github_user {
                Some(v) => Some(v@),
                None => self@.github_user,
            }),
    {
        Member {
            member_id: self.member_id,
            roll_no: match input.roll_no {
                Some(v) => Some(v),
                None => self.roll_no.clone(),
            },
            name: match input.name {
                Some(v) => v,
                None => self.name.clone(),
            },
            email: match input.email {
                Some(v) => v,
                None => self.email.clone(),
            },
            sex: match input.sex {
                Some(v) => Some(v),
                None => self.sex,
            },
            year: match input.year {
                Some(v) => Some(v),
                None => self.year,
            },
            hostel: match input.hostel {
                Some(v) => Some(v),
                None => self.hostel.clone(),
            },
            mac_address: match input.mac_address {
                Some(v) => Some(v),
                None => self.mac_address.clone(),
            },
            discord_id: match input.discord_id {
                Some(v) => Some(v),
                None => self.discord_id.clone(),
            },
            group_id: match input.group_id {
                Some(v) => Some(v),
                None => self.group_id,
            },
            role: self.role,
            track: match input.track {
                Some(v) => Some(v),
                None => self.track.clone(),
            },
            github_user: match input.github_user {
                Some(v) => Some(v),
                None => self.github_user.clone(),
            },
            created_at: self.created_at,
            updated_at: self.updated_at,
        }
    }
}

/// The first member of `members` whose id is `id`, scanning from the
/// front, as a point lookup of the directory returns it.
pub open spec fn find_member_by_id(members: Seq<MemberView>, id: i64) -> Option<MemberView>
    decreases members.len(),
{
    if members.len() == 0 {
        None
    } else if members[0].member_id == id {
        Some(members[0])
    } else {
        find_member_by_id(members.drop_first(), id)
    }
}

/// What a point lookup by id can return: a found member carries the id
/// looked up and is an element of the directory; a miss means no element
/// carries it.
pub proof fn lemma_find_member_by_id(members: Seq<MemberView>, id: i64)
    ensures
        (match find_member_by_id(members, id) {
            Some(m) => m.member_id == id && (exists|i: int|
                0 <= i < members.len() && members[i] == m),
            None => forall|i: int| 0 <= i < members.len() ==> (#[trigger] members[i]).member_id != id,
        }),
    decreases members.len(),
{
    if members.len() != 0 {
        let rest = members.drop_first();
        if members[0].member_id != id {
            lemma_find_member_by_id(rest, id);
            match find_member_by_id(rest, id) {
                Some(m) => {
                    let i = choose|i: int| 0 <= i < rest.len() && rest[i] == m;
                    assert(members[i + 1] == m);
                },
                None => {
                    assert forall|i: int| 0 <= i < members.len() implies (
                    #[trigger] members[i]).member_id != id by {
                        if i >= 1 {
                            assert(members[i] == rest[i - 1]);
                        }
                    }
                },
            }
        }
    }
}

/// The first member of `members` whose GitHub username is `login`.
pub open spec fn find_member_by_github(members: Seq<MemberView>, login: Seq<char>) -> Option<
    MemberView,
>
    decreases members.len(),
{
    if members.len() == 0 {
        None
    } else if members[0].github_user == Some(login) {
        Some(members[0])
    } else {
        find_member_by_github(members.drop_first(), login)
    }
}

/// The in-memory image of the external member directory, as far as the
/// core reads and writes it.
#[derive(Debug)]
pub struct MemberDirectory {
    members: Vec<Member>,
    next_member_id: i64,
}

impl View for MemberDirectory {
    type V = Seq<MemberView>;

    closed spec fn view(&self) -> Seq<MemberView> {
        self.members.deep_view()
    }
}

impl MemberDirectory {
    /// Every stored member has a positive id below the next free one, and
    /// ids are pairwise distinct.
    pub closed spec fn wf(&self) -> bool {
        &&& 1 <= self.next_member_id
        &&& forall|i: int|
            0 <= i < self@.len() ==> 1 <= (#[trigger] self@[i]).member_id
                < self.next_member_id
        &&& forall|i: int, j: int|
            0 <= i < j < self@.len() ==> (#[trigger] self@[i]).member_id != (
            #[trigger] self@[j]).member_id
    }

    /// The id the directory will assign to the next newly provisioned
    /// member.
    pub closed spec fn spec_next_member_id(&self) -> i64 {
        self.next_member_id
    }

    pub fn new() -> (r: MemberDirectory)
        ensures
            r.wf(),
            r@ =~= Seq::<MemberView>::empty(),
            r.spec_next_member_id() == 1,
    {
        MemberDirectory { members: Vec::new(), next_member_id: 1 }
    }

    /// Adds a member under a caller-chosen id at least as large as every
    /// id already present.
    pub fn add_member(&mut self, m: Member)
        requires
            old(self).wf(),
            old(self).spec_next_member_id() <= m.member_id < i64::MAX,
        ensures
            final(self).wf(),
            final(self)@ =~= old(self)@.push(m@),
            final(self).spec_next_member_id() == m.member_id + 1,
    {
        let next = m.member_id + 1;
        let ghost mv = m@;
        self.members.push(m);
        self.next_member_id = next;
        proof {
            assert(self@ =~= old(self)@.push(mv));
        }
    }

    /// Point lookup by member id.
    pub fn find_by_id(&self, id: i64) -> (r: Option<Member>)
        ensures
            r.deep_view() == find_member_by_id(self@, id),
    {
        let n = self.members.len();
        let mut i: usize = 0;
        proof {
            assert(self@.skip(0) =~= self@);
        }
        while i < n
            invariant
                n == self@.len(),
                0 <= i <= n,
                find_member_by_id(self@, id) == find_member_by_id(self@.skip(i as int), id),
            decreases n - i,
        {
            if self.members[i].member_id == id {
                proof {
                    assert(self@.skip(i as int)[0] == self@[i as int]);
                }
                return Some(self.members[i].clone());
            }
            proof {
                assert(self@.skip(i as int).drop_first() =~= self@.skip(i as int + 1));
            }
            i = i + 1;
        }
        proof {
            assert(self@.skip(n as int) =~= Seq::<MemberView>::empty());
        }
        None
    }

    /// Point lookup by GitHub username.
    pub fn find_by_github(&self, login: &str) -> (r: Option<Member>)
        ensures
            r.deep_view() == find_member_by_github(self@, login@),
    {
        let n = self.members.len();
        let mut i: usize = 0;
        proof {
            assert(self@.skip(0) =~= self@);
        }
        while i < n
            invariant
                n == self@.len(),
                0 <= i <= n,
                find_member_by_github(self@, login@) == find_member_by_github(
                    self@.skip(i as int),
                    login@,
                ),
            decreases n - i,
        {
            let owned = login.to_owned();
            let matches_login = match &self.members[i].github_user {
                Some(g) => *g == owned,
                None => false,
            };
            proof {
                assert(self@.skip(i as int)[0] == self@[i as int]);
            }
            if matches_login {
                return Some(self.members[i].clone());
            }
            proof {
                assert(self@.skip(i as int).drop_first() =~= self@.skip(i as int + 1));
            }
            i = i + 1;
        }
        proof {
            assert(self@.skip(n as int) =~= Seq::<MemberView>::empty());
        }
        None
    }

    /// Provisions a brand-new member under the next free id, as the
    /// external directory does when a verified identity first logs in.
    pub fn insert_new(&mut self, name: String, email: String, github_user: Option<String>, role: Role, now: u64) -> (r: Member)
        requires
            old(self).wf(),
            old(self).spec_next_member_id() < i64::MAX,
        ensures
            final(self).wf(),
            final(self)@ =~= old(self)@.push(r@),
            final(self).spec_next_member_id() == old(self).spec_next_member_id() + 1,
            r@.member_id == old(self).spec_next_member_id(),
            r@.name == name@,
            r@.email == email@,
            r@.github_user == github_user.deep_view(),
            r@.role == role,
            r@.created_at == now,
            r@.updated_at == now,
            r@.roll_no is None,
            r@.sex is None,
            r@.year is None,
            r@.hostel is None,
            r@.mac_address is None,
            r@.discord_id is None,
            r@.group_id is None,
            r@.track is None,
    {
        let m = Member {
            member_id: self.next_member_id,
            roll_no: None,
            name,
            email,
            sex: None,
            year: None,
            hostel: None,
            mac_address: None,
            discord_id: None,
            group_id: None,
            role,
            track: None,
            github_user,
            created_at: now,
            updated_at: now,
        };
        let r = m.clone();
        let ghost mv = m@;
        self.members.push(m);
        self.next_member_id = self.next_member_id + 1;
        proof {
            assert(self@ =~= old(self)@.push(mv));
        }
        r
    }
}

} // verus!
