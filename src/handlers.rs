use vstd::prelude::*;
use crate::data::{
    find_member, find_user, get_members, get_user, members_of, token_check, verify_token,
    Dataset, Member, Role, User,
};

verus! {

/// Why a request could not be answered with data.
#[derive(Debug, Clone, Copy, PartialEq, Eq, Structural)]
pub enum ApiError {
    /// The bearer token is empty or unknown.
    InvalidToken,
    /// No user record carries the requested id.
    UserNotFound,
    /// A batch user-info request named no user.
    MissingUserIds,
    /// A role lookup lacks its unit id or its user id.
    MissingRoleParams,
    /// No membership assigns the user to the unit.
    RoleNotFound,
    /// A collaborators request named no unit.
    MissingUnitIds,
}

/// The message under which an error is published.
pub open spec fn error_message(e: ApiError) -> Seq<char> {
    match e {
        ApiError::InvalidToken => "Invalid token"@,
        ApiError::UserNotFound => "user not found"@,
        ApiError::MissingUserIds => "userIDs is required"@,
        ApiError::MissingRoleParams => "userID and unitID are required"@,
        ApiError::RoleNotFound => "role not found"@,
        ApiError::MissingUnitIds => "unitIDs is required"@,
    }
}

impl ApiError {
    /// The error's published message.
    pub fn message(&self) -> (r: String)
        ensures
            r@ == error_message(*self),
    {
        match self {
            ApiError::InvalidToken => "Invalid token".to_string(),
            ApiError::UserNotFound => "user not found".to_string(),
            ApiError::MissingUserIds => "userIDs is required".to_string(),
            ApiError::MissingRoleParams => "userID and unitID are required".to_string(),
            ApiError::RoleNotFound => "role not found".to_string(),
            ApiError::MissingUnitIds => "unitIDs is required".to_string(),
        }
    }
}

/// The headers of a request, as (name, value) pairs in arrival order.
pub struct Headers {
    pub headers: Vec<(String, String)>,
}

/// Whether `a` and `b` are the same character up to ASCII case.
pub open spec fn same_char_ignoring_case(a: char, b: char) -> bool {
    ||| a == b
    ||| 65 <= a as u32 <= 90 && a as u32 + 32 == b as u32
    ||| 65 <= b as u32 <= 90 && b as u32 + 32 == a as u32
}

/// Whether `a` and `b` are the same text up to ASCII case.
pub open spec fn same_ignoring_case(a: Seq<char>, b: Seq<char>) -> bool {
    &&& a.len() == b.len()
    &&& forall|i: int| 0 <= i < a.len() ==> same_char_ignoring_case(a[i], b[i])
}

/// The name of the header that carries the bearer token.
pub open spec fn token_header_name() -> Seq<char> {
    "x-authorization"@
}

/// The value of the first header named like the token header, ignoring
/// ASCII case; empty when there is none.
pub open spec fn token_of(headers: Seq<(String, String)>) -> Seq<char>
    decreases headers.len(),
{
    if headers.len() == 0 {
        Seq::empty()
    } else if same_ignoring_case(headers[0].0@, token_header_name()) {
        headers[0].1@
    } else {
        token_of(headers.drop_first())
    }
}

fn eq_ignore_ascii_case(a: &str, b: &str) -> (r: bool)
    ensures
        r == same_ignoring_case(a@, b@),
{
    let n = a.unicode_len();
    let m = b.unicode_len();
    if n != m {
        return false;
    }
    let mut i: usize = 0;
    while i < n
        invariant
            n == a@.len(),
            m == b@.len(),
            n == m,
            0 <= i <= n,
            forall|j: int| 0 <= j < i ==> same_char_ignoring_case(a@[j], b@[j]),
        decreases n - i,
    {
        let x = a.get_char(i);
        let y = b.get_char(i);
        let xu = x as u32;
        let yu = y as u32;
        let same = x == y || (65 <= xu && xu <= 90 && xu + 32 == yu) || (65 <= yu && yu <= 90
            && yu + 32 == xu);
        if !same {
            return false;
        }
        i = i + 1;
    }
    true
}

/// The bearer token of a request: the value of its first
/// `x-authorization` header (name compared without regard to ASCII case),
/// or an empty string when there is none.
pub fn get_token(header: &Headers) -> (r: String)
    ensures
        r@ == token_of(header.headers@),
{
    let ghost hs = header.headers@;
    let mut i: usize = 0;
    assert(hs.subrange(0, hs.len() as int) =~= hs);
    while i < header.headers.len()
        invariant
            0 <= i <= hs.len(),
            hs == header.headers@,
            token_of(hs) == token_of(hs.subrange(i as int, hs.len() as int)),
        decreases hs.len() - i,
    {
        let name = "x-authorization";
        if eq_ignore_ascii_case(header.headers[i].0.as_str(), name) {
            assert(hs.subrange(i as int, hs.len() as int)[0] == hs[i as int]);
            return header.headers[i].1.clone();
        }
        assert(hs.subrange(i as int, hs.len() as int).drop_first() =~= hs.subrange(
            i + 1,
            hs.len() as int,
        ));
        i = i + 1;
    }
    assert(hs.subrange(i as int, hs.len() as int).len() == 0);
    String::new()
}

/// The answer to a credential request whose bearer token is `token`.
pub open spec fn credential_of(data: &Dataset, token: Seq<char>) -> Result<User, ApiError> {
    let (user_id, ok) = token_check(data.tokens(), token);
    if !ok {
        Err(ApiError::InvalidToken)
    } else {
        match find_user(data.users(), user_id) {
            Some(u) => Ok(u),
            None => Err(ApiError::UserNotFound),
        }
    }
}

/// Resolves a request's bearer token to the user it stands for.
pub fn verify_credential<'a>(data: &'a Dataset, header: &Headers) -> (r: Result<&'a User, ApiError>)
    ensures
        match r {
            Ok(u) => credential_of(data, token_of(header.headers@)) == Ok::<User, ApiError>(*u),
            Err(e) => credential_of(data, token_of(header.headers@)) == Err::<User, ApiError>(e),
        },
{
    let token = get_token(header);
    let (user_id, ok) = verify_token(data, &token);
    if !ok {
        return Err(ApiError::InvalidToken);
    }
    match get_user(data, &user_id) {
        Some(u) => Ok(u),
        None => Err(ApiError::UserNotFound),
    }
}

/// The entry of a batch user-info answer for `user_id`: its record, or
/// `UserNotFound`.
pub open spec fn user_entry(data: &Dataset, user_id: Seq<char>) -> Result<User, ApiError> {
    match find_user(data.users(), user_id) {
        Some(u) => Ok(u),
        None => Err(ApiError::UserNotFound),
    }
}

/// An entry of a batch user-info answer, with the record read through.
pub open spec fn entry_value(e: Result<&User, ApiError>) -> Result<User, ApiError> {
    match e {
        Ok(u) => Ok(*u),
        Err(x) => Err(x),
    }
}

/// Looks up each of `user_ids`, in order; an empty list is refused with
/// `MissingUserIds`.
pub fn batch_get_userinfo<'a>(data: &'a Dataset, user_ids: &Vec<String>) -> (r: Result<
    Vec<Result<&'a User, ApiError>>,
    ApiError,
>)
    ensures
        user_ids@.len() == 0 ==> r == Err::<Vec<Result<&'a User, ApiError>>, ApiError>(
            ApiError::MissingUserIds,
        ),
        user_ids@.len() > 0 ==> r is Ok,
        r is Ok ==> {
            let v = r->Ok_0@;
            &&& v.len() == user_ids@.len()
            &&& forall|i: int|
                0 <= i < v.len() ==> #[trigger] entry_value(v[i]) == user_entry(data, user_ids@[i]@)
        },
{
    if user_ids.len() == 0 {
        return Err(ApiError::MissingUserIds);
    }
    let mut users: Vec<Result<&'a User, ApiError>> = Vec::new();
    let mut i: usize = 0;
    while i < user_ids.len()
        invariant
            0 <= i <= user_ids@.len(),
            users@.len() == i,
            forall|j: int|
                0 <= j < i ==> #[trigger] entry_value(users@[j]) == user_entry(data, user_ids@[j]@),
        decreases user_ids@.len() - i,
    {
        match get_user(data, &user_ids[i]) {
            Some(u) => users.push(Ok(u)),
            None => users.push(Err(ApiError::UserNotFound)),
        }
        i = i + 1;
    }
    Ok(users)
}

/// The answer to a role lookup of `user_id` in `unit_id`.
pub open spec fn role_of(data: &Dataset, unit_id: Seq<char>, user_id: Seq<char>) -> Result<
    Member,
    ApiError,
> {
    if user_id.len() == 0 || unit_id.len() == 0 {
        Err(ApiError::MissingRoleParams)
    } else {
        match find_member(data.members(), unit_id, user_id) {
            Some(m) => Ok(m),
            None => Err(ApiError::RoleNotFound),
        }
    }
}

/// Finds the membership of `user_id` in `unit_id`; both are required.
pub fn get_role<'a>(data: &'a Dataset, unit_id: &String, user_id: &String) -> (r: Result<
    &'a Member,
    ApiError,
>)
    ensures
        match r {
            Ok(m) => role_of(data, unit_id@, user_id@) == Ok::<Member, ApiError>(*m),
            Err(e) => role_of(data, unit_id@, user_id@) == Err::<Member, ApiError>(e),
        },
{
    if user_id.as_str().is_empty() || unit_id.as_str().is_empty() {
        return Err(ApiError::MissingRoleParams);
    }
    match crate::data::get_role(data, unit_id, user_id) {
        Some(m) => Ok(m),
        None => Err(ApiError::RoleNotFound),
    }
}

/// A user holding a role in a unit.
pub struct Collaborator<'a> {
    pub role: Role,
    pub user: &'a User,
}

/// The collaborators of one unit, in membership order.
pub struct UnitCollaborators<'a> {
    pub unit_id: String,
    pub subjects: Vec<Collaborator<'a>>,
}

/// A collaborator as its role and the user's record.
pub open spec fn subject_value(c: Collaborator) -> (Role, User) {
    (c.role, *c.user)
}

/// The collaborators listed for `members`: each member whose user is on
/// record, with that record, in order; members without a record are left
/// out.
pub open spec fn subjects_of(users: Seq<User>, members: Seq<Member>) -> Seq<(Role, User)>
    decreases members.len(),
{
    if members.len() == 0 {
        Seq::empty()
    } else {
        let rest = subjects_of(users, members.drop_last());
        match find_user(users, members.last().user_id@) {
            Some(u) => rest.push((members.last().role, u)),
            None => rest,
        }
    }
}

/// The collaborators of `unit_id`.
pub open spec fn collaborators_of(data: &Dataset, unit_id: Seq<char>) -> Seq<(Role, User)> {
    subjects_of(data.users(), members_of(data.members(), unit_id))
}

fn unit_collaborators<'a>(data: &'a Dataset, unit_id: &String) -> (r: UnitCollaborators<'a>)
    ensures
        r.unit_id@ == unit_id@,
        r.subjects@.map_values(|c: Collaborator<'a>| subject_value(c)) == collaborators_of(
            data,
            unit_id@,
        ),
{
    let members = get_members(data, unit_id);
    let ghost ms = members@.map_values(|m: &Member| *m);
    let mut subjects: Vec<Collaborator<'a>> = Vec::new();
    let mut j: usize = 0;
    while j < members.len()
        invariant
            0 <= j <= members@.len(),
            ms == members@.map_values(|m: &Member| *m),
            ms == members_of(data.members(), unit_id@),
            subjects@.map_values(|c: Collaborator<'a>| subject_value(c)) == subjects_of(
                data.users(),
                ms.subrange(0, j as int),
            ),
        decreases members@.len() - j,
    {
        let member = members[j];
        assert(ms.subrange(0, j + 1).drop_last() =~= ms.subrange(0, j as int));
        assert(ms.subrange(0, j + 1).last() == *member);
        match get_user(data, &member.user_id) {
            Some(u) => {
                subjects.push(Collaborator { role: member.role, user: u });
            },
            None => {},
        }
        assert(subjects@.map_values(|c: Collaborator<'a>| subject_value(c)) =~= subjects_of(
            data.users(),
            ms.subrange(0, j + 1),
        ));
        j = j + 1;
    }
    assert(ms.subrange(0, ms.len() as int) =~= ms);
    UnitCollaborators { unit_id: unit_id.clone(), subjects }
}

/// Lists the collaborators of each of `unit_ids`, in order; an empty list
/// is refused with `MissingUnitIds`.
pub fn get_collaborators<'a>(data: &'a Dataset, unit_ids: &Vec<String>) -> (r: Result<
    Vec<UnitCollaborators<'a>>,
    ApiError,
>)
    ensures
        unit_ids@.len() == 0 ==> r == Err::<Vec<UnitCollaborators<'a>>, ApiError>(
            ApiError::MissingUnitIds,
        ),
        unit_ids@.len() > 0 ==> r is Ok,
        r is Ok ==> {
            let v = r->Ok_0@;
            &&& v.len() == unit_ids@.len()
            &&& forall|k: int|
                0 <= k < v.len() ==> {
                    &&& (#[trigger] v[k]).unit_id@ == unit_ids@[k]@
                    &&& v[k].subjects@.map_values(|c: Collaborator<'a>| subject_value(c))
                        == collaborators_of(data, unit_ids@[k]@)
                }
        },
{
    if unit_ids.len() == 0 {
        return Err(ApiError::MissingUnitIds);
    }
    let mut collaborators: Vec<UnitCollaborators<'a>> = Vec::new();
    let mut k: usize = 0;
    while k < unit_ids.len()
        invariant
            0 <= k <= unit_ids@.len(),
            collaborators@.len() == k,
            forall|l: int|
                0 <= l < k ==> {
                    &&& (#[trigger] collaborators@[l]).unit_id@ == unit_ids@[l]@
                    &&& collaborators@[l].subjects@.map_values(
                        |c: Collaborator<'a>| subject_value(c),
                    ) == collaborators_of(data, unit_ids@[l]@)
                },
        decreases unit_ids@.len() - k,
    {
        let unit = unit_collaborators(data, &unit_ids[k]);
        collaborators.push(unit);
        k = k + 1;
    }
    Ok(collaborators)
}

} // verus!
