use vstd::prelude::*;

verus! {

/// An identity record.
pub struct User {
    pub user_id: String,
    pub name: String,
    pub avatar: String,
}

/// Permission level of a member within a unit.
#[derive(Debug, Clone, Copy, PartialEq, Eq, Structural)]
pub enum Role {
    Owner,
    Editor,
    Reader,
}

/// The lowercase name under which a role is published.
pub open spec fn role_name(role: Role) -> Seq<char> {
    match role {
        Role::Owner => "owner"@,
        Role::Editor => "editor"@,
        Role::Reader => "reader"@,
    }
}

impl Role {
    /// The role's published name: "owner", "editor" or "reader".
    pub fn to_string(&self) -> (r: String)
        ensures
            r@ == role_name(*self),
    {
        match self {
            Role::Owner => "owner".to_string(),
            Role::Editor => "editor".to_string(),
            Role::Reader => "reader".to_string(),
        }
    }
}

/// A (unit, user, role) assignment.
#[derive(Debug)]
pub struct Member {
    pub user_id: String,
    pub unit_id: String,
    pub role: Role,
}

/// The fixed tables that every lookup reads: bearer tokens with the user
/// they stand for, user records, and unit memberships, each in the order
/// in which it was built.
pub struct Dataset {
    tokens: Vec<(String, String)>,
    users: Vec<User>,
    members: Vec<Member>,
}

/// The user id of the first entry of `tokens` whose token is `token`.
pub open spec fn token_owner(tokens: Seq<(String, String)>, token: Seq<char>) -> Option<Seq<char>>
    decreases tokens.len(),
{
    if tokens.len() == 0 {
        None
    } else if tokens[0].0@ == token {
        Some(tokens[0].1@)
    } else {
        token_owner(tokens.drop_first(), token)
    }
}

/// The first user of `users` whose id is `user_id`.
pub open spec fn find_user(users: Seq<User>, user_id: Seq<char>) -> Option<User>
    decreases users.len(),
{
    if users.len() == 0 {
        None
    } else if users[0].user_id@ == user_id {
        Some(users[0])
    } else {
        find_user(users.drop_first(), user_id)
    }
}

/// The first member of `members` that assigns `user_id` to `unit_id`.
pub open spec fn find_member(members: Seq<Member>, unit_id: Seq<char>, user_id: Seq<char>) -> Option<
    Member,
>
    decreases members.len(),
{
    if members.len() == 0 {
        None
    } else if members[0].unit_id@ == unit_id && members[0].user_id@ == user_id {
        Some(members[0])
    } else {
        find_member(members.drop_first(), unit_id, user_id)
    }
}

/// The members of `members` that belong to `unit_id`, in table order.
pub open spec fn members_of(members: Seq<Member>, unit_id: Seq<char>) -> Seq<Member> {
    members.filter(|m: Member| m.unit_id@ == unit_id)
}

/// A verification of `token`: the owner's id and `true` when the token is
/// non-empty and in the table, else an empty id and `false`.
pub open spec fn token_check(tokens: Seq<(String, String)>, token: Seq<char>) -> (Seq<char>, bool) {
    if token.len() == 0 {
        (Seq::empty(), false)
    } else {
        match token_owner(tokens, token) {
            Some(id) => (id, true),
            None => (Seq::empty(), false),
        }
    }
}

/// A lookup that misses every entry of the table finds nothing.
pub proof fn lemma_token_owner_absent(tokens: Seq<(String, String)>, token: Seq<char>)
    requires
        forall|i: int| 0 <= i < tokens.len() ==> tokens[i].0@ != token,
    ensures
        token_owner(tokens, token) is None,
    decreases tokens.len(),
{
    if tokens.len() > 0 {
        assert forall|i: int| 0 <= i < tokens.drop_first().len() implies tokens.drop_first()[i].0@
            != token by {
            assert(tokens.drop_first()[i] == tokens[i + 1]);
        }
        lemma_token_owner_absent(tokens.drop_first(), token);
    }
}

/// A user id that no record carries is not found.
pub proof fn lemma_find_user_absent(users: Seq<User>, user_id: Seq<char>)
    requires
        forall|i: int| 0 <= i < users.len() ==> users[i].user_id@ != user_id,
    ensures
        find_user(users, user_id) is None,
    decreases users.len(),
{
    if users.len() > 0 {
        assert forall|i: int| 0 <= i < users.drop_first().len() implies users.drop_first()[i].user_id@
            != user_id by {
            assert(users.drop_first()[i] == users[i + 1]);
        }
        lemma_find_user_absent(users.drop_first(), user_id);
    }
}

/// Lookups are repeatable: each lookup's answer is fixed by the dataset
/// and its input alone, so calls with equal inputs over one dataset receive
/// equal answers.
pub proof fn lemma_lookups_repeatable(
    data: &Dataset,
    token_a: Seq<char>,
    token_b: Seq<char>,
    unit_a: Seq<char>,
    unit_b: Seq<char>,
    user_a: Seq<char>,
    user_b: Seq<char>,
)
    requires
        token_a == token_b,
        unit_a == unit_b,
        user_a == user_b,
    ensures
        token_check(data.tokens(), token_a) == token_check(data.tokens(), token_b),
        find_user(data.users(), user_a) == find_user(data.users(), user_b),
        find_member(data.members(), unit_a, user_a) == find_member(data.members(), unit_b, user_b),
        members_of(data.members(), unit_a) == members_of(data.members(), unit_b),
{
}

impl Dataset {
    /// The token table.
    pub closed spec fn tokens(&self) -> Seq<(String, String)> {
        self.tokens@
    }

    /// The user table.
    pub closed spec fn users(&self) -> Seq<User> {
        self.users@
    }

    /// The membership table.
    pub closed spec fn members(&self) -> Seq<Member> {
        self.members@
    }
}

impl Dataset {
    /// Whether the tables hold the built-in dataset: tokens "token:1" to
    /// "token:3" for users "1" to "3" (Alice, Bob, Charlie), and the
    /// memberships unit1: 1 owner, 2 editor; unit2: 2 owner, 3 reader.
    pub open spec fn is_builtin(&self) -> bool {
        let t = self.tokens();
        let u = self.users();
        let m = self.members();
        &&& t.len() == 3
        &&& t[0].0@ == "token:1"@ && t[0].1@ == "1"@
        &&& t[1].0@ == "token:2"@ && t[1].1@ == "2"@
        &&& t[2].0@ == "token:3"@ && t[2].1@ == "3"@
        &&& u.len() == 3
        &&& u[0].user_id@ == "1"@ && u[0].name@ == "Alice"@
        &&& u[0].avatar@ == "https://example.com/alice.jpg"@
        &&& u[1].user_id@ == "2"@ && u[1].name@ == "Bob"@
        &&& u[1].avatar@ == "https://example.com/bob.jpg"@
        &&& u[2].user_id@ == "3"@ && u[2].name@ == "Charlie"@
        &&& u[2].avatar@ == "https://example.com/charlie.jpg"@
        &&& m.len() == 4
        &&& m[0].unit_id@ == "unit1"@ && m[0].user_id@ == "1"@ && m[0].role == Role::Owner
        &&& m[1].unit_id@ == "unit1"@ && m[1].user_id@ == "2"@ && m[1].role == Role::Editor
        &&& m[2].unit_id@ == "unit2"@ && m[2].user_id@ == "2"@ && m[2].role == Role::Owner
        &&& m[3].unit_id@ == "unit2"@ && m[3].user_id@ == "3"@ && m[3].role == Role::Reader
    }

    /// A dataset over the given tables, kept in the given order.
    pub fn from_tables(tokens: Vec<(String, String)>, users: Vec<User>, members: Vec<Member>) -> (r:
        Dataset)
        ensures
            r.tokens() == tokens@,
            r.users() == users@,
            r.members() == members@,
    {
        Dataset { tokens, users, members }
    }

    /// Builds the built-in dataset.
    pub fn new() -> (r: Dataset)
        ensures
            r.is_builtin(),
    {
        let mut tokens: Vec<(String, String)> = Vec::new();
        tokens.push(("token:1".to_string(), "1".to_string()));
        tokens.push(("token:2".to_string(), "2".to_string()));
        tokens.push(("token:3".to_string(), "3".to_string()));
        let mut users: Vec<User> = Vec::new();
        users.push(
            User {
                user_id: "1".to_string(),
                name: "Alice".to_string(),
                avatar: "https://example.com/alice.jpg".to_string(),
            },
        );
        users.push(
            User {
                user_id: "2".to_string(),
                name: "Bob".to_string(),
                avatar: "https://example.com/bob.jpg".to_string(),
            },
        );
        users.push(
            User {
                user_id: "3".to_string(),
                name: "Charlie".to_string(),
                avatar: "https://example.com/charlie.jpg".to_string(),
            },
        );
        let mut members: Vec<Member> = Vec::new();
        members.push(
            Member { unit_id: "unit1".to_string(), user_id: "1".to_string(), role: Role::Owner },
        );
        members.push(
            Member { unit_id: "unit1".to_string(), user_id: "2".to_string(), role: Role::Editor },
        );
        members.push(
            Member { unit_id: "unit2".to_string(), user_id: "2".to_string(), role: Role::Owner },
        );
        members.push(
            Member { unit_id: "unit2".to_string(), user_id: "3".to_string(), role: Role::Reader },
        );
        Dataset { tokens, users, members }
    }
}

/// Verifies a bearer token: the id of the user it stands for and `true`,
/// or an empty id and `false` when the token is empty or unknown.
pub fn verify_token(data: &Dataset, token: &String) -> (r: (String, bool))
    ensures
        (r.0@, r.1) == token_check(data.tokens(), token@),
        token@.len() == 0 ==> !r.1,
        (forall|i: int| 0 <= i < data.tokens().len() ==> data.tokens()[i].0@ != token@) ==> !r.1,
{
    proof {
        if forall|i: int| 0 <= i < data.tokens().len() ==> data.tokens()[i].0@ != token@ {
            lemma_token_owner_absent(data.tokens(), token@);
        }
    }
    if token.as_str().is_empty() {
        return (String::new(), false);
    }
    let ghost tokens = data.tokens@;
    let mut i: usize = 0;
    assert(tokens.subrange(0, tokens.len() as int) =~= tokens);
    while i < data.tokens.len()
        invariant
            0 <= i <= tokens.len(),
            tokens == data.tokens@,
            token@.len() > 0,
            token_owner(tokens, token@) == token_owner(tokens.subrange(i as int, tokens.len() as int), token@),
        decreases tokens.len() - i,
    {
        if data.tokens[i].0 == *token {
            assert(tokens.subrange(i as int, tokens.len() as int)[0] == tokens[i as int]);
            return (data.tokens[i].1.clone(), true);
        }
        assert(tokens.subrange(i as int, tokens.len() as int).drop_first() =~= tokens.subrange(
            i + 1,
            tokens.len() as int,
        ));
        i = i + 1;
    }
    assert(tokens.subrange(i as int, tokens.len() as int).len() == 0);
    (String::new(), false)
}

/// The first user whose id is `user_id`, if any.
pub fn get_user<'a>(data: &'a Dataset, user_id: &String) -> (r: Option<&'a User>)
    ensures
        match r {
            Some(u) => find_user(data.users(), user_id@) == Some(*u),
            None => find_user(data.users(), user_id@) is None,
        },
        (forall|i: int| 0 <= i < data.users().len() ==> data.users()[i].user_id@ != user_id@)
            ==> r is None,
{
    proof {
        if forall|i: int| 0 <= i < data.users().len() ==> data.users()[i].user_id@ != user_id@ {
            lemma_find_user_absent(data.users(), user_id@);
        }
    }
    let ghost users = data.users@;
    let mut i: usize = 0;
    assert(users.subrange(0, users.len() as int) =~= users);
    while i < data.users.len()
        invariant
            0 <= i <= users.len(),
            users == data.users@,
            find_user(users, user_id@) == find_user(users.subrange(i as int, users.len() as int), user_id@),
        decreases users.len() - i,
    {
        if data.users[i].user_id == *user_id {
            assert(users.subrange(i as int, users.len() as int)[0] == users[i as int]);
            return Some(&data.users[i]);
        }
        assert(users.subrange(i as int, users.len() as int).drop_first() =~= users.subrange(
            i + 1,
            users.len() as int,
        ));
        i = i + 1;
    }
    assert(users.subrange(i as int, users.len() as int).len() == 0);
    None
}

/// The first membership that assigns `user_id` to `unit_id`, if any.
pub fn get_role<'a>(data: &'a Dataset, unit_id: &String, user_id: &String) -> (r: Option<&'a Member>)
    ensures
        match r {
            Some(m) => find_member(data.members(), unit_id@, user_id@) == Some(*m),
            None => find_member(data.members(), unit_id@, user_id@) is None,
        },
{
    let ghost members = data.members@;
    let mut i: usize = 0;
    assert(members.subrange(0, members.len() as int) =~= members);
    while i < data.members.len()
        invariant
            0 <= i <= members.len(),
            members == data.members@,
            find_member(members, unit_id@, user_id@) == find_member(
                members.subrange(i as int, members.len() as int),
                unit_id@,
                user_id@,
            ),
        decreases members.len() - i,
    {
        if data.members[i].unit_id == *unit_id && data.members[i].user_id == *user_id {
            assert(members.subrange(i as int, members.len() as int)[0] == members[i as int]);
            return Some(&data.members[i]);
        }
        assert(members.subrange(i as int, members.len() as int).drop_first() =~= members.subrange(
            i + 1,
            members.len() as int,
        ));
        i = i + 1;
    }
    assert(members.subrange(i as int, members.len() as int).len() == 0);
    None
}

/// Every membership of `unit_id`, in table order; empty when the unit has
/// no members.
pub fn get_members<'a>(data: &'a Dataset, unit_id: &String) -> (r: Vec<&'a Member>)
    ensures
        r@.map_values(|m: &Member| *m) == members_of(data.members(), unit_id@),
{
    let ghost members = data.members@;
    let ghost pred = |m: Member| m.unit_id@ == unit_id@;
    let mut r: Vec<&'a Member> = Vec::new();
    let mut i: usize = 0;
    while i < data.members.len()
        invariant
            0 <= i <= members.len(),
            members == data.members@,
            pred == (|m: Member| m.unit_id@ == unit_id@),
            r@.map_values(|m: &Member| *m) == members.subrange(0, i as int).filter(pred),
        decreases members.len() - i,
    {
        proof {
            reveal(Seq::filter);
            assert(members.subrange(0, i + 1).drop_last() =~= members.subrange(0, i as int));
        }
        if data.members[i].unit_id == *unit_id {
            r.push(&data.members[i]);
        }
        assert(r@.map_values(|m: &Member| *m) =~= members.subrange(0, i + 1).filter(pred));
        i = i + 1;
    }
    assert(members.subrange(0, members.len() as int) =~= members);
    r
}

} // verus!
