use usip::data::{get_members, get_role, get_user, verify_token, Dataset, Role};

fn s(text: &str) -> String {
    text.to_string()
}

#[test]
fn known_token_resolves_to_its_user() {
    let data = Dataset::new();
    assert_eq!(verify_token(&data, &s("token:1")), (s("1"), true));
    assert_eq!(verify_token(&data, &s("token:3")), (s("3"), true));
}

#[test]
fn empty_token_is_not_found() {
    let data = Dataset::new();
    assert_eq!(verify_token(&data, &s("")), (s(""), false));
}

#[test]
fn unknown_tokens_are_not_found() {
    let data = Dataset::new();
    for t in ["token:4", "token:", "TOKEN:1", "token:1 ", "1"] {
        assert_eq!(verify_token(&data, &s(t)), (s(""), false));
    }
}

#[test]
fn known_user_is_returned() {
    let data = Dataset::new();
    let u = get_user(&data, &s("1")).unwrap();
    assert_eq!(u.user_id, "1");
    assert_eq!(u.name, "Alice");
    assert_eq!(u.avatar, "https://example.com/alice.jpg");
    let c = get_user(&data, &s("3")).unwrap();
    assert_eq!(c.name, "Charlie");
}

#[test]
fn unknown_users_are_not_found() {
    let data = Dataset::new();
    for id in ["", "0", "4", "alice", "11"] {
        assert!(get_user(&data, &s(id)).is_none());
    }
}

#[test]
fn role_lookup_finds_membership() {
    let data = Dataset::new();
    let m = get_role(&data, &s("unit2"), &s("3")).unwrap();
    assert_eq!(m.unit_id, "unit2");
    assert_eq!(m.user_id, "3");
    assert_eq!(m.role, Role::Reader);
    let o = get_role(&data, &s("unit2"), &s("2")).unwrap();
    assert_eq!(o.role, Role::Owner);
}

#[test]
fn role_lookup_misses_absent_membership() {
    let data = Dataset::new();
    assert!(get_role(&data, &s("unit1"), &s("3")).is_none());
    assert!(get_role(&data, &s("unit3"), &s("1")).is_none());
}

#[test]
fn members_of_unit1_in_table_order() {
    let data = Dataset::new();
    let ms = get_members(&data, &s("unit1"));
    assert_eq!(ms.len(), 2);
    assert_eq!((ms[0].user_id.as_str(), ms[0].role), ("1", Role::Owner));
    assert_eq!((ms[1].user_id.as_str(), ms[1].role), ("2", Role::Editor));
    assert!(ms.iter().all(|m| m.unit_id == "unit1"));
}

#[test]
fn members_of_unit2_in_table_order() {
    let data = Dataset::new();
    let ms = get_members(&data, &s("unit2"));
    assert_eq!(ms.len(), 2);
    assert_eq!((ms[0].user_id.as_str(), ms[0].role), ("2", Role::Owner));
    assert_eq!((ms[1].user_id.as_str(), ms[1].role), ("3", Role::Reader));
}

#[test]
fn unknown_unit_has_no_members() {
    let data = Dataset::new();
    assert!(get_members(&data, &s("unit9")).is_empty());
    assert!(get_members(&data, &s("")).is_empty());
}

#[test]
fn repeated_lookups_agree() {
    let data = Dataset::new();
    for t in ["token:2", "", "nope"] {
        assert_eq!(verify_token(&data, &s(t)), verify_token(&data, &s(t)));
    }
    let a = get_user(&data, &s("2")).map(|u| u.name.clone());
    let b = get_user(&data, &s("2")).map(|u| u.name.clone());
    assert_eq!(a, b);
    let x: Vec<&str> = get_members(&data, &s("unit2")).iter().map(|m| m.user_id.as_str()).collect();
    let y: Vec<&str> = get_members(&data, &s("unit2")).iter().map(|m| m.user_id.as_str()).collect();
    assert_eq!(x, y);
    let r1 = get_role(&data, &s("unit1"), &s("2")).map(|m| m.role);
    let r2 = get_role(&data, &s("unit1"), &s("2")).map(|m| m.role);
    assert_eq!(r1, r2);
}

#[test]
fn role_names_are_lowercase() {
    assert_eq!(Role::Owner.to_string(), "owner");
    assert_eq!(Role::Editor.to_string(), "editor");
    assert_eq!(Role::Reader.to_string(), "reader");
}

fn user(id: &str, name: &str) -> usip::data::User {
    usip::data::User { user_id: s(id), name: s(name), avatar: format!("https://example.com/{}.jpg", name) }
}

fn member(unit: &str, id: &str, role: Role) -> usip::data::Member {
    usip::data::Member { unit_id: s(unit), user_id: s(id), role }
}

#[test]
fn first_of_duplicate_rows_wins() {
    let data = Dataset::from_tables(
        vec![(s("t"), s("a")), (s("t"), s("b"))],
        vec![user("a", "First"), user("a", "Second")],
        vec![member("u", "a", Role::Reader), member("u", "a", Role::Owner)],
    );
    assert_eq!(verify_token(&data, &s("t")), (s("a"), true));
    assert_eq!(get_user(&data, &s("a")).unwrap().name, "First");
    assert_eq!(get_role(&data, &s("u"), &s("a")).unwrap().role, Role::Reader);
    assert_eq!(get_members(&data, &s("u")).len(), 2);
}

#[test]
fn empty_token_is_refused_even_when_listed() {
    let data = Dataset::from_tables(vec![(s(""), s("a"))], vec![user("a", "A")], vec![]);
    assert_eq!(verify_token(&data, &s("")), (s(""), false));
}
