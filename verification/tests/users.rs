use catalog::predicate::Param;
use catalog::user::{
    all_hold_of_user, search_query, user_by_id_statement, user_statement, SearchUserDto, User,
    UserDto, UserPredicate, UserRepo,
};

const BASE: &str = "SELECT u.id, u.username, u.email FROM users u WHERE 1=1";

fn users() -> Vec<User> {
    vec![
        User { id: 1, username: "Alice".to_string(), email: Some("alice@example.com".to_string()) },
        User { id: 2, username: "bob".to_string(), email: None },
        User { id: 3, username: "Alicia".to_string(), email: Some("ali@Example.org".to_string()) },
    ]
}

fn search(id: Option<i32>, username: Option<&str>, email: Option<&str>) -> SearchUserDto {
    SearchUserDto { id, username: username.map(str::to_string), email: email.map(str::to_string) }
}

fn found(search: SearchUserDto) -> Vec<i32> {
    UserRepo.find_list(&users(), search).ok().expect("rows").iter().map(|u| u.id).collect()
}

#[test]
fn a_user_becomes_a_record() {
    let record = UserDto::from(User { id: 9, username: "zed".to_string(), email: None });
    assert_eq!(record.id, 9);
    assert_eq!(record.username, "zed");
    assert_eq!(record.email, None);
    let record = UserDto::from(users().remove(0));
    assert_eq!(record.email, Some("alice@example.com".to_string()));
}

#[test]
fn all_users() {
    let rows = UserRepo.find_all(&users()).ok().expect("rows");
    assert_eq!(rows.iter().map(|u| u.id).collect::<Vec<_>>(), vec![1, 2, 3]);
    assert_eq!(rows[2].email, Some("ali@Example.org".to_string()));
}

#[test]
fn search_by_each_criterion() {
    assert_eq!(found(search(None, None, None)), vec![1, 2, 3]);
    assert_eq!(found(search(Some(2), None, None)), vec![2]);
    assert_eq!(found(search(Some(0), None, None)), vec![1, 2, 3]);
    assert_eq!(found(search(None, Some("ALI"), None)), vec![1, 3]);
    assert_eq!(found(search(None, Some("  "), Some(""))), vec![1, 2, 3]);
    assert_eq!(found(search(None, None, Some("example"))), vec![1, 3]);
    assert_eq!(found(search(None, Some("ali"), Some(".org"))), vec![3]);
    assert_eq!(found(search(Some(1), Some("bob"), None)), Vec::<i32>::new());
}

#[test]
fn search_statement() {
    let s = search(Some(5), Some("al"), Some("@x"));
    let predicates = s.predicates();
    assert_eq!(predicates.len(), 3);
    let sql = user_statement(&predicates).expect("bindable").sql();
    assert_eq!(sql, format!("{BASE} AND u.id = $1 AND u.username ILIKE $2 AND u.email ILIKE $3"));
    let s = search(Some(0), Some(" "), Some("@x"));
    let sql = user_statement(&s.predicates()).expect("bindable").sql();
    assert_eq!(sql, format!("{BASE} AND u.email ILIKE $1"));
    let sql = user_statement(&vec![]).expect("bindable").sql();
    assert_eq!(sql, BASE);
}

#[test]
fn user_predicates_hold() {
    let all = users();
    assert!(UserPredicate::Id(1).holds(&all[0]));
    assert!(!UserPredicate::Id(1).holds(&all[1]));
    assert!(UserPredicate::UsernameContains("LIC".to_string()).holds(&all[0]));
    assert!(!UserPredicate::EmailContains("".to_string()).holds(&all[1]));
    assert!(UserPredicate::EmailContains("".to_string()).holds(&all[0]));
    assert!(all_hold_of_user(&vec![], &all[1]));
    assert!(!all_hold_of_user(&vec![UserPredicate::Id(2), UserPredicate::Id(3)], &all[1]));
    let _ = Param::Integer(1);
}

#[test]
fn user_search_ignores_the_case_of_every_letter() {
    let rows = vec![
        User { id: 1, username: "é".to_string(), email: None },
        User { id: 2, username: "e".to_string(), email: Some("É@x.org".to_string()) },
    ];
    let by_name = UserRepo.find_list(&rows, search(None, Some("É"), None)).ok().expect("rows");
    assert_eq!(by_name.iter().map(|u| u.id).collect::<Vec<_>>(), vec![1]);
    let by_mail = UserRepo.find_list(&rows, search(None, None, Some("é@X"))).ok().expect("rows");
    assert_eq!(by_mail.iter().map(|u| u.id).collect::<Vec<_>>(), vec![2]);
}

#[test]
fn user_queries() {
    let s = search(None, Some("a_b"), None);
    let sql = search_query(&s).expect("bindable").sql();
    assert_eq!(sql, format!("{BASE} AND u.username ILIKE $1"));
    assert_eq!(
        user_by_id_statement(4).sql(),
        "SELECT u.id, u.username, u.email FROM users u WHERE u.id = $1"
    );
}
