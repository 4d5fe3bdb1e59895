//! Users: their rows and records, and the search for users by optional
//! criteria.

use crate::error::StoreError;
use crate::predicate::pattern;
use crate::predicate::ParamView;
use crate::sql::bind_integer;
use crate::sql::bind_text;
use crate::sql::placeholder;
use crate::sql::push_sql;
use crate::sql::start;
use crate::sql::statement_params;
use crate::sql::statement_sql;
use crate::sql::Statement;
use crate::sql::MAX_TEXT_BYTES;
use crate::store::lemma_filter_none;
use crate::store::lemma_filter_step;
use crate::text::blank;
use crate::text::find_in;
use crate::text::found_in;
use crate::text::is_blank;
use crate::text::like_pattern;
use vstd::prelude::*;
use vstd::std_specs::convert::FromSpecImpl;
use vstd::utf8::encode_utf8;

verus! {

/// A user as it is stored.
#[derive(Debug)]
pub struct User {
    pub id: i32,
    pub username: String,
    pub email: Option<String>,
}

/// The content of a [`User`].
pub struct UserView {
    pub id: int,
    pub username: Seq<char>,
    pub email: Option<Seq<char>>,
}

/// The content of a text that may be missing.
pub open spec fn optional_text(text: Option<String>) -> Option<Seq<char>> {
    match text {
        Some(text) => Some(text@),
        None => None,
    }
}

impl View for User {
    type V = UserView;

    open spec fn view(&self) -> UserView {
        UserView { id: self.id as int, username: self.username@, email: optional_text(self.email) }
    }
}

impl Clone for User {
    fn clone(&self) -> (r: Self)
        ensures
            r@ == self@,
    {
        User {
            id: self.id,
            username: self.username.clone(),
            email: match &self.email {
                Some(email) => Some(email.clone()),
                None => None,
            },
        }
    }
}

/// A user as it is shown.
#[derive(Debug)]
pub struct UserDto {
    pub id: i32,
    pub username: String,
    pub email: Option<String>,
}

impl View for UserDto {
    type V = UserView;

    open spec fn view(&self) -> UserView {
        UserView { id: self.id as int, username: self.username@, email: optional_text(self.email) }
    }
}

impl FromSpecImpl<User> for UserDto {
    open spec fn obeys_from_spec() -> bool {
        false
    }

    open spec fn from_spec(user: User) -> UserDto {
        arbitrary()
    }
}

impl From<User> for UserDto {
    fn from(user: User) -> (r: UserDto)
        ensures
            r@ == user@,
    {
        UserDto { id: user.id, username: user.username, email: user.email }
    }
}

/// The contents of a sequence of users.
pub open spec fn user_views(rows: Seq<User>) -> Seq<UserView> {
    Seq::new(rows.len(), |i: int| rows[i]@)
}

/// The criteria of a search for users, each of which may be missing.
#[derive(Debug)]
pub struct SearchUserDto {
    pub id: Option<i32>,
    pub username: Option<String>,
    pub email: Option<String>,
}

/// The content of a [`SearchUserDto`].
pub struct SearchUserView {
    pub id: Option<int>,
    pub username: Option<Seq<char>>,
    pub email: Option<Seq<char>>,
}

impl View for SearchUserDto {
    type V = SearchUserView;

    open spec fn view(&self) -> SearchUserView {
        SearchUserView {
            id: match self.id {
                Some(id) => Some(id as int),
                None => None,
            },
            username: optional_text(self.username),
            email: optional_text(self.email),
        }
    }
}

/// One condition of a search for users.
#[derive(Debug)]
pub enum UserPredicate {
    /// The id is this.
    Id(i32),
    /// The name is found by this text: the text is a pattern, sought
    /// anywhere in the name, the case of letters ignored.
    UsernameContains(String),
    /// There is an address and it is found by this text in the same way.
    EmailContains(String),
}

/// The content of a [`UserPredicate`].
pub enum UserPredicateView {
    Id(int),
    UsernameContains(Seq<char>),
    EmailContains(Seq<char>),
}

impl View for UserPredicate {
    type V = UserPredicateView;

    open spec fn view(&self) -> UserPredicateView {
        match self {
            UserPredicate::Id(id) => UserPredicateView::Id(*id as int),
            UserPredicate::UsernameContains(text) => UserPredicateView::UsernameContains(text@),
            UserPredicate::EmailContains(text) => UserPredicateView::EmailContains(text@),
        }
    }
}

/// The contents of a sequence of user predicates.
pub open spec fn user_predicate_views(predicates: Seq<UserPredicate>) -> Seq<UserPredicateView> {
    Seq::new(predicates.len(), |i: int| predicates[i]@)
}

/// Whether a predicate holds of a user.
pub open spec fn user_holds(predicate: UserPredicateView, user: UserView) -> bool {
    match predicate {
        UserPredicateView::Id(id) => user.id == id,
        UserPredicateView::UsernameContains(text) => found_in(user.username, text),
        UserPredicateView::EmailContains(text) => match user.email {
            Some(email) => found_in(email, text),
            None => false,
        },
    }
}

/// Whether every predicate of a list holds of a user.
pub open spec fn user_holds_all(predicates: Seq<UserPredicateView>, user: UserView) -> bool {
    forall|i: int| 0 <= i < predicates.len() ==> user_holds(#[trigger] predicates[i], user)
}

/// The users of which every predicate holds.
pub open spec fn user_satisfies(predicates: Seq<UserPredicateView>) -> spec_fn(UserView) -> bool {
    |user: UserView| user_holds_all(predicates, user)
}

/// What the id criterion contributes: one predicate, unless it is missing or
/// zero.
pub open spec fn id_part(id: Option<int>) -> Seq<UserPredicateView> {
    match id {
        Some(id) => if id == 0 {
            seq![]
        } else {
            seq![UserPredicateView::Id(id)]
        },
        None => seq![],
    }
}

/// What the name criterion contributes: one predicate, unless it is missing
/// or blank.
pub open spec fn username_part(text: Option<Seq<char>>) -> Seq<UserPredicateView> {
    match text {
        Some(text) => if is_blank(text) {
            seq![]
        } else {
            seq![UserPredicateView::UsernameContains(text)]
        },
        None => seq![],
    }
}

/// What the address criterion contributes: one predicate, unless it is
/// missing or blank.
pub open spec fn email_part(text: Option<Seq<char>>) -> Seq<UserPredicateView> {
    match text {
        Some(text) => if is_blank(text) {
            seq![]
        } else {
            seq![UserPredicateView::EmailContains(text)]
        },
        None => seq![],
    }
}

/// The predicates of a search for users, in their fixed order: id, name,
/// address.
pub open spec fn search_predicates(search: SearchUserView) -> Seq<UserPredicateView> {
    id_part(search.id) + username_part(search.username) + email_part(search.email)
}

/// The query that every search for users starts from.
pub open spec fn user_base() -> Seq<char> {
    "SELECT u.id, u.username, u.email FROM users u WHERE 1=1"@
}

/// The SQL that states a user predicate, up to its placeholder.
pub open spec fn user_clause_of(predicate: UserPredicateView) -> Seq<char> {
    match predicate {
        UserPredicateView::Id(_) => " AND u.id = "@,
        UserPredicateView::UsernameContains(_) => " AND u.username ILIKE "@,
        UserPredicateView::EmailContains(_) => " AND u.email ILIKE "@,
    }
}

/// The value that a user predicate binds.
pub open spec fn user_param_of(predicate: UserPredicateView) -> ParamView {
    match predicate {
        UserPredicateView::Id(id) => ParamView::Integer(id),
        UserPredicateView::UsernameContains(text) => ParamView::Text(like_pattern(text)),
        UserPredicateView::EmailContains(text) => ParamView::Text(like_pattern(text)),
    }
}

/// The values that a list of user predicates binds, in the order of the list.
pub open spec fn user_params_of(predicates: Seq<UserPredicateView>) -> Seq<ParamView> {
    Seq::new(predicates.len(), |i: int| user_param_of(predicates[i]))
}

/// The SQL text of a search for users.
pub open spec fn user_sql(predicates: Seq<UserPredicateView>) -> Seq<char>
    decreases predicates.len(),
{
    if predicates.len() == 0 {
        user_base()
    } else {
        user_sql(predicates.drop_last()) + user_clause_of(predicates.last()) + placeholder(
            predicates.len(),
        )
    }
}

/// Whether the value that a user predicate binds is one that the store
/// takes: a pattern of at most [`MAX_TEXT_BYTES`] bytes in UTF-8.
pub open spec fn user_bindable(predicate: UserPredicateView) -> bool {
    match predicate {
        UserPredicateView::Id(_) => true,
        UserPredicateView::UsernameContains(text) => encode_utf8(like_pattern(text)).len()
            <= MAX_TEXT_BYTES,
        UserPredicateView::EmailContains(text) => encode_utf8(like_pattern(text)).len()
            <= MAX_TEXT_BYTES,
    }
}

/// Whether every user predicate of a list is [`user_bindable`].
pub open spec fn all_user_bindable(predicates: Seq<UserPredicateView>) -> bool {
    forall|i: int| 0 <= i < predicates.len() ==> user_bindable(#[trigger] predicates[i])
}

impl UserPredicate {
    /// Whether this predicate holds of a user.
    pub fn holds(&self, user: &User) -> (r: bool)
        ensures
            r == user_holds(self@, user@),
    {
        match self {
            UserPredicate::Id(id) => user.id == *id,
            UserPredicate::UsernameContains(text) => find_in(
                user.username.as_str(),
                text.as_str(),
            ),
            UserPredicate::EmailContains(text) => match &user.email {
                Some(email) => find_in(email.as_str(), text.as_str()),
                None => false,
            },
        }
    }
}

impl SearchUserDto {
    /// The predicates of this search: one for each criterion that is there,
    /// in the fixed order of [`search_predicates`]. An id of zero counts as
    /// missing, and so does a blank text.
    pub fn predicates(&self) -> (r: Vec<UserPredicate>)
        ensures
            user_predicate_views(r@) == search_predicates(self@),
    {
        let mut out: Vec<UserPredicate> = Vec::new();
        let ghost first = id_part(self@.id);
        let ghost second = first + username_part(self@.username);
        if let Some(id) = self.id {
            if id != 0 {
                out.push(UserPredicate::Id(id));
            }
        }
        assert(user_predicate_views(out@) =~= first);
        if let Some(text) = &self.username {
            if !blank(text.as_str()) {
                out.push(UserPredicate::UsernameContains(text.clone()));
            }
        }
        assert(user_predicate_views(out@) =~= second);
        if let Some(text) = &self.email {
            if !blank(text.as_str()) {
                out.push(UserPredicate::EmailContains(text.clone()));
            }
        }
        assert(user_predicate_views(out@) =~= second + email_part(self@.email));
        out
    }
}

/// Whether every predicate of a list holds of a user.
pub fn all_hold_of_user(predicates: &Vec<UserPredicate>, user: &User) -> (r: bool)
    ensures
        r == user_holds_all(user_predicate_views(predicates@), user@),
{
    let mut i: usize = 0;
    while i < predicates.len()
        invariant
            i <= predicates.len(),
            forall|j: int|
                0 <= j < i ==> user_holds(#[trigger] user_predicate_views(predicates@)[j], user@),
        decreases predicates.len() - i,
    {
        if !predicates[i].holds(user) {
            assert(!user_holds(user_predicate_views(predicates@)[i as int], user@));
            return false;
        }
        i += 1;
    }
    true
}

/// The query for a search for users with the given predicates: the base
/// query with one `AND` clause per predicate, in the order of the list, each
/// with the placeholder of the value it binds. `None` where a predicate is
/// not [`user_bindable`].
pub fn user_statement(predicates: &Vec<UserPredicate>) -> (r: Option<Statement>)
    ensures
        r is Some == all_user_bindable(user_predicate_views(predicates@)),
        r matches Some(statement) ==> {
            &&& statement_sql(statement) == user_sql(user_predicate_views(predicates@))
            &&& statement_params(statement) == user_params_of(user_predicate_views(predicates@))
        },
{
    let ghost views = user_predicate_views(predicates@);
    let mut statement: Statement = start("SELECT u.id, u.username, u.email FROM users u WHERE 1=1");
    let mut i: usize = 0;
    assert(user_params_of(views.take(0)) =~= Seq::<ParamView>::empty());
    while i < predicates.len()
        invariant
            i <= predicates.len(),
            views == user_predicate_views(predicates@),
            forall|j: int| 0 <= j < i ==> user_bindable(#[trigger] views[j]),
            statement_sql(statement) == user_sql(views.take(i as int)),
            statement_params(statement) == user_params_of(views.take(i as int)),
        decreases predicates.len() - i,
    {
        proof {
            assert(views.take(i + 1).drop_last() =~= views.take(i as int));
            assert(views.take(i + 1).last() == predicates@[i as int]@);
            assert(user_params_of(views.take(i + 1)) =~= user_params_of(views.take(i as int)).push(
                user_param_of(predicates@[i as int]@),
            ));
        }
        match &predicates[i] {
            UserPredicate::Id(id) => {
                push_sql(&mut statement, " AND u.id = ");
                bind_integer(&mut statement, *id);
            },
            UserPredicate::UsernameContains(text) => {
                let bound: String = pattern(text.as_str());
                if bound.as_str().as_bytes().len() > MAX_TEXT_BYTES {
                    assert(!user_bindable(views[i as int]));
                    return None;
                }
                push_sql(&mut statement, " AND u.username ILIKE ");
                bind_text(&mut statement, bound);
            },
            UserPredicate::EmailContains(text) => {
                let bound: String = pattern(text.as_str());
                if bound.as_str().as_bytes().len() > MAX_TEXT_BYTES {
                    assert(!user_bindable(views[i as int]));
                    return None;
                }
                push_sql(&mut statement, " AND u.email ILIKE ");
                bind_text(&mut statement, bound);
            },
        }
        i += 1;
    }
    assert(views.take(predicates.len() as int) =~= views);
    Some(statement)
}

/// The query for a search for users: the predicates of the search, then the
/// statement for them. `None` where a predicate is not [`user_bindable`].
pub fn search_query(search: &SearchUserDto) -> (r: Option<Statement>)
    ensures
        r is Some == all_user_bindable(search_predicates(search@)),
        r matches Some(statement) ==> {
            &&& statement_sql(statement) == user_sql(search_predicates(search@))
            &&& statement_params(statement) == user_params_of(search_predicates(search@))
        },
{
    let predicates: Vec<UserPredicate> = search.predicates();
    user_statement(&predicates)
}

/// The query for the user with an id, which is bound.
pub open spec fn user_by_id_sql() -> Seq<char> {
    "SELECT u.id, u.username, u.email FROM users u WHERE u.id = "@ + placeholder(1)
}

/// The query for the user with an id, which is bound.
pub fn user_by_id_statement(id: i32) -> (r: Statement)
    ensures
        statement_sql(r) == user_by_id_sql(),
        statement_params(r) == seq![ParamView::Integer(id as int)],
{
    let mut statement: Statement = start(
        "SELECT u.id, u.username, u.email FROM users u WHERE u.id = ",
    );
    bind_integer(&mut statement, id);
    assert(statement_params(statement) =~= seq![ParamView::Integer(id as int)]);
    statement
}

/// The repository of users.
pub struct UserRepo;

impl UserRepo {
    /// Every user, in the order of the rows.
    pub fn find_all(&self, users: &Vec<User>) -> (r: Result<Vec<User>, StoreError>)
        ensures
            r matches Ok(rows) && user_views(rows@) == user_views(users@),
    {
        let mut out: Vec<User> = Vec::new();
        let mut i: usize = 0;
        while i < users.len()
            invariant
                i <= users.len(),
                out.len() == i,
                forall|j: int| 0 <= j < i ==> (#[trigger] out@[j])@ == users@[j]@,
            decreases users.len() - i,
        {
            out.push(users[i].clone());
            i += 1;
        }
        assert(user_views(out@) =~= user_views(users@));
        Ok(out)
    }

    /// The users that meet every criterion of the search that is there.
    pub fn find_list(&self, users: &Vec<User>, search_user_dto: SearchUserDto) -> (r: Result<
        Vec<User>,
        StoreError,
    >)
        ensures
            r matches Ok(rows) && user_views(rows@) == user_views(users@).filter(
                user_satisfies(search_predicates(search_user_dto@)),
            ),
    {
        let predicates: Vec<UserPredicate> = search_user_dto.predicates();
        let ghost all = user_views(users@);
        let ghost keep = user_satisfies(search_predicates(search_user_dto@));
        let mut out: Vec<User> = Vec::new();
        let mut i: usize = 0;
        proof {
            lemma_filter_none(all.take(0), keep);
            assert(user_views(out@) =~= all.take(0).filter(keep));
        }
        while i < users.len()
            invariant
                i <= users.len(),
                all == user_views(users@),
                keep == user_satisfies(search_predicates(search_user_dto@)),
                user_predicate_views(predicates@) == search_predicates(search_user_dto@),
                user_views(out@) == all.take(i as int).filter(keep),
            decreases users.len() - i,
        {
            proof {
                lemma_filter_step(all, keep, i as int);
            }
            if all_hold_of_user(&predicates, &users[i]) {
                let ghost before = user_views(out@);
                out.push(users[i].clone());
                assert(user_views(out@) =~= before.push(all[i as int]));
            }
            i += 1;
        }
        assert(all.take(users.len() as int) =~= all);
        Ok(out)
    }
}

} // verus!
