//! The user resource: record shapes, default values, and the operation behind
//! each verb. There is no store: reads, updates and deletes answer from their
//! arguments alone, and listing works on a fixed sample set.
use vstd::prelude::*;

use crate::substring::{contains, is_substring, lemma_empty_is_substring};

verus! {

/// The id a user gets when its input leaves the id out.
pub const DEFAULT_ID: u64 = 42;

/// The id that creation assigns to a new user.
pub const CREATED_ID: u64 = 42;

/// What a [`User`] holds, as plain values.
pub struct UserModel {
    pub id: u64,
    pub name: Seq<char>,
    pub email: Seq<char>,
}

/// What a [`UserQSParameters`] holds, as plain values.
pub struct QueryModel {
    pub name_contains: Seq<char>,
    pub email_contains: Seq<char>,
}

/// A user, including its key `id`.
#[derive(Debug, Clone)]
pub struct User {
    pub id: u64,
    pub name: String,
    pub email: String,
}

impl View for User {
    type V = UserModel;

    open spec fn view(&self) -> UserModel {
        UserModel { id: self.id, name: self.name@, email: self.email@ }
    }
}

impl PartialEq for User {
    fn eq(&self, o: &User) -> (r: bool) {
        self.id == o.id && self.name == o.name && self.email == o.email
    }
}

impl vstd::std_specs::cmp::PartialEqSpecImpl for User {
    open spec fn obeys_eq_spec() -> bool {
        true
    }

    open spec fn eq_spec(&self, o: &User) -> bool {
        self@ == o@
    }
}

impl Default for User {
    fn default() -> (r: User)
        ensures
            r@ == (UserModel { id: 0, name: Seq::empty(), email: Seq::empty() }),
    {
        User { id: 0, name: String::new(), email: String::new() }
    }
}

/// The default id of a user whose input has none.
pub fn def_id() -> (r: u64)
    ensures
        r == DEFAULT_ID,
{
    DEFAULT_ID
}

/// The default value of an absent text field: the empty string.
pub fn def_str() -> (r: String)
    ensures
        r@ == Seq::<char>::empty(),
{
    String::new()
}

/// The value of an optional text field, or the empty string where it is absent.
pub open spec fn text_or_default(s: Option<String>) -> Seq<char> {
    match s {
        Some(t) => t@,
        None => Seq::empty(),
    }
}

fn str_or_default(s: Option<String>) -> (r: String)
    ensures
        r@ == text_or_default(s),
{
    match s {
        Some(t) => t,
        None => def_str(),
    }
}

impl User {
    /// A user with the given fields; no validation.
    pub fn new(id: u64, name: &str, email: &str) -> (r: Self)
        ensures
            r@ == (UserModel { id, name: name@, email: email@ }),
    {
        Self { id, name: String::from_str(name), email: String::from_str(email) }
    }

    /// A user from the fields that a request supplied, each absent one
    /// replaced by its default (`DEFAULT_ID`, or the empty string).
    pub fn with_defaults(id: Option<u64>, name: Option<String>, email: Option<String>) -> (r: Self)
        ensures
            r.id == (match id {
                Some(i) => i,
                None => DEFAULT_ID,
            }),
            r.name@ == text_or_default(name),
            r.email@ == text_or_default(email),
    {
        let id = match id {
            Some(i) => i,
            None => def_id(),
        };
        Self { id, name: str_or_default(name), email: str_or_default(email) }
    }
}

/// A user's attributes: a user without its id.
#[derive(Debug)]
pub struct UserAttributes {
    pub name: String,
    pub email: String,
}

impl PartialEq for UserAttributes {
    fn eq(&self, o: &UserAttributes) -> (r: bool) {
        self.name == o.name && self.email == o.email
    }
}

impl vstd::std_specs::cmp::PartialEqSpecImpl for UserAttributes {
    open spec fn obeys_eq_spec() -> bool {
        true
    }

    open spec fn eq_spec(&self, o: &UserAttributes) -> bool {
        self.name@ == o.name@ && self.email@ == o.email@
    }
}

impl UserAttributes {
    /// Attributes with the given fields; no validation.
    pub fn new(name: &str, email: &str) -> (r: Self)
        ensures
            r.name@ == name@,
            r.email@ == email@,
    {
        Self { name: String::from_str(name), email: String::from_str(email) }
    }

    /// Attributes from the fields that a request supplied, each absent one
    /// replaced by the empty string.
    pub fn with_defaults(name: Option<String>, email: Option<String>) -> (r: Self)
        ensures
            r.name@ == text_or_default(name),
            r.email@ == text_or_default(email),
    {
        Self { name: str_or_default(name), email: str_or_default(email) }
    }
}

/// A sequence of users, as the bare list of a response body.
#[derive(Debug)]
pub struct UserTuple(pub Vec<User>);

/// The models of a sequence of users.
pub open spec fn users_view(users: Seq<User>) -> Seq<UserModel> {
    users.map_values(|u: User| u@)
}

impl PartialEq for UserTuple {
    fn eq(&self, o: &UserTuple) -> (r: bool) {
        if self.0.len() != o.0.len() {
            assert(users_view(self.0@).len() != users_view(o.0@).len());
            return false;
        }
        let mut i: usize = 0;
        while i < self.0.len()
            invariant
                self.0.len() == o.0.len(),
                i <= self.0.len(),
                forall|k: int| 0 <= k < i ==> self.0@[k]@ == o.0@[k]@,
            decreases self.0.len() - i,
        {
            if !(self.0[i] == o.0[i]) {
                assert(users_view(self.0@)[i as int] != users_view(o.0@)[i as int]);
                return false;
            }
            i = i + 1;
        }
        assert(users_view(self.0@) =~= users_view(o.0@));
        true
    }
}

impl vstd::std_specs::cmp::PartialEqSpecImpl for UserTuple {
    open spec fn obeys_eq_spec() -> bool {
        true
    }

    open spec fn eq_spec(&self, o: &UserTuple) -> bool {
        users_view(self.0@) == users_view(o.0@)
    }
}

/// A list of users under one root object.
#[derive(Debug)]
pub struct UserList {
    pub users: Vec<User>,
}

impl View for UserList {
    type V = Seq<UserModel>;

    open spec fn view(&self) -> Seq<UserModel> {
        users_view(self.users@)
    }
}

/// The fixed sample set that stands in for a store, in its order.
pub open spec fn sample_model() -> Seq<UserModel> {
    seq![
        UserModel { id: 1, name: "Elijah"@, email: "elijah@example.com"@ },
        UserModel { id: 2, name: "John"@, email: "john@doe.com"@ },
    ]
}

/// The sample set of users.
pub fn sample_users() -> (r: UserList)
    ensures
        r@ == sample_model(),
{
    let users = vec![User::new(1, "Elijah", "elijah@example.com"), User::new(2, "John", "john@doe.com")];
    assert(users_view(users@) =~= sample_model());
    UserList { users }
}

/// The sample set of users as a bare sequence.
pub fn sample_user_tuple() -> (r: UserTuple)
    ensures
        users_view(r.0@) == sample_model(),
{
    UserTuple(sample_users().users)
}

/// Query string parameters of a user search: substrings that the name and
/// the email must contain.
#[derive(Debug)]
pub struct UserQSParameters {
    pub name_contains: String,
    pub email_contains: String,
}

impl View for UserQSParameters {
    type V = QueryModel;

    open spec fn view(&self) -> QueryModel {
        QueryModel { name_contains: self.name_contains@, email_contains: self.email_contains@ }
    }
}

impl UserQSParameters {
    /// Parameters from the ones that a request supplied, each absent one
    /// replaced by the empty string, which every text contains.
    pub fn with_defaults(name_contains: Option<String>, email_contains: Option<String>) -> (r: Self)
        ensures
            r.name_contains@ == text_or_default(name_contains),
            r.email_contains@ == text_or_default(email_contains),
    {
        Self { name_contains: str_or_default(name_contains), email_contains: str_or_default(email_contains) }
    }
}

/// A user passes a query when its name contains `name_contains` and its email
/// contains `email_contains`.
pub open spec fn user_matches(q: QueryModel, u: UserModel) -> bool {
    is_substring(q.name_contains, u.name) && is_substring(q.email_contains, u.email)
}

/// The users of `users` that pass `q`, in their order.
pub open spec fn filter_model(users: Seq<UserModel>, q: QueryModel) -> Seq<UserModel> {
    users.filter(|u: UserModel| user_matches(q, u))
}

/// A fresh copy of `u`.
fn copy_user(u: &User) -> (r: User)
    ensures
        r@ == u@,
{
    User { id: u.id, name: u.name.clone(), email: u.email.clone() }
}

/// The users of the sample set that pass the query, in the sample set's order;
/// an empty list where none does.
pub fn filter_users(qs: &UserQSParameters) -> (r: Vec<User>)
    ensures
        users_view(r@) == filter_model(sample_model(), qs@),
{
    let in_users = sample_users().users;
    let ghost pred = |u: UserModel| user_matches(qs@, u);
    let mut out_users: Vec<User> = Vec::new();
    let mut i: usize = 0;
    while i < in_users.len()
        invariant
            i <= in_users.len(),
            users_view(in_users@) == sample_model(),
            pred == (|u: UserModel| user_matches(qs@, u)),
            users_view(out_users@) == users_view(in_users@).take(i as int).filter(pred),
        decreases in_users.len() - i,
    {
        let u = &in_users[i];
        let keep = contains(u.name.as_str(), qs.name_contains.as_str())
            && contains(u.email.as_str(), qs.email_contains.as_str());
        proof {
            let s = users_view(in_users@);
            assert(s.take(i + 1).drop_last() =~= s.take(i as int));
            assert(s.take(i + 1).last() == u@);
            reveal(Seq::filter);
        }
        if keep {
            out_users.push(copy_user(u));
        }
        assert(users_view(out_users@) =~= users_view(in_users@).take(i + 1).filter(pred));
        i = i + 1;
    }
    assert(users_view(in_users@).take(i as int) =~= users_view(in_users@));
    out_users
}

/// All users: the sample set, in its order.
pub fn list_users() -> (r: UserList)
    ensures
        r@ == sample_model(),
{
    sample_users()
}

/// The user with the given id; there is no store, so name and email are empty.
pub fn read_user(id: u64) -> (r: User)
    ensures
        r@ == (UserModel { id, name: Seq::empty(), email: Seq::empty() }),
{
    let d = User::default();
    User { id, ..d }
}

/// The user with the path's id and the body's name and email; the body's id
/// is discarded.
pub fn update_user(id: u64, user: User) -> (r: User)
    ensures
        r@ == (UserModel { id, name: user.name@, email: user.email@ }),
{
    User { id, ..user }
}

/// Acknowledges the deletion of the user with the given id.
pub fn delete_user(id: u64) -> (r: u64)
    ensures
        r == id,
{
    id
}

/// A new user with the assigned id `CREATED_ID` and the submitted attributes.
pub fn create_user(user: UserAttributes) -> (r: User)
    ensures
        r@ == (UserModel { id: CREATED_ID, name: user.name@, email: user.email@ }),
{
    User { id: CREATED_ID, name: user.name, email: user.email }
}

/// The text of the demonstration creation endpoint's reply.
pub fn create_user_demo() -> (r: String)
    ensures
        r@ == "User created successfully"@,
{
    String::from_str("User created successfully")
}

/// The query that leaves both parameters out.
pub open spec fn empty_query() -> QueryModel {
    QueryModel { name_contains: Seq::empty(), email_contains: Seq::empty() }
}

/// A query with empty patterns keeps every user, in order.
pub proof fn lemma_empty_query_keeps_all(users: Seq<UserModel>)
    ensures
        filter_model(users, empty_query()) == users,
    decreases users.len(),
{
    reveal(Seq::filter);
    if users.len() > 0 {
        lemma_empty_query_keeps_all(users.drop_last());
        lemma_empty_is_substring(users.last().name);
        lemma_empty_is_substring(users.last().email);
        assert(users.drop_last().push(users.last()) =~= users);
    }
}

/// Listing with the empty query gives the whole sample set, in order.
pub proof fn lemma_filter_default_lists_all()
    ensures
        filter_model(sample_model(), empty_query()) == sample_model(),
{
    lemma_empty_query_keeps_all(sample_model());
}

/// Listing is repeatable: any two lists that `list_users` returns are equal.
pub proof fn lemma_list_repeatable(first: UserList, second: UserList)
    requires
        first@ == sample_model(),
        second@ == sample_model(),
    ensures
        first@ == second@,
{
}

/// Filtering is repeatable: any two results that `filter_users` returns for
/// one query are equal, and for the empty query they are the whole list.
pub proof fn lemma_filter_repeatable(q: QueryModel, first: Seq<User>, second: Seq<User>)
    requires
        users_view(first) == filter_model(sample_model(), q),
        users_view(second) == filter_model(sample_model(), q),
    ensures
        users_view(first) == users_view(second),
        q == empty_query() ==> users_view(first) == sample_model(),
{
    lemma_filter_default_lists_all();
}

} // verus!
