use crate::principal::Principal;
use vstd::prelude::*;
use vstd::string::StringExecFns;

verus! {

/// The role of a user, from the most to the least privileged staff role;
/// a client user stands outside that order.
#[derive(Clone, Copy, Debug, PartialEq, Eq, Structural)]
pub enum UserRole {
    Admin,
    Partner,
    Manager,
    Senior,
    Staff,
    ClientUser,
}

/// The profile of a user.
#[derive(Debug)]
pub struct User {
    pub principal: Principal,
    pub role: UserRole,
    pub name: String,
    pub email: String,
    pub created_at: u64,
    /// "en" or "ar".
    pub language_preference: String,
    pub profile_completed: bool,
}

/// What a user profile holds, as mathematical values.
pub struct UserView {
    pub principal: Seq<u8>,
    pub role: UserRole,
    pub name: Seq<char>,
    pub email: Seq<char>,
    pub created_at: u64,
    pub language_preference: Seq<char>,
    pub profile_completed: bool,
}

impl View for User {
    type V = UserView;

    open spec fn view(&self) -> UserView {
        UserView {
            principal: self.principal@,
            role: self.role,
            name: self.name@,
            email: self.email@,
            created_at: self.created_at,
            language_preference: self.language_preference@,
            profile_completed: self.profile_completed,
        }
    }
}

impl Clone for User {
    fn clone(&self) -> (copy: User)
        ensures
            copy@ == self@,
    {
        User {
            principal: self.principal.clone(),
            role: self.role,
            name: self.name.clone(),
            email: self.email.clone(),
            created_at: self.created_at,
            language_preference: self.language_preference.clone(),
            profile_completed: self.profile_completed,
        }
    }
}

/// How far up the staff order a role stands; a client user is at 0.
pub open spec fn rank(role: UserRole) -> nat {
    match role {
        UserRole::Admin => 5,
        UserRole::Partner => 4,
        UserRole::Manager => 3,
        UserRole::Senior => 2,
        UserRole::Staff => 1,
        UserRole::ClientUser => 0,
    }
}

/// Whether the user is an administrator.
pub fn is_admin(user: &User) -> (yes: bool)
    ensures
        yes == (user.role == UserRole::Admin),
{
    user.role == UserRole::Admin
}

/// Whether the user is a partner or an administrator.
pub fn is_partner_or_above(user: &User) -> (yes: bool)
    ensures
        yes == (rank(user.role) >= 4),
{
    match user.role {
        UserRole::Admin | UserRole::Partner => true,
        _ => false,
    }
}

/// Whether the user is a manager or stands above one.
pub fn is_manager_or_above(user: &User) -> (yes: bool)
    ensures
        yes == (rank(user.role) >= 3),
{
    match user.role {
        UserRole::Admin | UserRole::Partner | UserRole::Manager => true,
        _ => false,
    }
}

/// Whether the user is a senior or stands above one.
pub fn is_senior_or_above(user: &User) -> (yes: bool)
    ensures
        yes == (rank(user.role) >= 2),
{
    match user.role {
        UserRole::Admin | UserRole::Partner | UserRole::Manager | UserRole::Senior => true,
        _ => false,
    }
}

/// Whether the user belongs to the staff of the firm.
pub fn is_staff_or_above(user: &User) -> (yes: bool)
    ensures
        yes == (rank(user.role) >= 1),
{
    match user.role {
        UserRole::ClientUser => false,
        _ => true,
    }
}

/// Whether the user is a user of a client.
pub fn is_client_user(user: &User) -> (yes: bool)
    ensures
        yes == (user.role == UserRole::ClientUser),
{
    user.role == UserRole::ClientUser
}

/// Managers and above create organizations.
pub fn can_create_organization(user: &User) -> (yes: bool)
    ensures
        yes == (rank(user.role) >= 3),
{
    is_manager_or_above(user)
}

/// Managers and above edit organizations.
pub fn can_edit_organization(user: &User) -> (yes: bool)
    ensures
        yes == (rank(user.role) >= 3),
{
    is_manager_or_above(user)
}

/// Partners and above delete organizations.
pub fn can_delete_organization(user: &User) -> (yes: bool)
    ensures
        yes == (rank(user.role) >= 4),
{
    is_partner_or_above(user)
}

/// Managers and above create entities.
pub fn can_create_entity(user: &User) -> (yes: bool)
    ensures
        yes == (rank(user.role) >= 3),
{
    is_manager_or_above(user)
}

/// Managers and above edit entities.
pub fn can_edit_entity(user: &User) -> (yes: bool)
    ensures
        yes == (rank(user.role) >= 3),
{
    is_manager_or_above(user)
}

/// Seniors and above create engagements.
pub fn can_create_engagement(user: &User) -> (yes: bool)
    ensures
        yes == (rank(user.role) >= 2),
{
    is_senior_or_above(user)
}

/// Seniors and above edit engagements.
pub fn can_edit_engagement(user: &User) -> (yes: bool)
    ensures
        yes == (rank(user.role) >= 2),
{
    is_senior_or_above(user)
}

/// The staff imports data.
pub fn can_import_data(user: &User) -> (yes: bool)
    ensures
        yes == (rank(user.role) >= 1),
{
    is_staff_or_above(user)
}

/// The staff creates working papers.
pub fn can_create_working_paper(user: &User) -> (yes: bool)
    ensures
        yes == (rank(user.role) >= 1),
{
    is_staff_or_above(user)
}

/// Staff and client users alike can upload documents.
pub fn can_upload_document(user: &User) -> (yes: bool)
    ensures
        yes,
{
    is_staff_or_above(user) || is_client_user(user)
}

/// Administrators manage users.
pub fn can_manage_users(user: &User) -> (yes: bool)
    ensures
        yes == (user.role == UserRole::Admin),
{
    is_admin(user)
}

/// Every known user can view the activity log.
pub fn can_view_activity_log(_user: &User) -> (yes: bool)
    ensures
        yes,
{
    true
}

/// The views of a sequence of users, in the same order.
pub open spec fn user_views(users: Seq<User>) -> Seq<UserView> {
    Seq::new(users.len(), |i: int| users[i]@)
}

/// Whether a user with principal `p` is among `users`.
pub open spec fn has_user(users: Seq<UserView>, p: Seq<u8>) -> bool {
    exists|i: int| 0 <= i < users.len() && #[trigger] users[i].principal == p
}

/// The user with principal `p` among `users`; meaningful where there is one.
pub open spec fn user_with(users: Seq<UserView>, p: Seq<u8>) -> UserView {
    users[choose|i: int| 0 <= i < users.len() && #[trigger] users[i].principal == p]
}

/// No two users share a principal.
pub open spec fn principals_distinct(users: Seq<UserView>) -> bool {
    forall|i: int, j: int|
        0 <= i < j < users.len() ==> #[trigger] users[i].principal != #[trigger] users[j].principal
}

/// The users that the system knows, one per principal.
#[derive(Debug)]
pub struct UserDirectory {
    users: Vec<User>,
}

impl View for UserDirectory {
    type V = Seq<UserView>;

    closed spec fn view(&self) -> Seq<UserView> {
        user_views(self.users@)
    }
}

impl UserDirectory {
    /// No two users of the directory share a principal.
    pub open spec fn wf(&self) -> bool {
        principals_distinct(self@)
    }

    /// The directory without users.
    pub fn new() -> (directory: UserDirectory)
        ensures
            directory.wf(),
            directory@.len() == 0,
    {
        UserDirectory { users: Vec::new() }
    }

    /// The number of users.
    pub fn len(&self) -> (n: usize)
        ensures
            n == self@.len(),
    {
        self.users.len()
    }

    /// The users, in the order in which they came.
    pub fn users(&self) -> (users: &Vec<User>)
        ensures
            user_views(users@) == self@,
    {
        &self.users
    }

    fn position(&self, principal: &Principal) -> (at: Option<usize>)
        ensures
            match at {
                Some(i) => i < self@.len() && self@[i as int].principal == principal@,
                None => !has_user(self@, principal@),
            },
    {
        let mut i: usize = 0;
        while i < self.users.len()
            invariant
                i <= self.users@.len(),
                forall|k: int| 0 <= k < i ==> self@[k].principal != principal@,
            decreases self.users@.len() - i,
        {
            if self.users[i].principal.same_as(principal) {
                return Some(i);
            }
            i += 1;
        }
        None
    }

    /// The user with the given principal, if there is one.
    pub fn get_user(&self, principal: &Principal) -> (found: Option<&User>)
        requires
            self.wf(),
        ensures
            found is Some <==> has_user(self@, principal@),
            found is Some ==> found->0@ == user_with(self@, principal@),
    {
        match self.position(principal) {
            Some(i) => {
                assert(self@[i as int].principal == principal@);
                Some(&self.users[i])
            },
            None => None,
        }
    }

    /// Stores `user` under its principal, in place of the user that was
    /// stored under it before, if any. The other users stay as they are.
    pub fn put_user(&mut self, user: User)
        requires
            old(self).wf(),
        ensures
            final(self).wf(),
            has_user(final(self)@, user@.principal),
            user_with(final(self)@, user@.principal) == user@,
            forall|p: Seq<u8>|
                p != user@.principal ==> (has_user(final(self)@, p) <==> has_user(old(self)@, p)),
            forall|p: Seq<u8>|
                p != user@.principal && has_user(old(self)@, p) ==> user_with(final(self)@, p)
                    == user_with(old(self)@, p),
            final(self)@.len() == old(self)@.len() + (if has_user(
                old(self)@,
                user@.principal,
            ) {
                0int
            } else {
                1int
            }),
    {
        let ghost before = self@;
        let ghost added = user@;
        let at = self.position(&user.principal);
        let ghost slot: int = match at {
            Some(i) => i as int,
            None => before.len() as int,
        };
        match at {
            Some(i) => {
                self.users.set(i, user);
                assert(self@ =~= before.update(slot, added));
            },
            None => {
                self.users.push(user);
                assert(self@ =~= before.push(added));
            },
        }
        proof {
            let after = self@;
            assert(after[slot] == added);
            assert forall|k: int| 0 <= k < after.len() && k != slot implies after[k] == before[k]
                && after[k].principal != added.principal by {
                if at is Some {
                    assert(before[slot].principal == added.principal);
                }
            }
            assert forall|p: Seq<u8>| p != added.principal implies (has_user(after, p)
                <==> has_user(before, p)) by {
                if has_user(after, p) {
                    let k = choose|k: int| 0 <= k < after.len() && #[trigger] after[k].principal == p;
                    assert(before[k].principal == p);
                }
                if has_user(before, p) {
                    let k = choose|k: int|
                        0 <= k < before.len() && #[trigger] before[k].principal == p;
                    assert(after[k].principal == p);
                }
            }
            assert forall|p: Seq<u8>| p != added.principal && has_user(before, p) implies user_with(
                after,
                p,
            ) == user_with(before, p) by {
                let k = choose|k: int| 0 <= k < before.len() && #[trigger] before[k].principal == p;
                assert(after[k].principal == p);
                let m = choose|m: int| 0 <= m < after.len() && #[trigger] after[m].principal == p;
                assert(before[m].principal == p);
            }
        }
    }
}

/// The profile that `upsert_user` stores.
pub open spec fn upserted_user(
    principal: Seq<u8>,
    role: UserRole,
    name: Seq<char>,
    email: Seq<char>,
    language: Seq<char>,
    now: u64,
) -> UserView {
    UserView {
        principal,
        role,
        name,
        email,
        created_at: now,
        language_preference: language,
        profile_completed: false,
    }
}

/// Stores a profile for a principal, in place of the one it had, and
/// returns it.
pub fn upsert_user(
    users: &mut UserDirectory,
    principal: &Principal,
    role: UserRole,
    name: String,
    email: String,
    language: String,
    now: u64,
) -> (user: User)
    requires
        old(users).wf(),
    ensures
        final(users).wf(),
        user@ == upserted_user(principal@, role, name@, email@, language@, now),
        has_user(final(users)@, principal@),
        user_with(final(users)@, principal@) == user@,
        forall|p: Seq<u8>|
            p != principal@ ==> (has_user(final(users)@, p) <==> has_user(old(users)@, p)),
        forall|p: Seq<u8>|
            p != principal@ && has_user(old(users)@, p) ==> user_with(final(users)@, p)
                == user_with(old(users)@, p),
{
    let user = User {
        principal: principal.clone(),
        role,
        name,
        email,
        created_at: now,
        language_preference: language,
        profile_completed: false,
    };
    let copy = user.clone();
    users.put_user(user);
    copy
}

/// The profile that a principal gets when it is first seen: an
/// administrator where the directory is empty, else staff.
pub open spec fn first_profile(principal: Seq<u8>, first: bool, now: u64) -> UserView {
    UserView {
        principal,
        role: if first {
            UserRole::Admin
        } else {
            UserRole::Staff
        },
        name: "New User"@,
        email: Seq::empty(),
        created_at: now,
        language_preference: "en"@,
        profile_completed: false,
    }
}

/// The profile of a principal. A principal that is not known yet gets one:
/// the first user ever becomes an administrator, every later one staff.
pub fn get_or_create_user(users: &mut UserDirectory, principal: &Principal, now: u64) -> (user:
    User)
    requires
        old(users).wf(),
    ensures
        final(users).wf(),
        has_user(final(users)@, principal@),
        user_with(final(users)@, principal@) == user@,
        has_user(old(users)@, principal@) ==> final(users)@ == old(users)@ && user@ == user_with(
            old(users)@,
            principal@,
        ),
        !has_user(old(users)@, principal@) ==> user@ == first_profile(
            principal@,
            old(users)@.len() == 0,
            now,
        ) && final(users)@.len() == old(users)@.len() + 1,
        forall|p: Seq<u8>|
            p != principal@ ==> (has_user(final(users)@, p) <==> has_user(old(users)@, p)),
        forall|p: Seq<u8>|
            p != principal@ && has_user(old(users)@, p) ==> user_with(final(users)@, p)
                == user_with(old(users)@, p),
{
    match users.get_user(principal) {
        Some(user) => {
            return user.clone();
        },
        None => {},
    }
    let role = if users.len() == 0 {
        UserRole::Admin
    } else {
        UserRole::Staff
    };
    let user = User {
        principal: principal.clone(),
        role,
        name: String::from_str("New User"),
        email: String::new(),
        created_at: now,
        language_preference: String::from_str("en"),
        profile_completed: false,
    };
    let copy = user.clone();
    users.put_user(user);
    copy
}

} // verus!
