//! Directory users, their group and role memberships, and the users of a
//! tenant keyed by id.
use vstd::prelude::*;

verus! {

/// A licence plan assigned to a user.
pub struct AssignedPlan {
    pub assigned_date_time: String,
    pub capability_status: String,
    pub service: String,
    pub service_plan_id: String,
}

impl AssignedPlan {
    pub open spec fn spec_is_enabled(&self) -> bool {
        self.capability_status@ == "Enabled"@
    }

    pub fn is_enabled(&self) -> (r: bool)
        ensures
            r == self.spec_is_enabled(),
    {
        self.capability_status == String::from_str("Enabled")
    }
}

pub struct Group {
    pub id: String,
    pub display_name: Option<String>,
}

pub struct DirectoryRole {
    pub id: String,
    pub display_name: Option<String>,
    pub role_template_id: String,
}

/// A directory object that a user is a transitive member of.
pub enum GroupOrRole {
    Group(Group),
    Role(DirectoryRole),
}

pub struct Groups<'a> {
    pub value: Vec<&'a Group>,
}

pub struct DirectoryRoles<'a> {
    pub value: Vec<&'a DirectoryRole>,
}

/// A directory role definition, keyed by its template id.
pub struct RoleDefinition {
    pub template_id: String,
    pub display_name: Option<String>,
    pub is_privileged: Option<bool>,
}

pub struct RoleDefinitions {
    pub value: Vec<RoleDefinition>,
}

/// A user's role in an Azure subscription.
pub struct UserAzureRole {
    pub id: String,
    pub role_name: String,
}

/// A user's roles in Azure subscriptions, the privileged ones apart.
pub struct UserAzureRoles {
    pub privileged_roles: Vec<UserAzureRole>,
    pub roles: Vec<UserAzureRole>,
}

pub struct User {
    pub id: String,
    pub assigned_plans: Vec<AssignedPlan>,
    pub display_name: Option<String>,
    pub given_name: Option<String>,
    pub mail: Option<String>,
    pub surname: Option<String>,
    pub user_principal_name: Option<String>,
    pub sign_in_activity: Option<String>,
    pub account_enabled: Option<bool>,
    pub transitive_member_of: Option<Vec<GroupOrRole>>,
    pub is_privileged: Option<bool>,
    pub azure_roles: Option<UserAzureRoles>,
    pub on_premises_sync_enabled: Option<bool>,
}

/// The groups among directory objects, in order.
pub open spec fn groups_of(ms: Seq<GroupOrRole>) -> Seq<Group>
    decreases ms.len(),
{
    if ms.len() == 0 {
        Seq::empty()
    } else {
        match ms.last() {
            GroupOrRole::Group(g) => groups_of(ms.drop_last()).push(g),
            GroupOrRole::Role(_) => groups_of(ms.drop_last()),
        }
    }
}

/// The roles among directory objects, in order.
pub open spec fn roles_of(ms: Seq<GroupOrRole>) -> Seq<DirectoryRole>
    decreases ms.len(),
{
    if ms.len() == 0 {
        Seq::empty()
    } else {
        match ms.last() {
            GroupOrRole::Group(_) => roles_of(ms.drop_last()),
            GroupOrRole::Role(r) => roles_of(ms.drop_last()).push(r),
        }
    }
}

/// The plans that are enabled, in order.
pub open spec fn enabled_plans(ps: Seq<AssignedPlan>) -> Seq<AssignedPlan>
    decreases ps.len(),
{
    if ps.len() == 0 {
        Seq::empty()
    } else if ps.last().spec_is_enabled() {
        enabled_plans(ps.drop_last()).push(ps.last())
    } else {
        enabled_plans(ps.drop_last())
    }
}

/// Definition `i` is the first one with template id `t`.
pub open spec fn first_definition(ds: Seq<RoleDefinition>, t: Seq<char>, i: int) -> bool {
    &&& 0 <= i < ds.len()
    &&& ds[i].template_id@ == t
    &&& forall|k: int| 0 <= k < i ==> (#[trigger] ds[k]).template_id@ != t
}

/// Whether the definition of template `t` is marked privileged.
pub open spec fn privileged_template(ds: Seq<RoleDefinition>, t: Seq<char>) -> bool {
    exists|i: int| first_definition(ds, t, i) && ds[i].is_privileged == Some(true)
}

/// Whether any of the roles has a privileged definition.
pub open spec fn any_privileged(roles: Seq<DirectoryRole>, ds: Seq<RoleDefinition>) -> bool {
    exists|i: int| 0 <= i < roles.len() && privileged_template(ds, #[trigger] roles[i].role_template_id@)
}

impl RoleDefinitions {
    /// Whether the definition of template `template_id` is marked privileged;
    /// false where there is none.
    pub fn is_privileged(&self, template_id: &String) -> (r: bool)
        ensures
            r == privileged_template(self.value@, template_id@),
    {
        let mut i: usize = 0;
        while i < self.value.len()
            invariant
                i <= self.value@.len(),
                forall|k: int| 0 <= k < i ==> (#[trigger] self.value@[k]).template_id@ != template_id@,
            decreases self.value@.len() - i,
        {
            if self.value[i].template_id == *template_id {
                let r = match self.value[i].is_privileged {
                    Some(p) => p,
                    None => false,
                };
                proof {
                    assert(first_definition(self.value@, template_id@, i as int));
                    assert forall|j: int| first_definition(self.value@, template_id@, j) implies j
                        == i by {
                        if j < i {
                            assert(self.value@[j].template_id@ != template_id@);
                        } else if j > i {
                            assert(self.value@[i as int].template_id@ != template_id@);
                        }
                    }
                }
                return r;
            }
            i = i + 1;
        }
        false
    }
}

impl User {
    /// A user with an id and a display name, and nothing else known.
    pub fn new(id: String, display_name: String) -> (r: User)
        ensures
            r.id == id,
            r.display_name == Some(display_name),
            r.assigned_plans@.len() == 0,
            r.given_name is None && r.mail is None && r.surname is None,
            r.user_principal_name is None && r.sign_in_activity is None,
            r.account_enabled is None && r.transitive_member_of is None,
            r.is_privileged is None && r.azure_roles is None,
            r.on_premises_sync_enabled is None,
    {
        User {
            id,
            assigned_plans: Vec::new(),
            display_name: Some(display_name),
            given_name: None,
            mail: None,
            surname: None,
            user_principal_name: None,
            sign_in_activity: None,
            account_enabled: None,
            transitive_member_of: None,
            is_privileged: None,
            azure_roles: None,
            on_premises_sync_enabled: None,
        }
    }

    /// The groups the user is a transitive member of, in order.
    pub fn groups(&self) -> (r: Groups)
        requires
            self.transitive_member_of is Some,
        ensures
            r.value@.map_values(|g: &Group| *g) == groups_of(self.transitive_member_of->0@),
    {
        let members = self.transitive_member_of.as_ref().unwrap();
        let mut value: Vec<&Group> = Vec::new();
        let mut i: usize = 0;
        while i < members.len()
            invariant
                i <= members@.len(),
                members@ == self.transitive_member_of->0@,
                value@.map_values(|g: &Group| *g) == groups_of(members@.subrange(0, i as int)),
            decreases members@.len() - i,
        {
            proof {
                assert(members@.subrange(0, i + 1).drop_last() =~= members@.subrange(0, i as int));
            }
            match &members[i] {
                GroupOrRole::Group(g) => {
                    value.push(g);
                },
                GroupOrRole::Role(_) => {},
            }
            assert(value@.map_values(|g: &Group| *g) =~= groups_of(members@.subrange(0, i + 1)));
            i = i + 1;
        }
        assert(members@.subrange(0, members@.len() as int) =~= members@);
        Groups { value }
    }

    /// The directory roles the user holds, in order.
    pub fn roles(&self) -> (r: DirectoryRoles)
        requires
            self.transitive_member_of is Some,
        ensures
            r.value@.map_values(|d: &DirectoryRole| *d) == roles_of(self.transitive_member_of->0@),
    {
        let members = self.transitive_member_of.as_ref().unwrap();
        let mut value: Vec<&DirectoryRole> = Vec::new();
        let mut i: usize = 0;
        while i < members.len()
            invariant
                i <= members@.len(),
                members@ == self.transitive_member_of->0@,
                value@.map_values(|d: &DirectoryRole| *d) == roles_of(members@.subrange(0, i as int)),
            decreases members@.len() - i,
        {
            proof {
                assert(members@.subrange(0, i + 1).drop_last() =~= members@.subrange(0, i as int));
            }
            match &members[i] {
                GroupOrRole::Group(_) => {},
                GroupOrRole::Role(d) => {
                    value.push(d);
                },
            }
            assert(value@.map_values(|d: &DirectoryRole| *d) =~= roles_of(members@.subrange(0, i + 1)));
            i = i + 1;
        }
        assert(members@.subrange(0, members@.len() as int) =~= members@);
        DirectoryRoles { value }
    }

    /// Marks the user privileged exactly when one of its directory roles has a
    /// definition marked privileged.
    pub fn set_is_privileged(&mut self, role_definitions: &RoleDefinitions)
        requires
            old(self).transitive_member_of is Some,
        ensures
            *final(self) == (User {
                is_privileged: Some(
                    any_privileged(roles_of(old(self).transitive_member_of->0@), role_definitions.value@),
                ),
                ..*old(self)
            }),
    {
        let privileged = {
            let roles = self.roles();
            let ghost rs = roles_of(self.transitive_member_of->0@);
            let mut found = false;
            let mut i: usize = 0;
            while i < roles.value.len()
                invariant
                    i <= roles.value@.len(),
                    roles.value@.map_values(|d: &DirectoryRole| *d) == rs,
                    found == exists|k: int|
                        0 <= k < i && privileged_template(
                            role_definitions.value@,
                            #[trigger] rs[k].role_template_id@,
                        ),
                decreases roles.value@.len() - i,
            {
                assert(rs[i as int] == *roles.value@[i as int]);
                if role_definitions.is_privileged(&roles.value[i].role_template_id) {
                    found = true;
                }
                i = i + 1;
            }
            found
        };
        self.is_privileged = Some(privileged);
    }

    /// Drops the plans that are not enabled, keeping the order of the rest.
    pub fn assigned_plans_remove_deleted(&mut self)
        ensures
            final(self).assigned_plans@ == enabled_plans(old(self).assigned_plans@),
            *final(self) == (User { assigned_plans: final(self).assigned_plans, ..*old(self) }),
    {
        let mut rest: Vec<AssignedPlan> = Vec::new();
        std::mem::swap(&mut rest, &mut self.assigned_plans);
        let ghost all = rest@;
        let n = rest.len();
        let mut kept: Vec<AssignedPlan> = Vec::new();
        let mut i: usize = 0;
        while i < n
            invariant
                n == all.len(),
                i <= n,
                rest@ == all.subrange(i as int, n as int),
                kept@ == enabled_plans(all.subrange(0, i as int)),
            decreases n - i,
        {
            let plan = rest.remove(0);
            proof {
                assert(all.subrange(0, i + 1).drop_last() =~= all.subrange(0, i as int));
                assert(all.subrange(0, i + 1).last() == plan);
                assert(rest@ =~= all.subrange(i + 1, n as int));
            }
            if plan.is_enabled() {
                kept.push(plan);
            }
            i = i + 1;
        }
        assert(all.subrange(0, n as int) =~= all);
        self.assigned_plans = kept;
    }
}


/// The users of a directory listing.
pub struct Users {
    pub value: Vec<User>,
}

/// Users keyed by id: no two hold the same id once built by `insert`.
pub struct UsersMap {
    pub inner: Vec<User>,
}

/// A user whose id was not in the map before it was inserted.
pub struct NewUserInserted {
    pub id: String,
}

/// User `i` is the first one with id `id`.
pub open spec fn first_with_id(s: Seq<User>, id: Seq<char>, i: int) -> bool {
    &&& 0 <= i < s.len()
    &&& s[i].id@ == id
    &&& forall|k: int| 0 <= k < i ==> (#[trigger] s[k]).id@ != id
}

pub open spec fn has_id(s: Seq<User>, id: Seq<char>) -> bool {
    exists|i: int| 0 <= i < s.len() && (#[trigger] s[i]).id@ == id
}

/// The users after inserting `u`: it takes the place of the user with its id,
/// or comes last.
pub open spec fn upsert(s: Seq<User>, u: User) -> Seq<User> {
    if has_id(s, u.id@) {
        s.update(choose|i: int| first_with_id(s, u.id@, i), u)
    } else {
        s.push(u)
    }
}

/// The users after inserting each of `us` in turn.
pub open spec fn upsert_all(s: Seq<User>, us: Seq<User>) -> Seq<User>
    decreases us.len(),
{
    if us.len() == 0 {
        s
    } else {
        upsert_all(upsert(s, us[0]), us.drop_first())
    }
}

/// The users after inserting `us` in turn up to and including the first whose
/// id was new, and whether none was new.
pub open spec fn extended(s: Seq<User>, us: Seq<User>) -> (Seq<User>, bool)
    decreases us.len(),
{
    if us.len() == 0 {
        (s, true)
    } else if has_id(s, us[0].id@) {
        extended(upsert(s, us[0]), us.drop_first())
    } else {
        (s.push(us[0]), false)
    }
}

/// A user with `is_privileged` set from its roles.
pub open spec fn with_privilege(u: User, ds: Seq<RoleDefinition>) -> User {
    User {
        is_privileged: Some(any_privileged(roles_of(u.transitive_member_of->0@), ds)),
        ..u
    }
}

proof fn lemma_first_with_id_unique(s: Seq<User>, id: Seq<char>, i: int, j: int)
    requires
        first_with_id(s, id, i),
        first_with_id(s, id, j),
    ensures
        i == j,
{
    if i < j {
        assert(s[i].id@ != id);
    } else if j < i {
        assert(s[j].id@ != id);
    }
}


/// Whether the regular expression `pattern` matches somewhere in `text`, as
/// the `regex` crate decides; `None` where `pattern` is no valid expression.
pub uninterp spec fn regex_finds(pattern: Seq<char>, text: Seq<char>) -> Option<bool>;

/// Relies on `regex::Regex::new` and `Regex::find`.
#[verifier::external_body]
fn find_in(pattern: &str, text: &str) -> (r: Option<bool>)
    ensures
        r == regex_finds(pattern@, text@),
{
    regex::Regex::new(pattern).ok().map(|re| re.find(text).is_some())
}

/// The role names that count as privileged in Azure.
pub open spec fn admin_roles_pattern() -> Seq<char> {
    "(?i)(Owner|contributor|admin)"@
}

/// Whether an Azure role name counts as privileged.
pub open spec fn privileged_role_name(name: Seq<char>) -> bool {
    regex_finds(admin_roles_pattern(), name) == Some(true)
}

/// Whether an Azure role name counts as privileged: it names an owner, a
/// contributor or an admin, in any case.
pub fn is_privileged_role_name(name: &str) -> (r: bool)
    ensures
        r == privileged_role_name(name@),
{
    match find_in("(?i)(Owner|contributor|admin)", name) {
        Some(found) => found,
        None => false,
    }
}

/// The kind of principal that an Azure role is assigned to.
pub enum PrincipalType {
    User,
    Group,
    ServicePrincipal,
    ForeignGroup,
    Device,
}

/// An Azure role assignment, with the members that may be missing.
pub struct RoleAssignment {
    pub principal_type: Option<PrincipalType>,
    pub role_definition_id: Option<String>,
    pub principal_id: Option<String>,
}

/// An Azure role definition, under its id.
pub struct AzureRoleDefinition {
    pub id: String,
    pub role_name: Option<String>,
}

/// A member of a role assignment or definition that was missing.
pub enum AzureRolesError {
    NoPrincipalType,
    NoRoleDefinitionId,
    NoPrincipalId,
    NoRoleName,
}

/// Definition `i` is the first one with id `id`.
pub open spec fn first_azure_definition(ds: Seq<AzureRoleDefinition>, id: Seq<char>, i: int) -> bool {
    &&& 0 <= i < ds.len()
    &&& ds[i].id@ == id
    &&& forall|k: int| 0 <= k < i ==> (#[trigger] ds[k]).id@ != id
}

pub open spec fn has_azure_definition(ds: Seq<AzureRoleDefinition>, id: Seq<char>) -> bool {
    exists|i: int| 0 <= i < ds.len() && (#[trigger] ds[i]).id@ == id
}

/// The definition with id `id`, the first where several share it.
pub open spec fn azure_definition(ds: Seq<AzureRoleDefinition>, id: Seq<char>) -> AzureRoleDefinition {
    ds[choose|i: int| first_azure_definition(ds, id, i)]
}

/// The id and name of each role, in order.
pub open spec fn role_pairs(roles: Seq<UserAzureRole>) -> Seq<(Seq<char>, Seq<char>)> {
    roles.map_values(|r: UserAzureRole| (r.id@, r.role_name@))
}

/// A user's Azure roles of one kind: privileged or not.
pub open spec fn azure_roles_of(u: User, privileged: bool) -> Seq<(Seq<char>, Seq<char>)> {
    match u.azure_roles {
        Some(r) => if privileged {
            role_pairs(r.privileged_roles@)
        } else {
            role_pairs(r.roles@)
        },
        None => Seq::empty(),
    }
}

/// `after` is `before` with the role `(id, name)` added to the privileged or
/// to the other Azure roles, as its name says.
pub open spec fn azure_role_added(before: User, after: User, id: Seq<char>, name: Seq<char>) -> bool {
    let p = privileged_role_name(name);
    &&& after == (User { azure_roles: after.azure_roles, ..before })
    &&& after.azure_roles is Some
    &&& azure_roles_of(after, p) == azure_roles_of(before, p).push((id, name))
    &&& azure_roles_of(after, !p) == azure_roles_of(before, !p)
}

/// What one role assignment does: `None` where it fails with `e`, else the
/// position of the user that gains a role with its id and name, if any.
pub open spec fn assignment_effect(
    users: Seq<User>,
    a: RoleAssignment,
    ds: Seq<AzureRoleDefinition>,
) -> Result<Option<(int, Seq<char>, Seq<char>)>, AzureRolesError> {
    match a.principal_type {
        None => Err(AzureRolesError::NoPrincipalType),
        Some(PrincipalType::User) => match a.role_definition_id {
            None => Err(AzureRolesError::NoRoleDefinitionId),
            Some(def_id) => if !has_azure_definition(ds, def_id@) {
                Ok(None)
            } else {
                match a.principal_id {
                    None => Err(AzureRolesError::NoPrincipalId),
                    Some(pid) => if !has_id(users, pid@) {
                        Ok(None)
                    } else {
                        let d = azure_definition(ds, def_id@);
                        match d.role_name {
                            None => Err(AzureRolesError::NoRoleName),
                            Some(name) => Ok(
                                Some((choose|i: int| first_with_id(users, pid@, i), d.id@, name@)),
                            ),
                        }
                    }
                }
            },
        },
        Some(_) => Ok(None),
    }
}


/// The roles of one kind that the assignments grant to user `k`, in order.
pub open spec fn grants(
    users: Seq<User>,
    assignments: Seq<RoleAssignment>,
    ds: Seq<AzureRoleDefinition>,
    k: int,
    privileged: bool,
) -> Seq<(Seq<char>, Seq<char>)>
    decreases assignments.len(),
{
    if assignments.len() == 0 {
        Seq::empty()
    } else {
        let before = grants(users, assignments.drop_last(), ds, k, privileged);
        match assignment_effect(users, assignments.last(), ds) {
            Ok(Some((i, id, name))) => if i == k && privileged_role_name(name) == privileged {
                before.push((id, name))
            } else {
                before
            },
            _ => before,
        }
    }
}

/// Assignment `i` is the first that fails.
pub open spec fn fails_first_at(
    users: Seq<User>,
    assignments: Seq<RoleAssignment>,
    ds: Seq<AzureRoleDefinition>,
    i: int,
) -> bool {
    &&& 0 <= i < assignments.len()
    &&& assignment_effect(users, assignments[i], ds) is Err
    &&& forall|j: int| 0 <= j < i ==> assignment_effect(users, #[trigger] assignments[j], ds) is Ok
}

pub open spec fn some_fails(
    users: Seq<User>,
    assignments: Seq<RoleAssignment>,
    ds: Seq<AzureRoleDefinition>,
) -> bool {
    exists|i: int| fails_first_at(users, assignments, ds, i)
}

/// How many assignments take effect: those before the first that fails.
pub open spec fn applied(
    users: Seq<User>,
    assignments: Seq<RoleAssignment>,
    ds: Seq<AzureRoleDefinition>,
) -> int {
    if some_fails(users, assignments, ds) {
        choose|i: int| fails_first_at(users, assignments, ds, i)
    } else {
        assignments.len() as int
    }
}

/// Users hold the same ids in the same places.
pub open spec fn same_ids(a: Seq<User>, b: Seq<User>) -> bool {
    a.len() == b.len() && forall|k: int| 0 <= k < a.len() ==> (#[trigger] a[k]).id@ == b[k].id@
}

proof fn lemma_same_ids_same_effect(
    a: Seq<User>,
    b: Seq<User>,
    x: RoleAssignment,
    ds: Seq<AzureRoleDefinition>,
)
    requires
        same_ids(a, b),
    ensures
        assignment_effect(a, x, ds) == assignment_effect(b, x, ds),
{
    if let Some(pid) = x.principal_id {
        let id = pid@;
        if has_id(a, id) {
            let i = choose|i: int| 0 <= i < a.len() && (#[trigger] a[i]).id@ == id;
            assert(b[i].id@ == id);
        }
        if has_id(b, id) {
            let i = choose|i: int| 0 <= i < b.len() && (#[trigger] b[i]).id@ == id;
            assert(a[i].id@ == id);
        }
        if has_id(a, id) {
            let ca = choose|c: int| first_with_id(a, id, c);
            let cb = choose|c: int| first_with_id(b, id, c);
            lemma_has_id_first(a, id);
            lemma_has_id_first(b, id);
            assert forall|k: int| 0 <= k < ca implies (#[trigger] b[k]).id@ != id by {
                assert(a[k].id@ != id);
            }
            assert(first_with_id(b, id, ca));
            lemma_first_with_id_unique(b, id, ca, cb);
        }
    }
}

/// Where some user holds `id`, a first one does.
proof fn lemma_has_id_first(s: Seq<User>, id: Seq<char>)
    requires
        has_id(s, id),
    ensures
        exists|i: int| first_with_id(s, id, i),
    decreases s.len(),
{
    if s.last().id@ == id && !has_id(s.drop_last(), id) {
        let n = s.len() - 1;
        assert forall|k: int| 0 <= k < n implies (#[trigger] s[k]).id@ != id by {
            if s[k].id@ == id {
                assert(s.drop_last()[k].id@ == id);
            }
        }
        assert(first_with_id(s, id, n));
    } else if s.last().id@ == id {
        lemma_has_id_first(s.drop_last(), id);
        let i = choose|i: int| first_with_id(s.drop_last(), id, i);
        assert forall|k: int| 0 <= k < i implies (#[trigger] s[k]).id@ != id by {
            assert(s.drop_last()[k].id@ != id);
        }
        assert(first_with_id(s, id, i));
    } else {
        let i = choose|i: int| 0 <= i < s.len() && (#[trigger] s[i]).id@ == id;
        assert(s.drop_last()[i].id@ == id);
        lemma_has_id_first(s.drop_last(), id);
        let j = choose|j: int| first_with_id(s.drop_last(), id, j);
        assert forall|k: int| 0 <= k < j implies (#[trigger] s[k]).id@ != id by {
            assert(s.drop_last()[k].id@ != id);
        }
        assert(first_with_id(s, id, j));
    }
}

/// The position of the definition with id `id`.
fn find_definition(ds: &Vec<AzureRoleDefinition>, id: &String) -> (r: Option<usize>)
    ensures
        match r {
            Some(i) => first_azure_definition(ds@, id@, i as int),
            None => !has_azure_definition(ds@, id@),
        },
{
    let mut i: usize = 0;
    while i < ds.len()
        invariant
            i <= ds@.len(),
            forall|k: int| 0 <= k < i ==> (#[trigger] ds@[k]).id@ != id@,
        decreases ds@.len() - i,
    {
        if ds[i].id == *id {
            return Some(i);
        }
        i = i + 1;
    }
    None
}

proof fn lemma_first_azure_definition_unique(ds: Seq<AzureRoleDefinition>, id: Seq<char>, i: int, j: int)
    requires
        first_azure_definition(ds, id, i),
        first_azure_definition(ds, id, j),
    ensures
        i == j,
{
    if i < j {
        assert(ds[i].id@ != id);
    } else if j < i {
        assert(ds[j].id@ != id);
    }
}

impl UsersMap {
    pub fn new() -> (r: UsersMap)
        ensures
            r.inner@.len() == 0,
    {
        UsersMap { inner: Vec::new() }
    }

    /// The position of the user with id `id`.
    pub fn position(&self, id: &String) -> (r: Option<usize>)
        ensures
            match r {
                Some(i) => first_with_id(self.inner@, id@, i as int),
                None => !has_id(self.inner@, id@),
            },
    {
        let mut i: usize = 0;
        while i < self.inner.len()
            invariant
                i <= self.inner@.len(),
                forall|k: int| 0 <= k < i ==> (#[trigger] self.inner@[k]).id@ != id@,
            decreases self.inner@.len() - i,
        {
            if self.inner[i].id == *id {
                return Some(i);
            }
            i = i + 1;
        }
        None
    }

    /// Inserts a user under its id; returns the user it replaces.
    pub fn insert(&mut self, user: User) -> (r: Option<User>)
        ensures
            final(self).inner@ == upsert(old(self).inner@, user),
            r is Some <==> has_id(old(self).inner@, user.id@),
            r is Some ==> r->0.id@ == user.id@,
    {
        match self.position(&user.id) {
            Some(i) => {
                proof {
                    let c = choose|c: int| first_with_id(self.inner@, user.id@, c);
                    lemma_first_with_id_unique(self.inner@, user.id@, i as int, c);
                }
                let ghost before = self.inner@;
                let replaced = self.inner.remove(i);
                self.inner.insert(i, user);
                assert(self.inner@ =~= before.update(i as int, user));
                Some(replaced)
            },
            None => {
                self.inner.push(user);
                None
            },
        }
    }

    /// Inserts the users in turn, and stops with an error at the first one
    /// whose id was not in the map yet, once that one is inserted.
    pub fn extend_from_users(&mut self, users: Users) -> (r: Result<(), NewUserInserted>)
        ensures
            final(self).inner@ == extended(old(self).inner@, users.value@).0,
            r is Ok <==> extended(old(self).inner@, users.value@).1,
    {
        let ghost all = users.value@;
        let n = users.value.len();
        let mut rest = users.value;
        let mut i: usize = 0;
        assert(all.subrange(0, n as int) =~= all);
        while i < n
            invariant
                n == all.len(),
                i <= n,
                rest@ == all.subrange(i as int, n as int),
                all == users.value@,
                extended(old(self).inner@, all) == extended(self.inner@, all.subrange(i as int, n as int)),
            decreases n - i,
        {
            let user = rest.remove(0);
            proof {
                assert(all.subrange(i as int, n as int).drop_first() =~= all.subrange(i + 1, n as int));
                assert(rest@ =~= all.subrange(i + 1, n as int));
            }
            assert(all.subrange(i as int, n as int)[0] == user);
            let ghost before = self.inner@;
            let ghost u = user;
            let id = user.id.clone();
            match self.insert(user) {
                Some(_) => {},
                None => {
                    assert(extended(before, all.subrange(i as int, n as int)) == (before.push(u), false));
                    return Err(NewUserInserted { id });
                },
            }
            i = i + 1;
        }
        Ok(())
    }

    /// Inserts every user of `users`, which replace those of the same id.
    pub fn extend(&mut self, users: UsersMap)
        ensures
            final(self).inner@ == upsert_all(old(self).inner@, users.inner@),
    {
        let ghost all = users.inner@;
        let n = users.inner.len();
        let mut rest = users.inner;
        let mut i: usize = 0;
        assert(all.subrange(0, n as int) =~= all);
        while i < n
            invariant
                n == all.len(),
                i <= n,
                rest@ == all.subrange(i as int, n as int),
                upsert_all(old(self).inner@, all) == upsert_all(
                    self.inner@,
                    all.subrange(i as int, n as int),
                ),
            decreases n - i,
        {
            let user = rest.remove(0);
            proof {
                assert(all.subrange(i as int, n as int).drop_first() =~= all.subrange(i + 1, n as int));
                assert(rest@ =~= all.subrange(i + 1, n as int));
            }
            self.insert(user);
            i = i + 1;
        }
        assert(all.subrange(n as int, n as int) =~= Seq::<User>::empty());
    }

    /// Sets `is_privileged` of every user from its directory roles.
    pub fn set_is_privileged(&mut self, role_definitions: &RoleDefinitions)
        requires
            forall|k: int|
                0 <= k < old(self).inner@.len() ==> (#[trigger] old(
                    self,
                ).inner@[k]).transitive_member_of is Some,
        ensures
            final(self).inner@ == old(self).inner@.map_values(
                |u: User| with_privilege(u, role_definitions.value@),
            ),
    {
        let ghost all = self.inner@;
        let n = self.inner.len();
        let mut i: usize = 0;
        while i < n
            invariant
                n == all.len() == self.inner@.len(),
                i <= n,
                forall|k: int| 0 <= k < n ==> (#[trigger] all[k]).transitive_member_of is Some,
                forall|k: int|
                    0 <= k < i ==> self.inner@[k] == with_privilege(
                        #[trigger] all[k],
                        role_definitions.value@,
                    ),
                forall|k: int| i <= k < n ==> self.inner@[k] == #[trigger] all[k],
            decreases n - i,
        {
            let ghost before = self.inner@;
            let mut user = self.inner.remove(i);
            assert(user == all[i as int]);
            user.set_is_privileged(role_definitions);
            self.inner.insert(i, user);
            assert(self.inner@ =~= before.update(i as int, user));
            i = i + 1;
        }
        assert(self.inner@ =~= all.map_values(|u: User| with_privilege(u, role_definitions.value@)));
    }

    /// Takes in one role assignment; see `assignment_effect`.
    fn apply_assignment(
        &mut self,
        a: &RoleAssignment,
        role_definitions: &Vec<AzureRoleDefinition>,
    ) -> (r: Result<(), AzureRolesError>)
        ensures
            match assignment_effect(old(self).inner@, *a, role_definitions@) {
                Err(e) => r == Err::<(), AzureRolesError>(e) && final(self).inner@ == old(
                    self,
                ).inner@,
                Ok(None) => r is Ok && final(self).inner@ == old(self).inner@,
                Ok(Some((k, id, name))) => {
                    &&& r is Ok
                    &&& final(self).inner@.len() == old(self).inner@.len()
                    &&& 0 <= k < old(self).inner@.len()
                    &&& forall|j: int|
                        0 <= j < old(self).inner@.len() && j != k ==> final(self).inner@[j] == old(
                            self,
                        ).inner@[j]
                    &&& azure_role_added(old(self).inner@[k], final(self).inner@[k], id, name)
                },
            },
    {
        match &a.principal_type {
            None => return Err(AzureRolesError::NoPrincipalType),
            Some(PrincipalType::User) => {},
            Some(_) => return Ok(()),
        }
        let def_id = match &a.role_definition_id {
            None => return Err(AzureRolesError::NoRoleDefinitionId),
            Some(d) => d,
        };
        let d = match find_definition(role_definitions, def_id) {
            None => return Ok(()),
            Some(j) => {
                proof {
                    let c = choose|c: int| first_azure_definition(role_definitions@, def_id@, c);
                    lemma_first_azure_definition_unique(role_definitions@, def_id@, j as int, c);
                }
                &role_definitions[j]
            },
        };
        let principal_id = match &a.principal_id {
            None => return Err(AzureRolesError::NoPrincipalId),
            Some(p) => p,
        };
        let k = match self.position(principal_id) {
            None => return Ok(()),
            Some(k) => {
                proof {
                    let c = choose|c: int| first_with_id(self.inner@, principal_id@, c);
                    lemma_first_with_id_unique(self.inner@, principal_id@, k as int, c);
                }
                k
            },
        };
        let name = match &d.role_name {
            None => return Err(AzureRolesError::NoRoleName),
            Some(n) => n,
        };
        let privileged = is_privileged_role_name(name.as_str());
        let role = UserAzureRole { id: d.id.clone(), role_name: name.clone() };
        let ghost before = self.inner@;
        let mut user = self.inner.remove(k);
        let ghost old_user = user;
        let mut roles = match user.azure_roles {
            Some(r) => r,
            None => UserAzureRoles { privileged_roles: Vec::new(), roles: Vec::new() },
        };
        let ghost old_roles = roles;
        proof {
            if old_user.azure_roles is None {
                assert(role_pairs(old_roles.privileged_roles@) =~= Seq::empty());
                assert(role_pairs(old_roles.roles@) =~= Seq::empty());
            }
        }
        if privileged {
            roles.privileged_roles.push(role);
            assert(role_pairs(roles.privileged_roles@) =~= role_pairs(
                old_roles.privileged_roles@,
            ).push((role.id@, role.role_name@)));
        } else {
            roles.roles.push(role);
            assert(role_pairs(roles.roles@) =~= role_pairs(old_roles.roles@).push(
                (role.id@, role.role_name@),
            ));
        }
        user.azure_roles = Some(roles);
        self.inner.insert(k, user);
        assert(self.inner@ =~= before.update(k as int, user));
        Ok(())
    }

    /// Records each user's Azure roles from role assignments, in their order:
    /// an assignment to a user of the map, of a known definition, adds that
    /// role to the user's privileged roles where its name names an owner, a
    /// contributor or an admin, and to its other roles otherwise. Assignments
    /// to other kinds of principal are passed over. A missing member stops the
    /// work with an error; the assignments before it stay recorded.
    pub fn add_azure_roles(
        &mut self,
        role_assignments: &Vec<RoleAssignment>,
        role_definitions: &Vec<AzureRoleDefinition>,
    ) -> (r: Result<(), AzureRolesError>)
        ensures
            ({
                let users = old(self).inner@;
                let m = applied(users, role_assignments@, role_definitions@);
                let done = role_assignments@.subrange(0, m);
                &&& r is Ok <==> !some_fails(users, role_assignments@, role_definitions@)
                &&& r is Err ==> assignment_effect(users, role_assignments@[m], role_definitions@)
                    == Err::<Option<(int, Seq<char>, Seq<char>)>, AzureRolesError>(r->Err_0)
                &&& final(self).inner@.len() == users.len()
                &&& forall|k: int| 0 <= k < users.len() ==> {
                    &&& (#[trigger] final(self).inner@[k]) == (User {
                        azure_roles: final(self).inner@[k].azure_roles,
                        ..users[k]
                    })
                    &&& azure_roles_of(final(self).inner@[k], true) == azure_roles_of(users[k], true)
                        + grants(users, done, role_definitions@, k, true)
                    &&& azure_roles_of(final(self).inner@[k], false) == azure_roles_of(users[k], false)
                        + grants(users, done, role_definitions@, k, false)
                }
            }),
    {
        let ghost users = self.inner@;
        let ghost all = role_assignments@;
        let ghost ds = role_definitions@;
        let mut i: usize = 0;
        while i < role_assignments.len()
            invariant
                i <= all.len(),
                all == role_assignments@,
                ds == role_definitions@,
                users == old(self).inner@,
                same_ids(self.inner@, users),
                forall|j: int| 0 <= j < i ==> assignment_effect(users, #[trigger] all[j], ds) is Ok,
                forall|k: int| 0 <= k < users.len() ==> {
                    &&& (#[trigger] self.inner@[k]) == (User {
                        azure_roles: self.inner@[k].azure_roles,
                        ..users[k]
                    })
                    &&& azure_roles_of(self.inner@[k], true) == azure_roles_of(users[k], true)
                        + grants(users, all.subrange(0, i as int), ds, k, true)
                    &&& azure_roles_of(self.inner@[k], false) == azure_roles_of(users[k], false)
                        + grants(users, all.subrange(0, i as int), ds, k, false)
                },
            decreases all.len() - i,
        {
            let ghost cur = self.inner@;
            proof {
                lemma_same_ids_same_effect(cur, users, all[i as int], ds);
                assert(all.subrange(0, i + 1).drop_last() =~= all.subrange(0, i as int));
                assert(all.subrange(0, i + 1).last() == all[i as int]);
            }
            match self.apply_assignment(&role_assignments[i], role_definitions) {
                Err(e) => {
                    proof {
                        assert(fails_first_at(users, all, ds, i as int));
                        let c = choose|c: int| fails_first_at(users, all, ds, c);
                        if c < i {
                            assert(assignment_effect(users, all[c], ds) is Ok);
                        } else if c > i {
                            assert(assignment_effect(users, all[i as int], ds) is Ok);
                        }
                    }
                    return Err(e);
                },
                Ok(()) => {},
            }
            proof {
                assert forall|k: int| 0 <= k < users.len() implies {
                    &&& (#[trigger] self.inner@[k]) == (User {
                        azure_roles: self.inner@[k].azure_roles,
                        ..users[k]
                    })
                    &&& azure_roles_of(self.inner@[k], true) == azure_roles_of(users[k], true)
                        + grants(users, all.subrange(0, i + 1), ds, k, true)
                    &&& azure_roles_of(self.inner@[k], false) == azure_roles_of(users[k], false)
                        + grants(users, all.subrange(0, i + 1), ds, k, false)
                } by {
                    assert(cur[k] == (User { azure_roles: cur[k].azure_roles, ..users[k] }));
                }
            }
            i = i + 1;
        }
        proof {
            assert(all.subrange(0, all.len() as int) =~= all);
            if some_fails(users, all, ds) {
                let c = choose|c: int| fails_first_at(users, all, ds, c);
                assert(assignment_effect(users, all[c], ds) is Ok);
            }
        }
        Ok(())
    }
}

} // verus!
