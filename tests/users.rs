use data_ingester::users::{
    is_privileged_role_name, AssignedPlan, AzureRoleDefinition, AzureRolesError, DirectoryRole,
    Group, GroupOrRole, PrincipalType, RoleAssignment, RoleDefinition, RoleDefinitions, User,
    Users, UsersMap,
};

fn role(template: &str) -> GroupOrRole {
    GroupOrRole::Role(DirectoryRole {
        id: format!("role-{template}"),
        display_name: None,
        role_template_id: template.to_string(),
    })
}

fn group(id: &str) -> GroupOrRole {
    GroupOrRole::Group(Group { id: id.to_string(), display_name: Some(id.to_uppercase()) })
}

fn definitions() -> RoleDefinitions {
    RoleDefinitions {
        value: vec![
            RoleDefinition { template_id: "global-admin".to_string(), display_name: None, is_privileged: Some(true) },
            RoleDefinition { template_id: "reader".to_string(), display_name: None, is_privileged: Some(false) },
            RoleDefinition { template_id: "unknown".to_string(), display_name: None, is_privileged: None },
        ],
    }
}

fn member(id: &str, of: Vec<GroupOrRole>) -> User {
    let mut u = User::new(id.to_string(), format!("User {id}"));
    u.transitive_member_of = Some(of);
    u
}

fn plan(status: &str, id: &str) -> AssignedPlan {
    AssignedPlan {
        assigned_date_time: "2024-01-01T00:00:00Z".to_string(),
        capability_status: status.to_string(),
        service: "exchange".to_string(),
        service_plan_id: id.to_string(),
    }
}

#[test]
fn new_user_knows_id_and_name() {
    let u = User::new("1".to_string(), "Ada".to_string());
    assert_eq!(u.id, "1");
    assert_eq!(u.display_name.as_deref(), Some("Ada"));
    assert!(u.assigned_plans.is_empty());
    assert!(u.transitive_member_of.is_none());
    assert!(u.is_privileged.is_none());
}

#[test]
fn groups_and_roles_are_split_in_order() {
    let u = member("1", vec![group("g1"), role("reader"), group("g2"), role("global-admin")]);
    let groups: Vec<&str> = u.groups().value.iter().map(|g| g.id.as_str()).collect();
    assert_eq!(groups, vec!["g1", "g2"]);
    let roles: Vec<&str> = u.roles().value.iter().map(|r| r.role_template_id.as_str()).collect();
    assert_eq!(roles, vec!["reader", "global-admin"]);
}

#[test]
fn privileged_role_makes_user_privileged() {
    let mut admin = member("1", vec![group("g1"), role("reader"), role("global-admin")]);
    admin.set_is_privileged(&definitions());
    assert_eq!(admin.is_privileged, Some(true));

    let mut reader = member("2", vec![role("reader"), role("unknown"), role("not-defined")]);
    reader.set_is_privileged(&definitions());
    assert_eq!(reader.is_privileged, Some(false));

    let mut nobody = member("3", vec![]);
    nobody.set_is_privileged(&definitions());
    assert_eq!(nobody.is_privileged, Some(false));
}

#[test]
fn deleted_plans_are_dropped() {
    let mut u = User::new("1".to_string(), "Ada".to_string());
    u.assigned_plans = vec![plan("Enabled", "a"), plan("Deleted", "b"), plan("Suspended", "c"), plan("Enabled", "d")];
    u.assigned_plans_remove_deleted();
    let kept: Vec<&str> = u.assigned_plans.iter().map(|p| p.service_plan_id.as_str()).collect();
    assert_eq!(kept, vec!["a", "d"]);
    assert!(plan("Enabled", "x").is_enabled());
    assert!(!plan("enabled", "x").is_enabled());
}

#[test]
fn users_map_insert_replaces_same_id() {
    let mut map = UsersMap::new();
    assert!(map.insert(User::new("1".to_string(), "first".to_string())).is_none());
    let replaced = map.insert(User::new("1".to_string(), "second".to_string())).unwrap();
    assert_eq!(replaced.display_name.as_deref(), Some("first"));
    assert_eq!(map.inner.len(), 1);
    assert_eq!(map.inner[0].display_name.as_deref(), Some("second"));
    assert_eq!(map.position(&"1".to_string()), Some(0));
    assert_eq!(map.position(&"2".to_string()), None);
}

#[test]
fn extend_overrides_by_id() {
    let mut map = UsersMap::new();
    map.insert(User::new("1".to_string(), "a".to_string()));
    map.insert(User::new("2".to_string(), "b".to_string()));
    let mut other = UsersMap::new();
    other.insert(User::new("2".to_string(), "B".to_string()));
    other.insert(User::new("3".to_string(), "c".to_string()));
    map.extend(other);
    let names: Vec<&str> = map.inner.iter().map(|u| u.display_name.as_deref().unwrap()).collect();
    assert_eq!(names, vec!["a", "B", "c"]);
}

#[test]
fn extend_from_users_stops_at_first_new_id() {
    let mut map = UsersMap::new();
    map.insert(User::new("1".to_string(), "a".to_string()));
    let users = Users {
        value: vec![
            User::new("1".to_string(), "A".to_string()),
            User::new("2".to_string(), "b".to_string()),
            User::new("3".to_string(), "c".to_string()),
        ],
    };
    let err = map.extend_from_users(users).err().unwrap();
    assert_eq!(err.id, "2");
    let names: Vec<&str> = map.inner.iter().map(|u| u.display_name.as_deref().unwrap()).collect();
    assert_eq!(names, vec!["A", "b"]);

    let again = Users { value: vec![User::new("2".to_string(), "B".to_string())] };
    assert!(map.extend_from_users(again).is_ok());
    assert_eq!(map.inner[1].display_name.as_deref(), Some("B"));
}

#[test]
fn users_map_sets_privilege_of_every_user() {
    let mut map = UsersMap::new();
    map.insert(member("1", vec![role("global-admin")]));
    map.insert(member("2", vec![group("g")]));
    map.set_is_privileged(&definitions());
    assert_eq!(map.inner[0].is_privileged, Some(true));
    assert_eq!(map.inner[1].is_privileged, Some(false));
}

fn assignment(kind: Option<PrincipalType>, definition: &str, principal: &str) -> RoleAssignment {
    RoleAssignment {
        principal_type: kind,
        role_definition_id: Some(definition.to_string()),
        principal_id: Some(principal.to_string()),
    }
}

fn azure_definitions() -> Vec<AzureRoleDefinition> {
    vec![
        AzureRoleDefinition { id: "/roles/owner".to_string(), role_name: Some("Owner".to_string()) },
        AzureRoleDefinition { id: "/roles/reader".to_string(), role_name: Some("Reader".to_string()) },
        AzureRoleDefinition { id: "/roles/kv".to_string(), role_name: Some("Key Vault Administrator".to_string()) },
        AzureRoleDefinition { id: "/roles/nameless".to_string(), role_name: None },
    ]
}

#[test]
fn role_names_that_count_as_privileged() {
    assert!(is_privileged_role_name("Owner"));
    assert!(is_privileged_role_name("Storage Account Contributor"));
    assert!(is_privileged_role_name("user access ADMINISTRATOR"));
    assert!(!is_privileged_role_name("Reader"));
    assert!(!is_privileged_role_name(""));
}

#[test]
fn azure_roles_are_recorded_per_user() {
    let mut map = UsersMap::new();
    map.insert(User::new("u1".to_string(), "a".to_string()));
    map.insert(User::new("u2".to_string(), "b".to_string()));
    let assignments = vec![
        assignment(Some(PrincipalType::User), "/roles/owner", "u1"),
        assignment(Some(PrincipalType::Group), "/roles/owner", "u2"),
        assignment(Some(PrincipalType::User), "/roles/reader", "u1"),
        assignment(Some(PrincipalType::User), "/roles/missing", "u2"),
        assignment(Some(PrincipalType::User), "/roles/kv", "nobody"),
        assignment(Some(PrincipalType::User), "/roles/kv", "u1"),
    ];
    assert!(map.add_azure_roles(&assignments, &azure_definitions()).is_ok());
    let roles = map.inner[0].azure_roles.as_ref().unwrap();
    let privileged: Vec<&str> = roles.privileged_roles.iter().map(|r| r.role_name.as_str()).collect();
    assert_eq!(privileged, vec!["Owner", "Key Vault Administrator"]);
    assert_eq!(roles.roles.len(), 1);
    assert_eq!(roles.roles[0].id, "/roles/reader");
    assert!(map.inner[1].azure_roles.is_none());
}

#[test]
fn azure_roles_stop_at_missing_member() {
    let mut map = UsersMap::new();
    map.insert(User::new("u1".to_string(), "a".to_string()));
    let assignments = vec![
        assignment(Some(PrincipalType::User), "/roles/reader", "u1"),
        assignment(None, "/roles/owner", "u1"),
        assignment(Some(PrincipalType::User), "/roles/owner", "u1"),
    ];
    assert!(matches!(map.add_azure_roles(&assignments, &azure_definitions()), Err(AzureRolesError::NoPrincipalType)));
    let roles = map.inner[0].azure_roles.as_ref().unwrap();
    assert_eq!(roles.roles.len(), 1);
    assert!(roles.privileged_roles.is_empty());

    let nameless = vec![assignment(Some(PrincipalType::User), "/roles/nameless", "u1")];
    assert!(matches!(map.add_azure_roles(&nameless, &azure_definitions()), Err(AzureRolesError::NoRoleName)));
}
