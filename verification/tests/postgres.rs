use silicon_briefcase::clock::{seconds_until_utc_midnight, NANOS_PER_SECOND};
use silicon_briefcase::error::{
    conflict, database_error, exhausted, map_metadata, map_sql, map_sql_failure, repo_error,
    unknown_commit_error, usage_error, AppError, MetadataRepositoryError, SqlFailure, UploadLimit,
};
use silicon_briefcase::model::{
    ActorKind, ActorRef, AuthenticationMode, ExecutionContext, IdempotencyClaim, OrganizationRole,
    RequestAuthContext, TestingEnvironmentContext,
};
use silicon_briefcase::order::{insert_text, precedes};
use silicon_briefcase::postgres::content::{
    MULTIPART_INIT_OPERATION, SMALL_UPLOAD_OPERATION, VERSION_RESTORE_OPERATION,
};
use silicon_briefcase::postgres::metadata::common::{
    caller_projection_matches, needs_reconciliation, reconciliation_plan,
};
use silicon_briefcase::postgres::models::ProjectedCaller;
use silicon_briefcase::postgres::quota::{
    charge_upload, check_limit, counter, daily_charge, read_usage, usage, UsageRow,
};
use silicon_briefcase::postgres::reports::submit_report;
use silicon_briefcase::postgres::repository::{
    begin, checks_generation, failure_status, lease_held, part_columns, pool_for, Plane,
};
use silicon_briefcase::postgres::roots::{
    actor_targets, application_target, applications_target, collision_suffix, find_system_root,
    next_rename, next_root_action, reconcile_tag, resolve_custodian, system_folder_name,
    system_root_set_is_valid, system_roots_are_consistent, tag_root_name_is_current,
    truncate_utf8, ExistingSystemRoot, ProjectedMember, ProjectedTag, RenameStep, RootAction,
    RootEvent, RootPreflight, RootSibling, RootTarget, TagStep, MALFORMED_SYSTEM_ROOT,
    MAX_ENTRY_NAME_BYTES, MAX_NAME_ATTEMPTS,
};
use silicon_briefcase::postgres::{
    ensure_distinct_database_identities, fence_released, projection_settings, storage_org_id,
    testing_environment_lock_key, transaction_settings, verify_cross_tenant_role,
    verify_tenant_isolated_role, DatabaseIdentity, RoleCapabilities, TenantContext,
};

const LOCK_KEY: i64 = 2_881_170_468_322_473_089;

fn environment() -> TestingEnvironmentContext {
    TestingEnvironmentContext {
        id: 0x01990a9d_86f1_7000_8000_000000000010,
        control_version: 3,
    }
}

fn execution(testing_environment: Option<TestingEnvironmentContext>) -> ExecutionContext {
    ExecutionContext {
        authorization: RequestAuthContext {
            organization_id: "tos".to_owned(),
            actor: ActorRef { kind: ActorKind::Silicon, id: "researcher:tos".to_owned() },
            role: OrganizationRole::Member,
            tags: None,
            authentication: AuthenticationMode::OnBehalfOf {
                application_id: "tos>notes".to_owned(),
            },
            binding: None,
        },
        testing_environment,
        request_id: "request-1".to_owned(),
    }
}

#[test]
fn role_capability_distinguishes_tenant_and_cross_tenant_principals() {
    assert!(RoleCapabilities { rolsuper: true, rolbypassrls: false }.bypasses_row_level_security());
    assert!(RoleCapabilities { rolsuper: false, rolbypassrls: true }.bypasses_row_level_security());
    assert!(
        !RoleCapabilities { rolsuper: false, rolbypassrls: false }.bypasses_row_level_security()
    );
}

#[test]
fn roles_are_verified_for_the_pool_they_serve() {
    let isolated = RoleCapabilities { rolsuper: false, rolbypassrls: false };
    let bypassing = RoleCapabilities { rolsuper: false, rolbypassrls: true };
    assert!(verify_tenant_isolated_role(Some(isolated)).is_ok());
    assert!(verify_tenant_isolated_role(Some(bypassing)).is_err());
    assert!(verify_tenant_isolated_role(None).is_err());
    assert!(verify_cross_tenant_role(Some(bypassing)).is_ok());
    assert!(verify_cross_tenant_role(Some(isolated)).is_err());
    assert!(verify_cross_tenant_role(None).is_err());
}

#[test]
fn database_identity_rejects_aliases_for_the_same_database() {
    let production = DatabaseIdentity {
        system_identifier: "7483920011223344556".to_owned(),
        database_oid: 16_384,
        database_name: "briefcase".to_owned(),
    };
    let alias = production.clone();
    let testing = DatabaseIdentity {
        system_identifier: production.system_identifier.clone(),
        database_oid: production.database_oid + 1,
        database_name: "briefcase_test".to_owned(),
    };

    let rds_testing = DatabaseIdentity {
        database_name: "briefcase_test".to_owned(),
        ..production.clone()
    };

    assert!(ensure_distinct_database_identities(&production, &alias).is_err());
    assert!(ensure_distinct_database_identities(&production, &testing).is_ok());
    assert!(ensure_distinct_database_identities(&production, &rds_testing).is_ok());
}

#[test]
fn environments_are_fenced_by_a_key_of_their_own() {
    assert_eq!(testing_environment_lock_key(environment().id), LOCK_KEY);
    assert_ne!(testing_environment_lock_key(0), LOCK_KEY);
    assert!(fence_released(true, true).is_ok());
    assert!(fence_released(false, true).is_err());
    assert_ne!(fence_released(false, true), fence_released(false, false));
}

#[test]
fn organizations_of_an_environment_live_under_a_name_of_their_own() {
    assert_eq!(storage_org_id("tos", None), "tos");
    assert_eq!(
        storage_org_id("tos", Some(environment())),
        "01990a9d-86f1-7000-8000-000000000010:tos"
    );
}

#[test]
fn a_request_context_carries_the_member_and_the_application() {
    let context = TenantContext::from_execution(&execution(Some(environment())));
    assert_eq!(context.org_id(), "01990a9d-86f1-7000-8000-000000000010:tos");
    assert_eq!(context.actor_type(), "silicon");
    assert_eq!(context.actor_id(), "researcher:tos");
    assert_eq!(context.origin_app_id(), Some("tos>notes"));
    assert_eq!(context.request_id(), "request-1");
    assert_eq!(context.testing_environment_id(), Some(environment().id));
    assert_eq!(context.testing_environment_control_version(), Some(3));

    let settings = transaction_settings(&context);
    assert_eq!(settings.testing_environment_id, "01990a9d-86f1-7000-8000-000000000010");
    assert_eq!(settings.shared_lock, Some(LOCK_KEY));
    assert_eq!(settings.origin_app_id, "tos>notes");

    let production = transaction_settings(&TenantContext::from_execution(&execution(None)));
    assert_eq!(production.testing_environment_id, "");
    assert_eq!(production.shared_lock, None);
}

#[test]
fn service_contexts_carry_no_member() {
    let projection = TenantContext::for_token_projection(
        "tos",
        ActorKind::Carbon,
        1,
        "request-1".to_owned(),
        None,
    );
    assert_eq!(projection.actor_id(), "00000000-0000-0000-0000-000000000001");
    assert_eq!(projection.actor_type(), "carbon");
    let service = TenantContext::for_testing_environment_service(
        "tos",
        environment(),
        "request-1".to_owned(),
    );
    assert_eq!(service.actor_type(), "service");
    assert_eq!(service.origin_app_id(), None);
    let control = TenantContext::for_control_service("tos", "request-1".to_owned());
    assert_eq!(control.org_id(), "tos");
    let settings = projection_settings("tos", "request-1", None);
    assert_eq!(settings.org_id, "tos");
    assert_eq!(settings.actor_id, "iam-webhook");
}

#[test]
fn requests_go_to_the_pool_of_their_plane() {
    let testing = TenantContext::from_execution(&execution(Some(environment())));
    let production = TenantContext::from_execution(&execution(None));
    assert!(matches!(pool_for(&production, false), Ok(Plane::Production)));
    assert!(matches!(pool_for(&testing, true), Ok(Plane::Testing)));
    assert!(pool_for(&testing, false).is_err());
    assert!(checks_generation(&testing));
    assert!(!checks_generation(&production));
    assert!(begin(&testing, true).is_ok());
    assert!(begin(&testing, false).is_err());
    assert!(begin(&production, false).is_ok());
}

#[test]
fn deliveries_and_parts_are_written_as_columns_hold_them() {
    assert_eq!(failure_status(true), "dead_letter");
    assert_eq!(failure_status(false), "pending");
    assert!(lease_held(1));
    assert!(!lease_held(0));
    assert_eq!(part_columns(2, 5), Some((2, 5)));
    assert_eq!(part_columns(u32::MAX, 5), None);
    assert_eq!(part_columns(2, u64::MAX), None);
}

#[test]
fn publication_commit_errors_keep_a_static_operation_identity() {
    for operation in [
        SMALL_UPLOAD_OPERATION,
        MULTIPART_INIT_OPERATION,
        VERSION_RESTORE_OPERATION,
    ] {
        assert!(matches!(
            unknown_commit_error(sqlx::Error::PoolClosed, operation),
            AppError::DatabaseCommitOutcomeUnknown { operation: actual }
                if actual == operation
        ));
    }
}

#[test]
fn driver_failures_keep_their_class() {
    assert!(matches!(map_sql(sqlx::Error::RowNotFound), MetadataRepositoryError::NotFound));
    assert!(matches!(map_sql(sqlx::Error::PoolClosed), MetadataRepositoryError::Unavailable));
    assert!(matches!(map_sql(sqlx::Error::PoolTimedOut), MetadataRepositoryError::Unavailable));
    assert!(matches!(
        map_sql(sqlx::Error::ColumnNotFound("x".to_owned())),
        MetadataRepositoryError::Internal { .. }
    ));
    assert!(matches!(
        database_error(sqlx::Error::PoolClosed),
        AppError::DependencyUnavailable { dependency: "postgresql" }
    ));
    assert!(matches!(
        map_sql_failure(&SqlFailure::Database { code: Some("23505".to_owned()) }),
        MetadataRepositoryError::Conflict
    ));
    assert!(matches!(
        map_sql_failure(&SqlFailure::Database { code: Some("42601".to_owned()) }),
        MetadataRepositoryError::Internal { .. }
    ));
}

#[test]
fn repository_failures_are_reported_without_their_cause() {
    assert!(matches!(
        map_metadata(MetadataRepositoryError::Conflict),
        AppError::Conflict { code: "metadata_conflict" }
    ));
    assert!(matches!(map_metadata(MetadataRepositoryError::NotFound), AppError::NotFound));
    assert!(matches!(
        map_metadata(MetadataRepositoryError::Internal { reason: "x" }),
        AppError::Internal { category: "database_operation" }
    ));
    assert!(matches!(
        repo_error(MetadataRepositoryError::NotFound),
        AppError::Repository { error: MetadataRepositoryError::NotFound }
    ));
    assert!(matches!(
        usage_error(MetadataRepositoryError::Unavailable),
        AppError::Internal { category: "organization_usage" }
    ));
    assert!(matches!(conflict("x"), AppError::Conflict { code: "x" }));
}

#[test]
fn a_full_day_frees_up_at_midnight_and_full_storage_does_not() {
    let noon = 1_788_177_600 * NANOS_PER_SECOND;
    assert_eq!(seconds_until_utc_midnight(noon), 43_200);
    assert_eq!(seconds_until_utc_midnight(noon + 43_200 * NANOS_PER_SECOND - 1), 1);
    assert!(matches!(
        exhausted(UploadLimit::DailyUpload, noon),
        AppError::UploadLimitExhausted { retry_after_seconds: Some(43_200), .. }
    ));
    assert!(matches!(
        exhausted(UploadLimit::Storage, noon),
        AppError::UploadLimitExhausted { retry_after_seconds: None, .. }
    ));
    assert!(check_limit(Ok(()), noon).is_ok());
    assert!(check_limit(Err(UploadLimit::Storage), noon).is_err());
    assert!(matches!(
        charge_upload(Err(UploadLimit::DailyUpload), Err(UploadLimit::Storage), noon),
        Err(AppError::UploadLimitExhausted { limit: UploadLimit::DailyUpload, .. })
    ));
    assert!(charge_upload(Ok(()), Ok(()), noon).is_ok());
}

#[test]
fn corrupt_counters_read_as_exhausted() {
    assert_eq!(counter(7), 7);
    assert_eq!(counter(-1), u64::MAX);
    let read = usage(UsageRow {
        daily_upload_bytes: 1,
        stored_bytes: -5,
        daily_upload_limit: Some(10),
        storage_limit: None,
    });
    assert_eq!(read.daily_upload_bytes, 1);
    assert_eq!(read.stored_bytes, u64::MAX);
    assert_eq!(read.daily_upload_limit, Some(10));
    let empty = read_usage(None);
    assert_eq!(empty.stored_bytes, 0);
    assert!(matches!(daily_charge(5), Ok(5)));
    assert!(daily_charge(u64::MAX).is_err());
}

#[test]
fn reports_are_stored_once() {
    match submit_report(IdempotencyClaim::Acquired(Some(4))) {
        Ok(outcome) => {
            assert!(outcome.stores);
            assert_eq!(outcome.receipt.id, 4);
            assert!(outcome.receipt.accepted);
        }
        Err(error) => panic!("{error:?}"),
    }
    match submit_report(IdempotencyClaim::Replay(Some(4))) {
        Ok(outcome) => assert!(!outcome.stores),
        Err(error) => panic!("{error:?}"),
    }
    assert!(submit_report(IdempotencyClaim::Acquired(None)).is_err());
}

#[test]
fn caller_projection_tag_comparison_is_order_independent() {
    let projected = ProjectedCaller {
        org_role: "admin".to_owned(),
        membership_status: "active".to_owned(),
        tag_names: vec!["research".to_owned(), "finance".to_owned()],
    };
    let current = vec!["finance".to_owned(), "research".to_owned()];

    assert!(caller_projection_matches(&projected, OrganizationRole::Admin, &current));
}

#[test]
fn caller_projection_requires_active_role_and_exact_tag_set() {
    let projected = ProjectedCaller {
        org_role: "member".to_owned(),
        membership_status: "removed".to_owned(),
        tag_names: vec!["finance".to_owned()],
    };
    let mut duplicate_input: Vec<String> = Vec::new();
    insert_text(&mut duplicate_input, "finance".to_owned());
    insert_text(&mut duplicate_input, "finance".to_owned());
    assert_eq!(duplicate_input.len(), 1);
    assert!(!caller_projection_matches(&projected, OrganizationRole::Member, &duplicate_input));

    let active = ProjectedCaller { membership_status: "active".to_owned(), ..projected };
    assert!(!caller_projection_matches(&active, OrganizationRole::Owner, &duplicate_input));
    assert!(!caller_projection_matches(
        &active,
        OrganizationRole::Member,
        &vec!["finance".to_owned(), "research".to_owned()]
    ));
    assert!(caller_projection_matches(&active, OrganizationRole::Member, &duplicate_input));
}

#[test]
fn only_what_is_out_of_date_is_reconciled() {
    assert!(!needs_reconciliation(true, true));
    assert!(needs_reconciliation(false, true));
    assert!(needs_reconciliation(true, false));
    let plan = reconciliation_plan(true, false);
    assert!(!plan.refresh_caller);
    assert!(plan.reconcile_roots);
}

#[test]
fn texts_are_ordered_by_their_bytes() {
    assert!(precedes("a", "b"));
    assert!(precedes("a", "aa"));
    assert!(!precedes("b", "a"));
    assert!(!precedes("a", "a"));
    assert!(precedes("z", "é"));
}

fn system_root(
    entry_id: u128,
    system_kind: &str,
    root_type: &str,
    parent_id: Option<u128>,
    tag_id: Option<&str>,
    owner_id: &str,
) -> ExistingSystemRoot {
    ExistingSystemRoot {
        entry_id,
        parent_id,
        entry_type: "folder".to_owned(),
        root_type: root_type.to_owned(),
        tag_id: tag_id.map(str::to_owned),
        system_kind: system_kind.to_owned(),
        owner_type: "carbon".to_owned(),
        owner_id: owner_id.to_owned(),
        origin_app_id: None,
        content_type: None,
        size_bytes: None,
        current_version_id: None,
        deletion_batch_id: None,
        deleted_at: None,
        purge_after: None,
        identity_exists: true,
    }
}

fn valid_system_roots() -> Vec<ExistingSystemRoot> {
    vec![
        system_root(1, "public_root", "public", None, None, "custodian"),
        system_root(2, "private_root", "private", None, None, "custodian"),
        system_root(3, "tag_root", "tag", None, Some("tag-finance"), "custodian"),
        system_root(4, "actor_root", "private", Some(2), None, "carbon-a"),
    ]
}

fn is_entry_name(name: &str) -> bool {
    !name.is_empty()
        && name.len() <= MAX_ENTRY_NAME_BYTES
        && name != "."
        && name != ".."
        && name.trim() == name
        && !name.contains('/')
        && !name.chars().any(char::is_control)
}

#[test]
fn complete_reserved_root_shapes_are_accepted() {
    assert!(system_root_set_is_valid(&valid_system_roots()));
}

#[test]
fn malformed_reserved_root_shapes_fail_closed() {
    let valid = valid_system_roots();

    let mut deleted = valid.clone();
    deleted[0].deleted_at = Some(0);
    assert!(!system_root_set_is_valid(&deleted));

    let mut file = valid.clone();
    file[1].entry_type = "file".to_owned();
    assert!(!system_root_set_is_valid(&file));

    let mut file_metadata = valid.clone();
    file_metadata[1].content_type = Some("application/octet-stream".to_owned());
    assert!(!system_root_set_is_valid(&file_metadata));

    let mut wrong_tag_boundary = valid.clone();
    wrong_tag_boundary[2].root_type = "private".to_owned();
    assert!(!system_root_set_is_valid(&wrong_tag_boundary));

    let mut misparented_actor = valid.clone();
    misparented_actor[3].parent_id = Some(99);
    assert!(!system_root_set_is_valid(&misparented_actor));

    let mut missing_identity = valid;
    missing_identity[2].identity_exists = false;
    assert!(!system_root_set_is_valid(&missing_identity));
}

#[test]
fn duplicate_reserved_identities_fail_closed() {
    let mut roots = valid_system_roots();
    roots.push(system_root(5, "tag_root", "tag", None, Some("tag-finance"), "custodian"));

    assert!(!system_root_set_is_valid(&roots));
}

#[test]
fn canonical_root_names_are_preserved_when_available() {
    let identifier: u128 = 1;

    assert_eq!(system_folder_name("Public", "public", identifier, 0), "Public");
    assert_eq!(system_folder_name("Private", "private", identifier, 0), "Private");
    assert_eq!(system_folder_name("finance", "tag", identifier, 0), "finance");
}

#[test]
fn collision_names_are_valid_bounded_and_unique() {
    let first = system_folder_name(&"é".repeat(MAX_ENTRY_NAME_BYTES), "carbon", 1, 1);
    let second = system_folder_name(&"é".repeat(MAX_ENTRY_NAME_BYTES), "carbon", 2, 1);

    assert_ne!(first, second);
    assert!(first.len() <= MAX_ENTRY_NAME_BYTES);
    assert!(second.len() <= MAX_ENTRY_NAME_BYTES);
    assert!(is_entry_name(&first));
    assert!(is_entry_name(&second));
}

#[test]
fn repeated_collisions_have_stable_distinct_candidates() {
    let identifier: u128 = 42;
    let first = system_folder_name("finance", "tag", identifier, 1);
    let second = system_folder_name("finance", "tag", identifier, 2);

    assert_eq!(first, system_folder_name("finance", "tag", identifier, 1));
    assert_ne!(first, second);
    assert!(is_entry_name(&first));
    assert!(is_entry_name(&second));
}

#[test]
fn collision_names_carry_the_end_of_the_identifier() {
    assert_eq!(collision_suffix("tag", 42, 0), "");
    assert_eq!(collision_suffix("tag", 42, 1), " [tag-00000000002a]");
    assert_eq!(collision_suffix("tag", 42, 12), " [tag-00000000002a-12]");
    assert_eq!(system_folder_name("finance", "tag", 42, 1), "finance [tag-00000000002a]");
    assert_eq!(system_folder_name("  ", "tag", 42, 0), "Folder");
    assert_eq!(system_folder_name("..", "tag", 42, 0), "Folder");
    assert_eq!(system_folder_name("\u{2003}a\u{7f}b\tc \u{3000}", "tag", 42, 0), "a-b-c");
    for attempt in 0..=255 {
        let name = system_folder_name("  finance / 2\u{85} ", "silicon", 42, attempt);
        assert!(is_entry_name(&name));
        assert_eq!(name, system_folder_name("  finance / 2\u{85} ", "silicon", 42, attempt));
        for earlier in 0..attempt {
            assert_ne!(name, system_folder_name("  finance / 2\u{85} ", "silicon", 42, earlier));
        }
    }
    let dotted = format!(".{}x", " ".repeat(300));
    assert_eq!(system_folder_name(&dotted, "tag", 42, 0), ".");
    assert!(is_entry_name(&system_folder_name(&dotted, "tag", 42, 1)));
    assert!(is_entry_name(&system_folder_name(". x", "tag", 42, 0)));
    let mut text = "aéé".to_owned();
    truncate_utf8(&mut text, 4);
    assert_eq!(text, "aé");
}

#[test]
fn tag_name_preflight_accepts_only_the_first_available_candidate() {
    let root_id: u128 = 42;
    let fallback = system_folder_name("finance", "tag", root_id, 1);
    let tag = ProjectedTag {
        tag_id: "tag-finance".to_owned(),
        name: "finance".to_owned(),
        root_entry_id: Some(root_id),
        root_name: Some(fallback.clone()),
    };
    let root = RootSibling { entry_id: root_id, name: fallback };

    assert!(!tag_root_name_is_current(&tag, &vec![root.clone()]));

    let occupied_canonical = RootSibling { entry_id: 7, name: "finance".to_owned() };
    assert!(tag_root_name_is_current(&tag, &vec![root, occupied_canonical]));
}

#[test]
fn tag_name_preflight_detects_renames_and_accepts_sanitized_names() {
    let root_id: u128 = 42;
    let renamed = ProjectedTag {
        tag_id: "tag-finance".to_owned(),
        name: "accounting".to_owned(),
        root_entry_id: Some(root_id),
        root_name: Some("finance".to_owned()),
    };
    assert!(!tag_root_name_is_current(
        &renamed,
        &vec![RootSibling { entry_id: root_id, name: "finance".to_owned() }]
    ));

    let sanitized = ProjectedTag {
        tag_id: "tag-research".to_owned(),
        name: "team/research".to_owned(),
        root_entry_id: Some(root_id),
        root_name: Some("team-research".to_owned()),
    };
    assert!(tag_root_name_is_current(
        &sanitized,
        &vec![RootSibling { entry_id: root_id, name: "team-research".to_owned() }]
    ));
}

#[test]
fn external_identifier_path_characters_are_never_folder_paths() {
    let name = system_folder_name("team/research", "tag", 3, 0);

    assert_eq!(name, "team-research");
    assert!(is_entry_name(&name));
}

#[test]
fn roots_are_consistent_only_with_every_tag_name_current() {
    let structural = RootPreflight { structurally_consistent: true, tag_names_exact: false };
    let exact = RootPreflight { structurally_consistent: true, tag_names_exact: true };
    let broken = RootPreflight { structurally_consistent: false, tag_names_exact: true };
    let renamed = vec![ProjectedTag {
        tag_id: "tag-finance".to_owned(),
        name: "accounting".to_owned(),
        root_entry_id: Some(42),
        root_name: Some("finance".to_owned()),
    }];
    let siblings = vec![RootSibling { entry_id: 42, name: "finance".to_owned() }];
    assert!(system_roots_are_consistent(exact, &Vec::new(), &Vec::new()));
    assert!(!system_roots_are_consistent(broken, &Vec::new(), &Vec::new()));
    assert!(!system_roots_are_consistent(structural, &renamed, &siblings));
    assert!(system_roots_are_consistent(structural, &Vec::new(), &siblings));
}

fn projected(id: &str) -> ProjectedMember {
    ProjectedMember { actor_type: "carbon".to_owned(), actor_id: id.to_owned() }
}

#[test]
fn a_custodian_is_the_preferred_member_or_the_first_one() {
    assert_eq!(
        resolve_custodian(Some(projected("a")), true, Some(projected("b"))).map(|m| m.actor_id),
        Some("a".to_owned())
    );
    assert_eq!(
        resolve_custodian(Some(projected("a")), false, Some(projected("b"))).map(|m| m.actor_id),
        Some("b".to_owned())
    );
    assert!(resolve_custodian(None, false, None).is_none());
}

#[test]
fn roots_are_looked_up_before_they_are_inserted() {
    let target = RootTarget::Public;
    assert!(matches!(
        next_root_action(0, &target, RootEvent::LookedUp { found: Some(9) }),
        RootAction::Done { entry_id: 9 }
    ));
    assert!(matches!(
        next_root_action(0, &target, RootEvent::LookedUp { found: None }),
        RootAction::Insert { attempt: 0 }
    ));
    assert!(matches!(
        next_root_action(MAX_NAME_ATTEMPTS, &target, RootEvent::LookedUp { found: None }),
        RootAction::Exhausted
    ));
    let root = target.insertion(7, 0, &projected("a"));
    assert_eq!(root.name, "Public");
    assert_eq!(root.system_kind, "public_root");
    assert_eq!(root.root_type, "public");
    assert_eq!(root.owner.actor_id, "a");
}

#[test]
fn found_roots_have_to_have_their_shape() {
    let roots = valid_system_roots();
    let target = RootTarget::Tag { tag_id: "tag-finance".to_owned(), name: "finance".to_owned() };
    let expected = match target.expectation() {
        Some(expected) => expected,
        None => panic!("a tag root has a shape"),
    };
    assert_eq!(find_system_root(Some(&roots[2]), expected), Ok(Some(3)));
    assert_eq!(find_system_root(Some(&roots[0]), expected), Err(MALFORMED_SYSTEM_ROOT));
    assert_eq!(find_system_root(None, expected), Ok(None));
}

#[test]
fn tag_roots_are_made_or_renamed() {
    let missing = ProjectedTag {
        tag_id: "tag-finance".to_owned(),
        name: "finance".to_owned(),
        root_entry_id: None,
        root_name: None,
    };
    assert!(matches!(reconcile_tag(&missing), Ok(TagStep::Ensure { .. })));
    let existing = ProjectedTag {
        root_entry_id: Some(42),
        root_name: Some("accounting".to_owned()),
        ..missing
    };
    assert!(matches!(reconcile_tag(&existing), Ok(TagStep::Rename { entry_id: 42, .. })));
    match next_rename(&existing, 42, "accounting", 0) {
        RenameStep::Try { name } => assert_eq!(name, "finance"),
        other => panic!("{other:?}"),
    }
    assert!(matches!(next_rename(&existing, 42, "finance", 0), RenameStep::Keep));
    assert!(matches!(
        next_rename(&existing, 42, "accounting", MAX_NAME_ATTEMPTS),
        RenameStep::Exhausted
    ));
}

#[test]
fn members_and_applications_get_folders_of_their_own() {
    let targets = actor_targets(2, &vec![projected("a"), projected("b")], None);
    assert_eq!(targets.len(), 2);
    match &targets[0] {
        RootTarget::Actor { private_root_id, member } => {
            assert_eq!(*private_root_id, 2);
            assert_eq!(member.actor_id, "a");
        }
        other => panic!("{other:?}"),
    }
    let apps = applications_target(4, &projected("a")).insertion(5, 0, &projected("a"));
    assert_eq!(apps.name, "apps");
    assert_eq!(apps.parent_id, Some(4));
    let folder = application_target(5, "tos>notes", &projected("a")).insertion(6, 0, &projected("a"));
    assert_eq!(folder.name, "tos>notes");
    assert_eq!(folder.parent_id, Some(5));
}
