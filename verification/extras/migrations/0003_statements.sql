-- Statements with many columns. A function that writes answers with one row
-- for each row that it wrote.

CREATE FUNCTION briefcase.upsert_member(text, text, text)
RETURNS SETOF bigint LANGUAGE sql AS $$
INSERT INTO briefcase.organization_members (org_id, actor_type, actor_id, org_role,
    membership_status, iam_version) VALUES (briefcase.current_org_id(), $1, $2, $3,
    'active', 0) ON CONFLICT (org_id, actor_type, actor_id) DO UPDATE SET org_role =
    EXCLUDED.org_role, membership_status = 'active' RETURNING iam_version
$$;

CREATE FUNCTION briefcase.add_online_tag(text)
RETURNS SETOF text LANGUAGE sql AS $$
INSERT INTO briefcase.organization_tags (org_id, tag_id, name, lifecycle_status,
    iam_version) VALUES (briefcase.current_org_id(), $1, $1, 'active', 0) ON CONFLICT
    (org_id, tag_id) DO UPDATE SET name = EXCLUDED.name, lifecycle_status = 'active' WHERE
    organization_tags.iam_version = 0 RETURNING tag_id
$$;

CREATE FUNCTION briefcase.claim_operation(text, text, text, text, text, bytea, uuid)
RETURNS SETOF integer LANGUAGE sql AS $$
INSERT INTO briefcase.idempotency_records (org_id, actor_type, actor_id, origin_app_id,
    operation, idempotency_key, request_hash, resource_id, locked_until, expires_at) VALUES
    (briefcase.current_org_id(), $1, $2, $3, $4, $5, $6, $7, clock_timestamp() + interval
    '5 minutes', clock_timestamp() + interval '24 hours') ON CONFLICT DO NOTHING RETURNING 1
$$;

CREATE FUNCTION briefcase.claimed_operation(text, text, text, text, text)
RETURNS TABLE (request_hash bytea, status text, resource_id uuid, locked_until timestamptz)
LANGUAGE sql AS $$
SELECT request_hash, status, resource_id, locked_until FROM briefcase.idempotency_records
    WHERE org_id = briefcase.current_org_id() AND actor_type = $1 AND actor_id = $2 AND
    origin_app_id = $3 AND operation = $4 AND idempotency_key = $5 FOR UPDATE
$$;

CREATE FUNCTION briefcase.take_over_operation(text, text, text, text, text, uuid)
RETURNS SETOF uuid LANGUAGE sql AS $$
UPDATE briefcase.idempotency_records SET locked_until = clock_timestamp() + interval
    '5 minutes', expires_at = clock_timestamp() + interval '24 hours', resource_id =
    COALESCE(resource_id, $6) WHERE org_id = briefcase.current_org_id() AND actor_type = $1
    AND actor_id = $2 AND origin_app_id = $3 AND operation = $4 AND idempotency_key = $5
    RETURNING resource_id
$$;

CREATE FUNCTION briefcase.close_operation(text, text, text, text, text, uuid, bytea)
RETURNS SETOF integer LANGUAGE sql AS $$
UPDATE briefcase.idempotency_records SET status = 'completed', response_status = 200,
    response_headers = '{}'::jsonb, response_body = jsonb_build_object('resource_id',
    $6::text), resource_id = COALESCE($6, resource_id), locked_until = clock_timestamp()
    WHERE org_id = briefcase.current_org_id() AND actor_type = $1 AND actor_id = $2 AND
    origin_app_id = $3 AND operation = $4 AND idempotency_key = $5 AND request_hash = $7 AND
    status = 'in_progress' RETURNING 1
$$;

CREATE FUNCTION briefcase.add_version(uuid, uuid, bigint, text, uuid, text, uuid, text,
    text, text, text, text, text, text, text, text, text, text, bigint, text, text, text)
RETURNS SETOF integer LANGUAGE sql AS $$
INSERT INTO briefcase.entry_versions (org_id, entry_id, version_id, version_number, source,
    restored_from_version_id, storage_backend, storage_config_id, bucket_name,
    storage_region, storage_prefix, storage_encryption_mode, storage_kms_key_arn,
    object_key, object_version_id, etag, checksum_algorithm, checksum_type, checksum_value,
    size_bytes, content_type, created_by_type, created_by_id) VALUES
    (briefcase.current_org_id(), $1, $2, $3, $4, $5, $6, $7, $8, $9, $10, $11, $12, $13,
    $14, $15, $16, $17, $18, $19, $20, $21, $22) RETURNING 1
$$;

CREATE FUNCTION briefcase.set_current_version(uuid, uuid, text, bigint, text, text)
RETURNS SETOF integer LANGUAGE sql AS $$
UPDATE briefcase.entries SET current_version_id = $2, content_type = $3, size_bytes = $4,
    updated_by_type = $5, updated_by_id = $6 WHERE org_id = briefcase.current_org_id() AND
    entry_id = $1 AND entry_type = 'file' AND deleted_at IS NULL RETURNING 1
$$;

CREATE FUNCTION briefcase.add_file(uuid, text, text, text, text, text, text, bigint, uuid,
    uuid, bigint)
RETURNS SETOF integer LANGUAGE sql AS $$
INSERT INTO briefcase.entries (org_id, entry_id, parent_id, entry_type, name, root_type,
    tag_id, owner_type, owner_id, origin_app_id, content_type, size_bytes,
    current_version_id, self_destruct_at, created_by_type, created_by_id, updated_by_type,
    updated_by_id) SELECT briefcase.current_org_id(), $1, parent.entry_id, 'file', $2, $3,
    parent.tag_id, $4, $5, $6, $7, $8, $9, clock_timestamp() + ($11::bigint * interval
    '1 minute'), $4, $5, $4, $5 FROM briefcase.entries AS parent WHERE parent.org_id =
    briefcase.current_org_id() AND parent.entry_id = $10 AND parent.deleted_at IS NULL AND
    parent.entry_type = 'folder' RETURNING 1
$$;

CREATE FUNCTION briefcase.extend_operation(text, text, text, text, text, bigint, bytea)
RETURNS SETOF integer LANGUAGE sql AS $$
UPDATE briefcase.idempotency_records SET locked_until = clock_timestamp() + ($6::bigint *
    interval '1 second'), expires_at = GREATEST(expires_at, clock_timestamp() + interval
    '24 hours') WHERE org_id = briefcase.current_org_id() AND actor_type = $1 AND actor_id =
    $2 AND origin_app_id = $3 AND operation = $4 AND idempotency_key = $5 AND request_hash =
    $7 AND status = 'in_progress' RETURNING 1
$$;

CREATE FUNCTION briefcase.release_operation(text, text, text, text, text, bytea)
RETURNS SETOF integer LANGUAGE sql AS $$
DELETE FROM briefcase.idempotency_records WHERE org_id = briefcase.current_org_id() AND
    actor_type = $1 AND actor_id = $2 AND origin_app_id = $3 AND operation = $4 AND
    idempotency_key = $5 AND request_hash = $6 AND status = 'in_progress' RETURNING 1
$$;

CREATE FUNCTION briefcase.add_delegated_upload(uuid, uuid, uuid, bigint, uuid, uuid, uuid,
    text, text, text, bytea, bytea, uuid, text, text, text, bigint, bytea, uuid, uuid,
    timestamptz, text, uuid, text, text, text, text, text, text, text, text)
RETURNS SETOF integer LANGUAGE sql AS $$
INSERT INTO briefcase.delegated_uploads (org_id, upload_id, operation_id,
    testing_environment_id, control_version, iam_organization_id, iam_principal_id,
    iam_membership_id, actor_type, actor_id, origin_app_id, request_hash, capability_hash,
    parent_id, parent_path, name, content_type, size_bytes, expected_sha256,
    destination_entry_id, proposed_entry_id, expires_at, storage_backend, storage_config_id,
    bucket_name, storage_region, storage_prefix, storage_role_arn, storage_external_id,
    storage_encryption_mode, storage_kms_key_arn, object_key) VALUES
    (briefcase.current_org_id(), $1, $2, $3, $4, $5, $6, $7, $8, $9, $10, $11, $12, $13,
    $14, $15, $16, $17, $18, $19, $20, $21, $22, $23, $24, $25, $26, $27, $28, $29, $30,
    $31) RETURNING 1
$$;

CREATE FUNCTION briefcase.add_shared_grant(uuid, uuid, text, text, smallint, boolean, text,
    text, bigint)
RETURNS SETOF integer LANGUAGE sql AS $$
INSERT INTO briefcase.permission_grants (org_id, entry_id, grant_id, principal_type,
    principal_id, access_mask, inherits_to_descendants, granted_by_type, granted_by_id,
    expires_at) VALUES (briefcase.current_org_id(), $1, $2, $3, $4, $5, $6, $7, $8,
    clock_timestamp() + ($9::bigint * interval '1 minute')) RETURNING 1
$$;

CREATE FUNCTION briefcase.add_folder(uuid, uuid, text, text, text, text, text, text)
RETURNS SETOF integer LANGUAGE sql AS $$
INSERT INTO briefcase.entries (org_id, entry_id, parent_id, entry_type, name, root_type,
    tag_id, owner_type, owner_id, origin_app_id, created_by_type, created_by_id,
    updated_by_type, updated_by_id) VALUES (briefcase.current_org_id(), $1, $2, 'folder',
    $3, $4, $5, $6, $7, $8, $6, $7, $6, $7) RETURNING 1
$$;

CREATE FUNCTION briefcase.change_entry(uuid, text, uuid, text, text)
RETURNS SETOF integer LANGUAGE sql AS $$
UPDATE briefcase.entries SET name = COALESCE($2, name), parent_id = COALESCE($3, parent_id),
    updated_by_type = $4, updated_by_id = $5 WHERE org_id = briefcase.current_org_id() AND
    entry_id = $1 AND deleted_at IS NULL RETURNING 1
$$;

CREATE FUNCTION briefcase.move_to_bin(uuid, uuid, timestamptz, timestamptz, text, text,
    timestamptz)
RETURNS SETOF integer LANGUAGE sql AS $$
UPDATE briefcase.entries AS entry SET deletion_batch_id = $2, deleted_at = $3, purge_after =
    CASE WHEN entry.self_destruct_at IS NULL THEN $4 ELSE $7 END, updated_by_type = $5,
    updated_by_id = $6 WHERE entry.org_id = briefcase.current_org_id() AND entry.deleted_at
    IS NULL AND EXISTS (SELECT 1 FROM briefcase.entry_closure AS subtree WHERE
    subtree.org_id = entry.org_id AND subtree.ancestor_id = $1 AND subtree.descendant_id =
    entry.entry_id) RETURNING 1
$$;

CREATE FUNCTION briefcase.deleted_subtree(uuid, uuid)
RETURNS TABLE (entry_id uuid, depth integer, due boolean)
LANGUAGE sql AS $$
SELECT child.entry_id, path.depth, COALESCE(child.purge_after <= clock_timestamp(), false)
    AS due FROM briefcase.entry_closure AS path JOIN briefcase.entries AS child ON
    child.org_id = path.org_id AND child.entry_id = path.descendant_id WHERE path.org_id =
    briefcase.current_org_id() AND path.ancestor_id = $1 AND child.deletion_batch_id = $2
    ORDER BY path.depth, child.entry_id FOR UPDATE OF child
$$;

CREATE FUNCTION briefcase.take_from_bin(uuid, uuid, text, text, text, boolean, uuid)
RETURNS SETOF integer LANGUAGE sql AS $$
UPDATE briefcase.entries SET parent_id = CASE WHEN $6 THEN $2 ELSE parent_id END, name =
    COALESCE($3, name), deletion_batch_id = NULL, deleted_at = NULL, purge_after = NULL,
    updated_by_type = $4, updated_by_id = $5 WHERE org_id = briefcase.current_org_id() AND
    entry_id = $1 AND deletion_batch_id = $7 RETURNING 1
$$;

CREATE FUNCTION briefcase.keep_entry(uuid)
RETURNS SETOF timestamptz LANGUAGE sql AS $$
UPDATE briefcase.entries AS entry SET self_destruct_at = NULL FROM (SELECT self_destruct_at
    FROM briefcase.entries WHERE org_id = briefcase.current_org_id() AND entry_id = $1 FOR
    UPDATE) AS previous WHERE entry.org_id = briefcase.current_org_id() AND entry.entry_id =
    $1 AND entry.deleted_at IS NULL AND previous.self_destruct_at > clock_timestamp()
    RETURNING previous.self_destruct_at
$$;

CREATE FUNCTION briefcase.request_recipients(text, text, text, text)
RETURNS TABLE (actor_type text, actor_id text, org_role text, membership_status text)
LANGUAGE sql AS $$
SELECT member.actor_type, member.actor_id, member.org_role, member.membership_status FROM briefcase.organization_members AS member
    WHERE member.org_id = briefcase.current_org_id() AND member.membership_status = 'active'
    AND (member.org_role IN ('owner', 'admin') OR (member.actor_type = $1 AND
    member.actor_id = $2)) AND NOT (member.actor_type = $3 AND member.actor_id = $4) ORDER
    BY member.actor_type, member.actor_id
$$;

CREATE FUNCTION briefcase.revoke_grant(uuid, uuid, text, text)
RETURNS SETOF integer LANGUAGE sql AS $$
UPDATE briefcase.permission_grants SET revoked_at = clock_timestamp(), revoked_by_type = $3,
    revoked_by_id = $4 WHERE org_id = briefcase.current_org_id() AND entry_id = $1 AND
    grant_id = $2 AND revoked_at IS NULL RETURNING 1
$$;

CREATE FUNCTION briefcase.notify_tag(text, text, text, text, uuid, jsonb)
RETURNS SETOF integer LANGUAGE sql AS $$
INSERT INTO briefcase.notifications (org_id, notification_id, recipient_type, recipient_id,
    kind, actor_type, actor_id, entry_id, details) SELECT m.org_id, briefcase.new_uuid_v7(),
    m.actor_type, m.actor_id, $2, $3, $4, $5, $6 FROM briefcase.organization_members m JOIN
    briefcase.organization_member_tags t USING (org_id, actor_type, actor_id) WHERE m.org_id
    = briefcase.current_org_id() AND t.tag_id = $1 AND m.membership_status = 'active'
    RETURNING 1
$$;

CREATE FUNCTION briefcase.set_contact(text, text, text)
RETURNS SETOF integer LANGUAGE sql AS $$
INSERT INTO briefcase.member_contacts (org_id, actor_type, actor_id, email) VALUES
    (briefcase.current_org_id(), $1, $2, $3) ON CONFLICT (org_id, actor_type, actor_id) DO
    UPDATE SET email = EXCLUDED.email, verified_at = clock_timestamp() RETURNING 1
$$;

CREATE FUNCTION briefcase.members_with_email(text)
RETURNS TABLE (actor_type text, actor_id text)
LANGUAGE sql AS $$
SELECT c.actor_type, c.actor_id FROM briefcase.member_contacts c JOIN
    briefcase.organization_members m USING (org_id, actor_type, actor_id) WHERE c.org_id =
    briefcase.current_org_id() AND lower(c.email) = lower($1) AND m.membership_status =
    'active' LIMIT 2
$$;

CREATE FUNCTION briefcase.revoke_tag_grant(uuid, uuid, text, text)
RETURNS SETOF integer LANGUAGE sql AS $$
UPDATE briefcase.tag_permission_grants SET revoked_at = clock_timestamp(), revoked_by_type =
    $3, revoked_by_id = $4 WHERE org_id = briefcase.current_org_id() AND entry_id = $1 AND
    grant_id = $2 AND revoked_at IS NULL RETURNING 1
$$;

CREATE FUNCTION briefcase.is_bin_root(uuid)
RETURNS boolean LANGUAGE sql AS $$
SELECT EXISTS (SELECT 1 FROM briefcase.entries AS entry WHERE entry.org_id =
    briefcase.current_org_id() AND entry.entry_id = $1 AND entry.deleted_at IS NOT NULL AND
    entry.purge_after > clock_timestamp() AND NOT EXISTS (SELECT 1 FROM briefcase.entries AS
    parent WHERE parent.org_id = entry.org_id AND parent.entry_id = entry.parent_id AND
    parent.deletion_batch_id = entry.deletion_batch_id))
$$;

CREATE FUNCTION briefcase.add_multipart_upload(uuid, uuid, text, text, text, text, text,
    bigint, bigint, integer, text, uuid, text, text, text, text, text, text, text,
    timestamptz)
RETURNS SETOF integer LANGUAGE sql AS $$
INSERT INTO briefcase.multipart_uploads (org_id, upload_id, parent_entry_id, owner_type,
    owner_id, origin_app_id, name, content_type, declared_size_bytes, part_size_bytes,
    expected_part_count, storage_backend, storage_config_id, bucket_name, storage_region,
    storage_prefix, storage_encryption_mode, storage_kms_key_arn, object_key,
    provider_upload_id, expires_at) VALUES (briefcase.current_org_id(), $1, $2, $3, $4, $5,
    $6, $7, $8, $9, $10, $11, $12, $13, $14, $15, $16, $17, $18, $19, $20) RETURNING 1
$$;

CREATE FUNCTION briefcase.set_multipart_part(uuid, integer, text, bigint, bytea)
RETURNS SETOF integer LANGUAGE sql AS $$
INSERT INTO briefcase.multipart_parts (org_id, upload_id, part_number, etag, size_bytes,
    checksum_sha256) VALUES (briefcase.current_org_id(), $1, $2, $3, $4, $5) ON CONFLICT
    (org_id, upload_id, part_number) DO UPDATE SET etag = EXCLUDED.etag, size_bytes =
    EXCLUDED.size_bytes, checksum_sha256 = EXCLUDED.checksum_sha256, uploaded_at =
    clock_timestamp() RETURNING 1
$$;

CREATE FUNCTION briefcase.add_cleanup_job(uuid, text, uuid, text, uuid, text, text, text,
    text, text, text, text, text)
RETURNS SETOF integer LANGUAGE sql AS $$
INSERT INTO briefcase.object_cleanup_jobs (org_id, cleanup_id, cleanup_kind,
    source_upload_id, storage_backend, storage_config_id, bucket_name, storage_region,
    storage_prefix, storage_role_arn, storage_encryption_mode, storage_kms_key_arn,
    object_key, provider_upload_id) VALUES (briefcase.current_org_id(), $1, $2, $3, $4, $5,
    $6, $7, $8, $9, $10, $11, $12, $13) RETURNING 1
$$;

CREATE FUNCTION briefcase.describing_configuration(text, text, text, text, text, text)
RETURNS SETOF uuid LANGUAGE sql AS $$
SELECT storage_config_id FROM briefcase.organization_storage_configs WHERE org_id =
    briefcase.current_org_id() AND bucket_name = $1 AND region = $2 AND role_arn = $3 AND
    bucket_prefix = $4 AND encryption_mode = $5 AND kms_key_arn IS NOT DISTINCT FROM $6
    ORDER BY created_at DESC LIMIT 1
$$;

CREATE FUNCTION briefcase.add_storage_configuration(uuid, text, text, text, text, text,
    text, text, text, text)
RETURNS SETOF integer LANGUAGE sql AS $$
INSERT INTO briefcase.organization_storage_configs (org_id, storage_config_id, status,
    bucket_name, region, role_arn, bucket_prefix, aws_account_id, encryption_mode,
    kms_key_arn, created_by_type, created_by_id) VALUES (briefcase.current_org_id(), $1,
    'validating', $2, $3, $4, $5, $6, $7, $8, $9, $10) ON CONFLICT (org_id,
    storage_config_id) DO NOTHING RETURNING 1
$$;

CREATE FUNCTION briefcase.settle_storage_configuration(uuid, timestamptz, text)
RETURNS SETOF integer LANGUAGE sql AS $$
UPDATE briefcase.organization_storage_configs SET status = CASE WHEN $3::text IS NULL THEN
    'active' ELSE 'failed' END, validated_at = $2, validation_failure_code = COALESCE($3,
    validation_failure_code), validation_failure_reason = COALESCE($3,
    validation_failure_reason) WHERE org_id = briefcase.current_org_id() AND
    storage_config_id = $1 AND status = 'validating' RETURNING 1
$$;

CREATE FUNCTION briefcase.deliver_event(uuid, uuid)
RETURNS SETOF integer LANGUAGE sql AS $$
UPDATE briefcase.outbox_events SET status = 'delivered', lease_token = NULL,
    lease_expires_at = NULL, last_error = NULL, delivered_at = clock_timestamp() WHERE
    org_id = briefcase.current_org_id() AND event_id = $1 AND status = 'processing' AND
    lease_token = $2 RETURNING 1
$$;

CREATE FUNCTION briefcase.rename_tag_root(uuid, text, text, text, text)
RETURNS SETOF uuid LANGUAGE sql AS $$
UPDATE briefcase.entries AS target SET name = $2, updated_by_type = $3, updated_by_id = $4
    WHERE target.org_id = briefcase.current_org_id() AND target.entry_id = $1 AND
    target.system_kind = 'tag_root' AND target.tag_id = $5 AND target.deleted_at IS NULL AND
    NOT EXISTS (SELECT 1 FROM briefcase.entries AS sibling WHERE sibling.org_id =
    target.org_id AND sibling.parent_id IS NOT DISTINCT FROM target.parent_id AND
    sibling.entry_id <> target.entry_id AND sibling.deleted_at IS NULL AND sibling.name
    COLLATE "C" = $2) RETURNING target.entry_id
$$;

CREATE FUNCTION briefcase.add_root(uuid, uuid, text, text, text, text, text, text, text,
    text)
RETURNS SETOF uuid LANGUAGE sql AS $$
INSERT INTO briefcase.entries (org_id, entry_id, parent_id, entry_type, name, root_type,
    tag_id, system_kind, owner_type, owner_id, created_by_type, created_by_id,
    updated_by_type, updated_by_id) VALUES (briefcase.current_org_id(), $1, $2, 'folder',
    $3, $4, $5, $6, $7, $8, $9, $10, $9, $10) ON CONFLICT DO NOTHING RETURNING entry_id
$$;

CREATE FUNCTION briefcase.find_app_container(uuid, text, text, text)
RETURNS SETOF uuid LANGUAGE sql AS $$
SELECT entry_id FROM briefcase.entries WHERE org_id = briefcase.current_org_id() AND
    parent_id = $1 AND name = $2 AND entry_type = 'folder' AND root_type = 'private' AND
    system_kind = 'app_container' AND owner_type = $3 AND owner_id = $4 AND deleted_at IS
    NULL
$$;

CREATE FUNCTION briefcase.first_member()
RETURNS TABLE (actor_type text, actor_id text)
LANGUAGE sql AS $$
SELECT actor_type, actor_id FROM briefcase.organization_members WHERE org_id =
    briefcase.current_org_id() ORDER BY CASE membership_status WHEN 'active' THEN 0 ELSE 1
    END, CASE org_role WHEN 'owner' THEN 0 WHEN 'admin' THEN 1 ELSE 2 END, created_at,
    actor_type, actor_id LIMIT 1
$$;

CREATE FUNCTION briefcase.boundary_container(text, text, text, text)
RETURNS SETOF briefcase.entries LANGUAGE sql AS $$
SELECT * FROM briefcase.entries WHERE org_id = briefcase.current_org_id() AND deleted_at IS
    NULL AND (($1 = 'public' AND system_kind = 'public_root') OR ($1 = 'private' AND
    system_kind = 'actor_root' AND owner_type = $3 AND owner_id = $4) OR ($1 = 'tag' AND
    system_kind = 'tag_root' AND tag_id IN (SELECT tag_id FROM briefcase.organization_tags
    WHERE org_id = briefcase.current_org_id() AND name = $2 AND lifecycle_status =
    'active'))) LIMIT 1
$$;

CREATE FUNCTION briefcase.versions_before(uuid, bigint, bigint)
RETURNS TABLE (version_id uuid, version_number bigint, source text, restored_from_version_id
    uuid, size_bytes bigint, created_by_type text, created_by_id text, created_at
    timestamptz)
LANGUAGE sql AS $$
SELECT version_id, version_number, source, restored_from_version_id, size_bytes,
    created_by_type, created_by_id, created_at FROM briefcase.entry_versions WHERE org_id =
    briefcase.current_org_id() AND entry_id = $1 AND version_number < $2 ORDER BY
    version_number DESC LIMIT $3
$$;

CREATE FUNCTION briefcase.live_permission_grants(uuid, uuid, bigint)
RETURNS SETOF briefcase.permission_grants LANGUAGE sql AS $$
SELECT * FROM briefcase.permission_grants WHERE org_id = briefcase.current_org_id() AND
    entry_id = $1 AND revoked_at IS NULL AND (expires_at IS NULL OR expires_at >
    clock_timestamp()) AND grant_id > $2 ORDER BY grant_id LIMIT $3
$$;

CREATE FUNCTION briefcase.entry_audit(uuid, timestamptz, uuid, bigint)
RETURNS TABLE (audit_id uuid, actor_type text, actor_id text, origin_app_id text, action
    text, metadata jsonb, occurred_at timestamptz)
LANGUAGE sql AS $$
SELECT audit_id, actor_type, actor_id, origin_app_id, action, metadata, occurred_at FROM
    briefcase.audit_events WHERE org_id = briefcase.current_org_id() AND entry_id = $1 AND
    occurred_at >= clock_timestamp() - interval '365 days' AND ($2::timestamptz IS NULL OR
    (occurred_at, audit_id) < ($2, $3)) ORDER BY occurred_at DESC, audit_id DESC LIMIT $4
$$;

CREATE FUNCTION briefcase.public_children(uuid, uuid)
RETURNS TABLE (entry_id uuid, name text, path text, entry_type text, content_type text,
    size_bytes bigint)
LANGUAGE sql AS $$
SELECT entry_id, name, path, entry_type, content_type, size_bytes FROM briefcase.entries
    WHERE org_id = briefcase.current_org_id() AND parent_id = $1 AND deleted_at IS NULL AND
    ($2::uuid IS NULL OR entry_id < $2) ORDER BY entry_id DESC LIMIT 101
$$;

CREATE FUNCTION briefcase.set_link(uuid, boolean, bigint)
RETURNS SETOF integer LANGUAGE sql AS $$
UPDATE briefcase.entries SET link_public = $2, link_expires_at = clock_timestamp() +
    ($3::bigint * interval '1 minute') WHERE org_id = briefcase.current_org_id() AND
    entry_id = $1 RETURNING 1
$$;

CREATE FUNCTION briefcase.settle_access_request(uuid, text, smallint, text, text, uuid)
RETURNS SETOF briefcase.access_requests LANGUAGE sql AS $$
UPDATE briefcase.access_requests SET status = $2, granted_access_mask = $3, decided_by_type
    = $4, decided_by_id = $5, decided_at = clock_timestamp(), permission_grant_id = $6 WHERE
    org_id = briefcase.current_org_id() AND access_request_id = $1 AND status = 'pending'
    RETURNING *
$$;

CREATE FUNCTION briefcase.inbox(text, text, bigint)
RETURNS SETOF briefcase.notifications LANGUAGE sql AS $$
SELECT * FROM briefcase.notifications WHERE org_id = briefcase.current_org_id() AND
    recipient_type = $1 AND recipient_id = $2 ORDER BY created_at DESC, notification_id DESC
    LIMIT $3
$$;

CREATE FUNCTION briefcase.add_access_request(uuid, uuid, text, text, smallint, text)
RETURNS SETOF briefcase.access_requests LANGUAGE sql AS $$
INSERT INTO briefcase.access_requests (org_id, access_request_id, entry_id,
    requested_by_type, requested_by_id, requested_access_mask, reason) VALUES
    (briefcase.current_org_id(), $1, $2, $3, $4, $5, $6) RETURNING *
$$;

CREATE FUNCTION briefcase.add_notification(uuid, text, text, text, text, text, uuid, jsonb)
RETURNS SETOF integer LANGUAGE sql AS $$
INSERT INTO briefcase.notifications (org_id, notification_id, recipient_type, recipient_id,
    kind, actor_type, actor_id, entry_id, details) VALUES (briefcase.current_org_id(), $1,
    $2, $3, $4, $5, $6, $7, $8) RETURNING 1
$$;

CREATE FUNCTION briefcase.read_inbox(text, text)
RETURNS SETOF integer LANGUAGE sql AS $$
UPDATE briefcase.notifications SET read_at = clock_timestamp() WHERE org_id =
    briefcase.current_org_id() AND recipient_type = $1 AND recipient_id = $2 AND read_at IS
    NULL RETURNING 1
$$;

CREATE FUNCTION briefcase.delegated_operation(bigint, uuid, uuid, uuid, text, text, text,
    uuid)
RETURNS SETOF briefcase.delegated_uploads LANGUAGE sql AS $$
SELECT * FROM briefcase.delegated_uploads WHERE org_id = briefcase.current_org_id() AND
    control_version = $1 AND iam_organization_id = $2 AND iam_principal_id = $3 AND
    iam_membership_id = $4 AND actor_type = $5 AND actor_id = $6 AND origin_app_id = $7 AND
    operation_id = $8 FOR UPDATE
$$;

CREATE FUNCTION briefcase.lock_subtree(uuid)
RETURNS SETOF uuid LANGUAGE sql AS $$
SELECT entry.entry_id FROM briefcase.entry_closure AS path JOIN briefcase.entries AS entry
    ON entry.org_id = path.org_id AND entry.entry_id = path.descendant_id WHERE path.org_id
    = briefcase.current_org_id() AND path.ancestor_id = $1 ORDER BY path.depth,
    entry.entry_id FOR UPDATE OF entry
$$;

CREATE FUNCTION briefcase.name_is_taken(uuid, text, uuid)
RETURNS boolean LANGUAGE sql AS $$
SELECT EXISTS (SELECT 1 FROM briefcase.entries WHERE org_id = briefcase.current_org_id() AND
    parent_id IS NOT DISTINCT FROM $1 AND name = $2 AND deleted_at IS NULL AND entry_id <>
    $3)
$$;

CREATE FUNCTION briefcase.deletion_batch(uuid)
RETURNS SETOF uuid LANGUAGE sql AS $$
SELECT deletion_batch_id FROM briefcase.entries WHERE org_id = briefcase.current_org_id()
    AND entry_id = $1 AND deleted_at IS NOT NULL AND purge_after > clock_timestamp() FOR
    UPDATE
$$;

CREATE FUNCTION briefcase.add_bug_report(uuid, text, text, text, text, text)
RETURNS SETOF integer LANGUAGE sql AS $$
INSERT INTO briefcase.bug_reports (org_id, report_id, actor_type, actor_id, message, pr_url,
    isi) VALUES (briefcase.current_org_id(), $1, $2, $3, $4, $5, $6) RETURNING 1
$$;

CREATE FUNCTION briefcase.forget_extraction(uuid)
RETURNS SETOF integer LANGUAGE sql AS $$
UPDATE briefcase.search_documents SET extracted_content = NULL, extraction_status =
    'pending', extraction_error_code = NULL, indexed_at = NULL WHERE org_id =
    briefcase.current_org_id() AND entry_id = $1 RETURNING 1
$$;

CREATE FUNCTION briefcase.complete_multipart_upload(uuid, uuid)
RETURNS SETOF integer LANGUAGE sql AS $$
UPDATE briefcase.multipart_uploads SET status = 'completed', completed_entry_id = $2,
    completed_at = clock_timestamp() WHERE org_id = briefcase.current_org_id() AND upload_id
    = $1 AND status = 'completing' RETURNING 1
$$;

CREATE FUNCTION briefcase.abort_multipart_upload(uuid)
RETURNS SETOF integer LANGUAGE sql AS $$
UPDATE briefcase.multipart_uploads SET status = 'aborted', aborted_at = clock_timestamp()
    WHERE org_id = briefcase.current_org_id() AND upload_id = $1 AND status NOT IN
    ('completed', 'aborted', 'expired') RETURNING 1
$$;

CREATE FUNCTION briefcase.advance_multipart_upload(uuid, text)
RETURNS SETOF integer LANGUAGE sql AS $$
UPDATE briefcase.multipart_uploads SET status = $2 WHERE org_id = briefcase.current_org_id()
    AND upload_id = $1 AND status IN ('initiated', 'uploading') RETURNING 1
$$;

CREATE FUNCTION briefcase.multipart_parts_of(uuid)
RETURNS SETOF briefcase.multipart_parts LANGUAGE sql AS $$
SELECT * FROM briefcase.multipart_parts WHERE org_id = briefcase.current_org_id() AND
    upload_id = $1 ORDER BY part_number
$$;

CREATE FUNCTION briefcase.release_event(uuid, uuid, text, timestamptz, text)
RETURNS SETOF integer LANGUAGE sql AS $$
UPDATE briefcase.outbox_events SET status = $3, available_at = $4, lease_token = NULL,
    lease_expires_at = NULL, last_error = $5 WHERE org_id = briefcase.current_org_id() AND
    event_id = $1 AND status = 'processing' AND lease_token = $2 RETURNING 1
$$;

CREATE FUNCTION briefcase.find_tag(text)
RETURNS SETOF text LANGUAGE sql AS $$
SELECT tag_id FROM briefcase.organization_tags WHERE org_id = briefcase.current_org_id() AND
    (tag_id = $1 OR name = $1) AND lifecycle_status = 'active' ORDER BY (tag_id = $1) DESC
    LIMIT 1
$$;

CREATE FUNCTION briefcase.tag_grant(uuid, uuid)
RETURNS TABLE (tag_id text, expires_at timestamptz, ended boolean)
LANGUAGE sql AS $$
SELECT tag_id, expires_at, COALESCE(expires_at <= clock_timestamp(), false) FROM
    briefcase.tag_permission_grants WHERE org_id = briefcase.current_org_id() AND entry_id =
    $1 AND grant_id = $2
$$;

CREATE FUNCTION briefcase.active_storage()
RETURNS SETOF briefcase.organization_storage_configs
LANGUAGE sql AS $$
SELECT * FROM briefcase.organization_storage_configs WHERE org_id =
    briefcase.current_org_id() AND status = 'active' ORDER BY validated_at DESC,
    storage_config_id DESC LIMIT 1
$$;

CREATE FUNCTION briefcase.supersede_storage(uuid)
RETURNS SETOF integer LANGUAGE sql AS $$
UPDATE briefcase.organization_storage_configs SET status = 'superseded' WHERE org_id =
    briefcase.current_org_id() AND status = 'active' AND storage_config_id <> $1 RETURNING 1
$$;

CREATE FUNCTION briefcase.add_member_tag(text, text, text, bigint)
RETURNS SETOF integer LANGUAGE sql AS $$
INSERT INTO briefcase.organization_member_tags (org_id, actor_type, actor_id, tag_id,
    iam_version) VALUES (briefcase.current_org_id(), $1, $2, $3, $4) RETURNING 1
$$;

CREATE FUNCTION briefcase.activate_tag(text)
RETURNS SETOF text LANGUAGE sql AS $$
UPDATE briefcase.organization_tags SET lifecycle_status = 'active' WHERE org_id =
    briefcase.current_org_id() AND name = $1 RETURNING tag_id
$$;

CREATE FUNCTION briefcase.is_active_member(text, text)
RETURNS boolean LANGUAGE sql AS $$
SELECT EXISTS (SELECT 1 FROM briefcase.organization_members WHERE org_id =
    briefcase.current_org_id() AND actor_type = $1 AND actor_id = $2 AND membership_status =
    'active')
$$;

CREATE FUNCTION briefcase.install_settings(text, text, text, text, text, text)
RETURNS void LANGUAGE sql AS $$
SELECT set_config('briefcase.org_id', $1, true),
    set_config('briefcase.testing_environment_id', $2, true),
    set_config('briefcase.actor_type', $3, true), set_config('briefcase.actor_id', $4,
    true), set_config('briefcase.origin_app_id', $5, true),
    set_config('briefcase.request_id', $6, true)
$$;

CREATE FUNCTION briefcase.add_audit_event(text, uuid, uuid, text, text, text, text, text,
    jsonb)
RETURNS SETOF integer LANGUAGE sql AS $$
INSERT INTO briefcase.audit_events (org_id, audit_id, entry_id, actor_type, actor_id,
    origin_app_id, action, request_id, metadata) VALUES ($1, $2, $3, $4, $5, $6, $7, $8, $9)
    RETURNING 1
$$;

CREATE FUNCTION briefcase.add_outbox_event(text, uuid, text, text, text, bigint, jsonb,
    timestamptz)
RETURNS SETOF integer LANGUAGE sql AS $$
INSERT INTO briefcase.outbox_events (org_id, event_id, topic, aggregate_type, aggregate_id,
    aggregate_version, payload, available_at) VALUES ($1, $2, $3, $4, $5, $6, $7, $8)
    RETURNING 1
$$;

CREATE FUNCTION briefcase.add_organization()
RETURNS SETOF integer LANGUAGE sql AS $$
INSERT INTO briefcase.organizations (org_id, iam_version, lifecycle_status) VALUES
    (briefcase.current_org_id(), 0, 'active') ON CONFLICT (org_id) DO NOTHING RETURNING 1
$$;

CREATE FUNCTION briefcase.forget_member_tags(text, text)
RETURNS SETOF integer LANGUAGE sql AS $$
DELETE FROM briefcase.organization_member_tags WHERE org_id = briefcase.current_org_id() AND
    actor_type = $1 AND actor_id = $2 RETURNING 1
$$;

CREATE FUNCTION briefcase.active_tag(text)
RETURNS SETOF text LANGUAGE sql AS $$
SELECT tag_id FROM briefcase.organization_tags WHERE org_id = briefcase.current_org_id() AND
    name = $1 AND lifecycle_status = 'active'
$$;

CREATE FUNCTION briefcase.tag_name(text)
RETURNS SETOF text LANGUAGE sql AS $$
SELECT name FROM briefcase.organization_tags WHERE org_id = briefcase.current_org_id() AND
    tag_id = $1
$$;

CREATE FUNCTION briefcase.active_entry_at(text)
RETURNS SETOF briefcase.entries LANGUAGE sql AS $$
SELECT * FROM briefcase.entries WHERE org_id = briefcase.current_org_id() AND path = $1 AND
    deleted_at IS NULL
$$;

CREATE FUNCTION briefcase.entry_activity(uuid, bigint)
RETURNS TABLE (actor_type text, actor_id text, origin_app_id text, action text, occurred_at
    timestamptz)
LANGUAGE sql AS $$
SELECT actor_type, actor_id, origin_app_id, action, occurred_at FROM briefcase.audit_events
    WHERE org_id = briefcase.current_org_id() AND entry_id = $1 ORDER BY occurred_at DESC,
    audit_id DESC LIMIT $2
$$;

CREATE FUNCTION briefcase.pending_delegated_uploads()
RETURNS TABLE (uploads bigint, bytes bigint)
LANGUAGE sql AS $$
SELECT count(*), COALESCE(sum(size_bytes), 0)::bigint FROM briefcase.delegated_uploads WHERE
    org_id = briefcase.current_org_id() AND status IN ('reserved', 'receiving', 'staged',
    'cleanup_pending')
$$;

CREATE FUNCTION briefcase.delegated_upload(uuid)
RETURNS SETOF briefcase.delegated_uploads LANGUAGE sql AS $$
SELECT * FROM briefcase.delegated_uploads WHERE org_id = briefcase.current_org_id() AND
    upload_id = $1 FOR UPDATE
$$;

CREATE FUNCTION briefcase.next_version_number(uuid)
RETURNS bigint LANGUAGE sql AS $$
SELECT COALESCE(MAX(version_number), 0) + 1 FROM briefcase.entry_versions WHERE org_id =
    briefcase.current_org_id() AND entry_id = $1
$$;

CREATE FUNCTION briefcase.version_content(uuid, uuid)
RETURNS SETOF briefcase.entry_versions LANGUAGE sql AS $$
SELECT * FROM briefcase.entry_versions WHERE org_id = briefcase.current_org_id() AND
    entry_id = $1 AND version_id = $2
$$;

CREATE FUNCTION briefcase.add_search_document(uuid, text)
RETURNS SETOF integer LANGUAGE sql AS $$
INSERT INTO briefcase.search_documents (org_id, entry_id, filename) VALUES
    (briefcase.current_org_id(), $1, $2) RETURNING 1
$$;

CREATE FUNCTION briefcase.unread_notifications(text, text)
RETURNS bigint LANGUAGE sql AS $$
SELECT count(*) FROM briefcase.notifications WHERE org_id = briefcase.current_org_id() AND
    recipient_type = $1 AND recipient_id = $2 AND read_at IS NULL
$$;

CREATE FUNCTION briefcase.grant_is_live(uuid, uuid)
RETURNS boolean LANGUAGE sql AS $$
SELECT EXISTS (SELECT 1 FROM briefcase.permission_grants WHERE org_id =
    briefcase.current_org_id() AND entry_id = $1 AND grant_id = $2 AND revoked_at IS NULL)
$$;

CREATE FUNCTION briefcase.lock_storage_configuration(uuid)
RETURNS SETOF uuid LANGUAGE sql AS $$
SELECT storage_config_id FROM briefcase.organization_storage_configs WHERE org_id =
    briefcase.current_org_id() AND storage_config_id = $1 FOR UPDATE
$$;

CREATE FUNCTION briefcase.storage_configuration(uuid)
RETURNS SETOF briefcase.organization_storage_configs
LANGUAGE sql AS $$
SELECT * FROM briefcase.organization_storage_configs WHERE org_id =
    briefcase.current_org_id() AND storage_config_id = $1
$$;

CREATE FUNCTION briefcase.is_member(text, text)
RETURNS boolean LANGUAGE sql AS $$
SELECT EXISTS (SELECT 1 FROM briefcase.organization_members WHERE org_id =
    briefcase.current_org_id() AND actor_type = $1 AND actor_id = $2)
$$;
