-- Reads that the adapters share. Every function runs with the caller's own
-- rights, so row-level security applies to all of them.

CREATE VIEW briefcase.member_projection WITH (security_invoker = true) AS
SELECT member.org_id, member.actor_type, member.actor_id, member.org_role,
       member.membership_status,
       COALESCE(
           array_agg(tag.name ORDER BY tag.name COLLATE "C")
               FILTER (WHERE tag.tag_id IS NOT NULL AND tag.lifecycle_status = 'active'),
           ARRAY[]::text[]
       ) AS tag_names
  FROM briefcase.organization_members AS member
  LEFT JOIN briefcase.organization_member_tags AS member_tag
    ON member_tag.org_id = member.org_id
   AND member_tag.actor_type = member.actor_type
   AND member_tag.actor_id = member.actor_id
  LEFT JOIN briefcase.organization_tags AS tag
    ON tag.org_id = member_tag.org_id AND tag.tag_id = member_tag.tag_id
 GROUP BY member.org_id, member.actor_type, member.actor_id, member.org_role,
          member.membership_status;

CREATE FUNCTION briefcase.relevant_grants(entry uuid, kind text, id text)
RETURNS TABLE (org_id text, entry_id uuid, grant_id uuid, principal_type text,
               principal_id text, access_mask smallint, inherits_to_descendants boolean,
               granted_by_type text, granted_by_id text, expires_at timestamptz,
               revoked_at timestamptz, created_at timestamptz, depth integer)
LANGUAGE sql STABLE AS $$
SELECT held.org_id, held.entry_id, held.grant_id, held.principal_type, held.principal_id,
       held.access_mask, held.inherits_to_descendants, held.granted_by_type,
       held.granted_by_id, held.expires_at, held.revoked_at, held.created_at, path.depth
  FROM briefcase.entry_closure AS path
  JOIN briefcase.effective_permission_grants AS held
    ON held.org_id = path.org_id AND held.entry_id = path.ancestor_id
 WHERE path.org_id = briefcase.current_org_id() AND path.descendant_id = entry
   AND held.principal_type = kind AND held.principal_id = id AND held.revoked_at IS NULL
   AND (path.depth = 0 OR held.inherits_to_descendants)
 ORDER BY path.depth, held.grant_id
$$;

CREATE FUNCTION briefcase.holds_grant(entry uuid, kind text, id text, beyond_read boolean)
RETURNS boolean LANGUAGE sql STABLE AS $$
SELECT EXISTS (
    SELECT 1 FROM briefcase.relevant_grants(entry, kind, id) AS held
     WHERE NOT beyond_read
        OR (held.access_mask & ~briefcase.access_bit('read')) <> 0)
$$;

CREATE FUNCTION briefcase.has_visible_descendant(entry uuid, kind text, id text, tags text[])
RETURNS boolean LANGUAGE sql STABLE AS $$
SELECT EXISTS (
    SELECT 1 FROM briefcase.entry_closure AS subtree
      JOIN briefcase.entries AS child
        ON child.org_id = subtree.org_id AND child.entry_id = subtree.descendant_id
 LEFT JOIN briefcase.organization_tags AS tag
        ON tag.org_id = child.org_id AND tag.tag_id = child.tag_id
     WHERE subtree.org_id = briefcase.current_org_id()
       AND subtree.ancestor_id = entry AND subtree.depth > 0 AND child.deleted_at IS NULL
       AND ((child.owner_type = kind AND child.owner_id = id)
            OR child.root_type = 'public'
            OR (child.root_type = 'tag' AND tag.name = ANY(tags))
            OR briefcase.holds_grant(child.entry_id, kind, id, false)))
$$;

CREATE FUNCTION briefcase.subtree_allows(root uuid, administers boolean, kind text, id text,
                                         origin text)
RETURNS boolean LANGUAGE sql STABLE AS $$
SELECT COALESCE(bool_and(
           entry.system_kind IS NULL
           AND (origin IS NULL OR entry.origin_app_id = origin)
           AND (administers OR (entry.owner_type = kind AND entry.owner_id = id)
                OR briefcase.holds_grant(entry.entry_id, kind, id, true))), false)
  FROM briefcase.entry_closure AS subtree
  JOIN briefcase.entries AS entry
    ON entry.org_id = subtree.org_id AND entry.entry_id = subtree.descendant_id
 WHERE subtree.org_id = briefcase.current_org_id() AND subtree.ancestor_id = root
$$;

CREATE FUNCTION briefcase.restore_fallback(root_type text, tag_name text, kind text, id text)
RETURNS uuid LANGUAGE sql AS $$
SELECT entry.entry_id FROM briefcase.entries AS entry
  LEFT JOIN briefcase.organization_tags AS tag
    ON tag.org_id = entry.org_id AND tag.tag_id = entry.tag_id
 WHERE entry.org_id = briefcase.current_org_id() AND entry.deleted_at IS NULL
   AND (($1 = 'public' AND entry.system_kind = 'public_root')
        OR ($1 = 'tag' AND entry.system_kind = 'tag_root' AND tag.name = $2)
        OR ($1 = 'private' AND ((entry.system_kind = 'actor_root'
                                 AND entry.owner_type = kind AND entry.owner_id = id)
                                OR entry.system_kind = 'private_root')))
 ORDER BY CASE WHEN entry.system_kind = 'actor_root' THEN 0 ELSE 1 END
 LIMIT 1 FOR UPDATE OF entry
$$;

CREATE FUNCTION briefcase.bin_entries(origin text, administers boolean, kind text, id text,
                                      before timestamptz, before_id uuid, size bigint)
RETURNS SETOF briefcase.entries LANGUAGE sql STABLE AS $$
SELECT entry.* FROM briefcase.entries AS entry
 WHERE entry.org_id = briefcase.current_org_id()
   AND entry.deleted_at IS NOT NULL AND entry.purge_after > clock_timestamp()
   AND NOT EXISTS (
       SELECT 1 FROM briefcase.entries AS parent
        WHERE parent.org_id = entry.org_id AND parent.entry_id = entry.parent_id
          AND parent.deletion_batch_id = entry.deletion_batch_id)
   AND (origin = '' OR entry.origin_app_id = origin)
   AND (administers OR (entry.owner_type = kind AND entry.owner_id = id)
        OR briefcase.holds_grant(entry.entry_id, kind, id, true))
   AND (before IS NULL OR (entry.deleted_at, entry.entry_id) < (before, before_id))
 ORDER BY entry.deleted_at DESC, entry.entry_id DESC LIMIT size
$$;

CREATE FUNCTION briefcase.search_hits(query text, administers boolean, kind text, id text,
                                      tags text[], size bigint)
RETURNS TABLE (entry_id uuid, score real, filename_match boolean, content_hits bigint,
               snippet text)
LANGUAGE sql STABLE AS $$
WITH search_query AS (
    SELECT websearch_to_tsquery('simple'::regconfig, briefcase.searchable_text(query)) AS value,
           ARRAY(SELECT term.lexeme
                   FROM unnest(to_tsvector('simple'::regconfig,
                                           briefcase.searchable_text(query))) AS term)
               AS lexemes)
SELECT document.entry_id,
       (2.0 * ts_rank(document.filename_search, search_query.value)
            + ts_rank(document.content_search, search_query.value))::real AS score,
       document.filename_search @@ search_query.value AS filename_match,
       content.hits AS content_hits,
       CASE WHEN document.content_search @@ search_query.value
            THEN ts_headline('simple'::regconfig, COALESCE(document.extracted_content, ''),
                             search_query.value, 'MaxFragments=2,MaxWords=24,MinWords=8')
            ELSE NULL END AS snippet
  FROM briefcase.search_documents AS document
  JOIN briefcase.entries AS entry
    ON entry.org_id = document.org_id AND entry.entry_id = document.entry_id
 CROSS JOIN search_query
 CROSS JOIN LATERAL (
       SELECT COALESCE(SUM(COALESCE(array_length(word.positions, 1), 0)), 0)::bigint AS hits
         FROM unnest(document.content_search) AS word
        WHERE word.lexeme = ANY(search_query.lexemes)) AS content
  LEFT JOIN briefcase.organization_tags AS tag
    ON tag.org_id = entry.org_id AND tag.tag_id = entry.tag_id
 WHERE document.org_id = briefcase.current_org_id() AND entry.deleted_at IS NULL
   AND (document.filename_search @@ search_query.value
        OR document.content_search @@ search_query.value)
   AND (administers OR (entry.owner_type = kind AND entry.owner_id = id)
        OR entry.root_type = 'public'
        OR (entry.root_type = 'tag' AND tag.name = ANY(tags))
        OR briefcase.holds_grant(entry.entry_id, kind, id, false))
 ORDER BY filename_match DESC, content_hits DESC, score DESC, document.entry_id
 LIMIT size
$$;

CREATE VIEW briefcase.reserved_roots WITH (security_invoker = true) AS
SELECT root.*,
       (EXISTS (SELECT 1 FROM briefcase.organization_members AS owner
                 WHERE owner.org_id = root.org_id AND owner.actor_type = root.owner_type
                   AND owner.actor_id = root.owner_id)
        AND (root.system_kind <> 'tag_root' OR EXISTS (
             SELECT 1 FROM briefcase.organization_tags AS tag
              WHERE tag.org_id = root.org_id AND tag.tag_id = root.tag_id))) AS identity_exists
  FROM briefcase.entries AS root
 WHERE root.org_id = briefcase.current_org_id()
   AND root.system_kind IN ('public_root', 'private_root', 'tag_root', 'actor_root');

CREATE VIEW briefcase.active_tag_roots WITH (security_invoker = true) AS
SELECT tag.tag_id, tag.name, root.entry_id AS root_entry_id, root.name AS root_name
  FROM briefcase.organization_tags AS tag
  LEFT JOIN briefcase.entries AS root
    ON root.org_id = tag.org_id AND root.system_kind = 'tag_root'
   AND root.tag_id = tag.tag_id AND root.deleted_at IS NULL
 WHERE tag.org_id = briefcase.current_org_id() AND tag.lifecycle_status = 'active';

CREATE VIEW briefcase.members_without_root WITH (security_invoker = true) AS
SELECT member.actor_type, member.actor_id
  FROM briefcase.organization_members AS member
 WHERE member.org_id = briefcase.current_org_id() AND member.membership_status = 'active'
   AND NOT EXISTS (
       SELECT 1 FROM briefcase.reserved_roots AS root
        WHERE root.system_kind = 'actor_root' AND root.owner_type = member.actor_type
          AND root.owner_id = member.actor_id AND root.deleted_at IS NULL);

-- Whether the caller is projected and every folder that the projection needs is
-- there, and whether every tag's folder carries the tag's own name. The shape of
-- the folders is judged elsewhere.
CREATE FUNCTION briefcase.root_preflight(kind text, id text)
RETURNS TABLE (complete boolean, tag_names_exact boolean)
LANGUAGE sql STABLE AS $$
SELECT EXISTS (SELECT 1 FROM briefcase.organization_members
                WHERE org_id = briefcase.current_org_id()
                  AND actor_type = kind AND actor_id = id)
       AND EXISTS (SELECT 1 FROM briefcase.reserved_roots WHERE system_kind = 'public_root')
       AND EXISTS (SELECT 1 FROM briefcase.reserved_roots WHERE system_kind = 'private_root')
       AND EXISTS (SELECT 1 FROM briefcase.reserved_roots
                    WHERE system_kind = 'actor_root' AND owner_type = kind AND owner_id = id)
       AND NOT EXISTS (SELECT 1 FROM briefcase.members_without_root)
       AND NOT EXISTS (SELECT 1 FROM briefcase.active_tag_roots WHERE root_entry_id IS NULL),
       NOT EXISTS (SELECT 1 FROM briefcase.active_tag_roots
                    WHERE root_name COLLATE "C" <> name COLLATE "C")
$$;

CREATE FUNCTION briefcase.read_usage()
RETURNS TABLE (daily_upload_bytes bigint, stored_bytes bigint, daily_upload_limit bigint,
               storage_limit bigint)
LANGUAGE sql STABLE AS $$
SELECT CASE WHEN daily_window = (clock_timestamp() AT TIME ZONE 'UTC')::date
            THEN daily_upload_bytes ELSE 0 END,
       stored_bytes, daily_upload_limit_bytes, storage_limit_bytes
  FROM briefcase.organization_usage WHERE org_id = briefcase.current_org_id()
$$;

-- Adds to the day's counter, and locks the row before it is read.
CREATE FUNCTION briefcase.charge_usage(charge bigint)
RETURNS TABLE (daily_upload_bytes bigint, stored_bytes bigint, daily_upload_limit bigint,
               storage_limit bigint)
LANGUAGE sql AS $$
INSERT INTO briefcase.organization_usage AS usage_row (org_id, daily_window, daily_upload_bytes)
VALUES (briefcase.current_org_id(), (clock_timestamp() AT TIME ZONE 'UTC')::date, charge)
ON CONFLICT (org_id) DO UPDATE
   SET daily_window = (clock_timestamp() AT TIME ZONE 'UTC')::date,
       daily_upload_bytes = CASE
           WHEN usage_row.daily_window = (clock_timestamp() AT TIME ZONE 'UTC')::date
           THEN usage_row.daily_upload_bytes + charge ELSE charge END
RETURNING daily_upload_bytes, stored_bytes, daily_upload_limit_bytes, storage_limit_bytes
$$;

CREATE VIEW briefcase.live_grants WITH (security_invoker = true) AS
SELECT held.entry_id, held.grant_id,
       jsonb_build_object(
           'id', held.grant_id,
           'principal', jsonb_build_object('type', held.principal_type, 'id', held.principal_id),
           'access', array_remove(ARRAY['read',
               CASE WHEN held.access_mask & 2 <> 0 THEN 'write' END,
               CASE WHEN held.access_mask & 4 <> 0 THEN 'update' END], NULL),
           'inherit', held.inherits_to_descendants, 'expires_at', held.expires_at) AS item
  FROM (SELECT entry_id, grant_id, principal_type, principal_id, access_mask,
               inherits_to_descendants, expires_at, revoked_at
          FROM briefcase.permission_grants WHERE org_id = briefcase.current_org_id()
         UNION ALL
        SELECT entry_id, grant_id, 'tag', tag_id, access_mask, inherits_to_descendants,
               expires_at, revoked_at
          FROM briefcase.tag_permission_grants WHERE org_id = briefcase.current_org_id()) AS held
 WHERE held.revoked_at IS NULL
   AND (held.expires_at IS NULL OR held.expires_at > clock_timestamp());

CREATE FUNCTION briefcase.public_entry(entry_path text)
RETURNS TABLE (entry_id uuid, name text, path text, entry_type text, content_type text,
               size_bytes bigint)
LANGUAGE sql STABLE AS $$
SELECT e.entry_id, e.name, e.path, e.entry_type, e.content_type, e.size_bytes
  FROM briefcase.entries AS e
  JOIN briefcase.organizations AS o ON o.org_id = e.org_id
 WHERE e.org_id = briefcase.current_org_id() AND o.lifecycle_status = 'active'
   AND e.path = entry_path AND e.deleted_at IS NULL
   AND EXISTS (SELECT 1 FROM briefcase.entry_closure AS c
                 JOIN briefcase.entries AS a
                   ON a.org_id = c.org_id AND a.entry_id = c.ancestor_id
                WHERE c.org_id = e.org_id AND c.descendant_id = e.entry_id AND a.link_public
                  AND (a.link_expires_at IS NULL OR a.link_expires_at > clock_timestamp())
                  AND a.deleted_at IS NULL)
   AND NOT EXISTS (SELECT 1 FROM briefcase.entry_closure AS c
                     JOIN briefcase.entries AS a
                       ON a.org_id = c.org_id AND a.entry_id = c.ancestor_id
                    WHERE c.org_id = e.org_id AND c.descendant_id = e.entry_id
                      AND a.deleted_at IS NOT NULL)
$$;

CREATE FUNCTION briefcase.inherited_link(entry uuid) RETURNS uuid LANGUAGE sql STABLE AS $$
SELECT a.entry_id FROM briefcase.entry_closure AS c
  JOIN briefcase.entries AS a ON a.org_id = c.org_id AND a.entry_id = c.ancestor_id
 WHERE c.org_id = briefcase.current_org_id() AND c.descendant_id = entry AND c.depth > 0
   AND a.link_public AND (a.link_expires_at IS NULL OR a.link_expires_at > clock_timestamp())
   AND a.deleted_at IS NULL
 ORDER BY c.depth LIMIT 1
$$;

-- Leases available events, and those whose earlier lease ran out.
CREATE FUNCTION briefcase.claim_outbox(size bigint, token uuid, until timestamptz)
RETURNS SETOF briefcase.outbox_events LANGUAGE sql AS $$
WITH candidates AS (
    SELECT event_id FROM briefcase.outbox_events
     WHERE org_id = briefcase.current_org_id()
       AND ((status = 'pending' AND available_at <= clock_timestamp())
            OR (status = 'processing' AND lease_expires_at <= clock_timestamp()))
     ORDER BY available_at, created_at, event_id
       FOR UPDATE SKIP LOCKED LIMIT size)
UPDATE briefcase.outbox_events AS event
   SET status = 'processing', attempt_count = event.attempt_count + 1,
       lease_token = token, lease_expires_at = until
  FROM candidates
 WHERE event.org_id = briefcase.current_org_id() AND event.event_id = candidates.event_id
RETURNING event.*
$$;
