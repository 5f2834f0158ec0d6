//! Where content is stored, and an organization's own storage.

use vstd::prelude::*;

use crate::error::{conflict, internal_error, internal_integrity, AppError};
use crate::ids::{hyphenated, hyphenated_chars, StoredId};
use crate::model::{ActorRef, IdempotencyClaim, OrganizationRole};
use crate::postgres::content::{
    bad_value, content_claim, content_claim_of, in_progress, require_administrator, ContentClaim,
    OperationState,
};
use crate::postgres::kind_chars;
use crate::postgres::metadata::common::{
    actor_kind, ChangeRecord, Detail, DetailValue,
};
use crate::text::{
    borrowed_chars, clone_optional_text, optional_chars, same_optional_text, same_text,
};

verus! {

/// How stored content is encrypted.
#[derive(Clone, Copy, Debug, PartialEq, Eq, Structural)]
pub enum EncryptionMode {
    /// Keys of the store.
    SseS3,
    /// Keys of a key service.
    SseKms,
}

/// The stored name of a way of encryption.
pub open spec fn encryption_word(encryption: EncryptionMode) -> Seq<char> {
    match encryption {
        EncryptionMode::SseS3 => "sse_s3"@,
        EncryptionMode::SseKms => "sse_kms"@,
    }
}

/// The stored name of a way of encryption.
pub fn encryption_name(encryption: EncryptionMode) -> (name: &'static str)
    ensures
        name@ == encryption_word(encryption),
{
    match encryption {
        EncryptionMode::SseS3 => "sse_s3",
        EncryptionMode::SseKms => "sse_kms",
    }
}

/// The way of encryption that a stored name stands for.
pub open spec fn encryption_of(value: Seq<char>) -> Option<EncryptionMode> {
    if value == "sse_s3"@ {
        Some(EncryptionMode::SseS3)
    } else if value == "sse_kms"@ {
        Some(EncryptionMode::SseKms)
    } else {
        None
    }
}

/// The way of encryption that a stored name stands for.
pub fn parse_encryption(value: &str) -> (encryption: Result<EncryptionMode, AppError>)
    ensures
        encryption == match encryption_of(value@) {
            Some(known) => Ok::<EncryptionMode, AppError>(known),
            None => Err::<EncryptionMode, AppError>(bad_value()),
        },
{
    if same_text(value, "sse_s3") {
        Ok(EncryptionMode::SseS3)
    } else if same_text(value, "sse_kms") {
        Ok(EncryptionMode::SseKms)
    } else {
        Err(internal_integrity())
    }
}

/// A way of encryption survives being stored and read back.
pub proof fn law_encryption_round_trips(encryption: EncryptionMode)
    ensures
        encryption_of(encryption_word(encryption)) == Some(encryption),
{
    reveal_strlit("sse_s3");
    reveal_strlit("sse_kms");
    assert("sse_s3"@.len() == 6);
    assert("sse_kms"@.len() == 7);
}

/// A place that content is stored in.
#[derive(Clone, Debug)]
pub struct StorageTarget {
    /// Bucket.
    pub bucket: String,
    /// Region of the bucket.
    pub region: String,
    /// Prefix inside the bucket.
    pub prefix: String,
    /// Role that gives access to an organization's bucket.
    pub role_arn: Option<String>,
    /// External identifier that the role asks for.
    pub external_id: Option<String>,
    /// How content is encrypted.
    pub encryption: EncryptionMode,
    /// Key of the key service.
    pub kms_key_arn: Option<String>,
}

impl StorageTarget {
    /// Whether two targets are the same place.
    pub open spec fn same_place(self, other: StorageTarget) -> bool {
        &&& self.bucket@ == other.bucket@
        &&& self.region@ == other.region@
        &&& self.prefix@ == other.prefix@
        &&& optional_chars(self.role_arn) == optional_chars(other.role_arn)
        &&& optional_chars(self.external_id) == optional_chars(other.external_id)
        &&& self.encryption == other.encryption
        &&& optional_chars(self.kms_key_arn) == optional_chars(other.kms_key_arn)
    }

    /// Whether two targets are the same place.
    pub fn matches(&self, other: &StorageTarget) -> (same: bool)
        ensures
            same == self.same_place(*other),
    {
        same_text(self.bucket.as_str(), other.bucket.as_str()) && same_text(
            self.region.as_str(),
            other.region.as_str(),
        ) && same_text(self.prefix.as_str(), other.prefix.as_str()) && same_optional_text(
            &self.role_arn,
            &other.role_arn,
        ) && same_optional_text(&self.external_id, &other.external_id) && self.encryption
            == other.encryption && same_optional_text(&self.kms_key_arn, &other.kms_key_arn)
    }

    /// A copy of the target.
    pub fn duplicate(&self) -> (copy: StorageTarget)
        ensures
            copy == *self,
    {
        StorageTarget {
            bucket: self.bucket.clone(),
            region: self.region.clone(),
            prefix: self.prefix.clone(),
            role_arn: clone_optional_text(&self.role_arn),
            external_id: clone_optional_text(&self.external_id),
            encryption: self.encryption,
            kms_key_arn: clone_optional_text(&self.kms_key_arn),
        }
    }
}

/// Who provides a place: the platform, or a configuration of the organization.
#[derive(Clone, Copy, Debug, PartialEq, Eq, Structural)]
pub struct StorageReference {
    /// Configuration of the organization; none is the platform.
    pub configuration_id: Option<u128>,
}

impl StorageReference {
    /// The stored name of the provider.
    pub open spec fn backend_chars(self) -> Seq<char> {
        if self.configuration_id is Some {
            "organization"@
        } else {
            "platform"@
        }
    }

    /// The stored name of the provider.
    pub fn backend(&self) -> (name: &'static str)
        ensures
            name@ == self.backend_chars(),
    {
        if self.configuration_id.is_some() {
            "organization"
        } else {
            "platform"
        }
    }
}

/// An organization's storage configuration as stored.
#[derive(Clone, Debug)]
pub struct StorageConfigRow {
    /// Configuration identifier.
    pub storage_config_id: StoredId,
    /// Where the configuration stands.
    pub status: String,
    /// Bucket.
    pub bucket_name: String,
    /// Region.
    pub region: String,
    /// Role.
    pub role_arn: String,
    /// Prefix.
    pub bucket_prefix: String,
    /// Account that owns the bucket.
    pub aws_account_id: String,
    /// How content is encrypted.
    pub encryption_mode: String,
    /// Key of the key service.
    pub kms_key_arn: Option<String>,
    /// Time of the last validation.
    pub validated_at: Option<i128>,
    /// Why validation failed.
    pub validation_failure_code: Option<String>,
    /// Kind of the creator.
    pub created_by_type: String,
    /// Identifier of the creator.
    pub created_by_id: String,
}

/// Whether a target is the place that a configuration describes.
pub open spec fn target_of_configuration(
    target: StorageTarget,
    configuration: StorageConfigRow,
    external_id: Seq<char>,
) -> bool {
    &&& target.bucket == configuration.bucket_name
    &&& target.region == configuration.region
    &&& target.prefix == configuration.bucket_prefix
    &&& target.role_arn == Some(configuration.role_arn)
    &&& optional_chars(target.external_id) == Some(external_id)
    &&& Some(target.encryption) == encryption_of(configuration.encryption_mode@)
    &&& target.kms_key_arn == configuration.kms_key_arn
}

/// The place that a configuration describes. `external_id` is the one that the
/// organization's role asks for.
pub fn target_from_configuration(configuration: &StorageConfigRow, external_id: &str) -> (target:
    Result<StorageTarget, AppError>)
    ensures
        if encryption_of(configuration.encryption_mode@) is None {
            target == Err::<StorageTarget, AppError>(bad_value())
        } else {
            target matches Ok(made) && target_of_configuration(
                made,
                *configuration,
                external_id@,
            )
        },
{
    let encryption = match parse_encryption(configuration.encryption_mode.as_str()) {
        Ok(encryption) => encryption,
        Err(error) => {
            return Err(error);
        },
    };
    Ok(
        StorageTarget {
            bucket: configuration.bucket_name.clone(),
            region: configuration.region.clone(),
            prefix: configuration.bucket_prefix.clone(),
            role_arn: Some(configuration.role_arn.clone()),
            external_id: Some(external_id.to_owned()),
            encryption,
            kms_key_arn: clone_optional_text(&configuration.kms_key_arn),
        },
    )
}

/// The place that new content is written to: the organization's active
/// configuration, or the platform.
pub fn resolve_write_target(
    platform: StorageTarget,
    active: &Option<StorageConfigRow>,
    external_id: &str,
) -> (place: Result<(StorageTarget, StorageReference), AppError>)
    ensures
        match *active {
            None => place == Ok::<(StorageTarget, StorageReference), AppError>(
                (platform, StorageReference { configuration_id: None }),
            ),
            Some(configuration) => if encryption_of(configuration.encryption_mode@) is None {
                place == Err::<(StorageTarget, StorageReference), AppError>(bad_value())
            } else {
                place matches Ok(found) && target_of_configuration(
                    found.0,
                    configuration,
                    external_id@,
                ) && found.1.configuration_id == Some(configuration.storage_config_id.value)
            },
        },
{
    match active {
        None => Ok((platform, StorageReference { configuration_id: None })),
        Some(configuration) => match target_from_configuration(configuration, external_id) {
            Ok(target) => Ok(
                (
                    target,
                    StorageReference {
                        configuration_id: Some(configuration.storage_config_id.value),
                    },
                ),
            ),
            Err(error) => Err(error),
        },
    }
}

/// Who provides the place that content was written to. One that neither the
/// platform nor a configuration describes any more conflicts.
pub fn identify_storage_target(
    target: &StorageTarget,
    platform: &StorageTarget,
    configuration_id: Option<u128>,
) -> (reference: Result<StorageReference, AppError>)
    ensures
        reference == if target.same_place(*platform) {
            Ok::<StorageReference, AppError>(StorageReference { configuration_id: None })
        } else if configuration_id is Some {
            Ok::<StorageReference, AppError>(StorageReference { configuration_id })
        } else {
            Err::<StorageReference, AppError>(
                AppError::Conflict { code: "storage_target_changed" },
            )
        },
{
    if target.matches(platform) {
        return Ok(StorageReference { configuration_id: None });
    }
    if configuration_id.is_some() {
        Ok(StorageReference { configuration_id })
    } else {
        Err(conflict("storage_target_changed"))
    }
}

/// The place of content as its row remembers it.
#[derive(Clone, Debug)]
pub struct StoredPlace {
    /// Name of the provider.
    pub backend: String,
    /// Configuration of the organization.
    pub config_id: Option<u128>,
    /// Bucket.
    pub bucket: String,
    /// Region.
    pub region: String,
    /// Prefix.
    pub prefix: String,
    /// How content is encrypted.
    pub encryption_mode: String,
    /// Key of the key service.
    pub kms_key_arn: Option<String>,
}

/// Whether a place is the platform's.
pub open spec fn is_platform_place(place: StoredPlace) -> bool {
    place.backend@ == "platform"@ && place.config_id is None
}

/// Whether a place is an organization's whose configuration is known.
pub open spec fn is_organization_place(place: StoredPlace, role_arn: Option<Seq<char>>) -> bool {
    place.backend@ == "organization"@ && place.config_id is Some && role_arn is Some
}

/// Whether a target is the place that a row remembers.
pub open spec fn target_of_place(
    target: StorageTarget,
    place: StoredPlace,
    role_arn: Option<Seq<char>>,
    external_id: Seq<char>,
) -> bool {
    &&& target.bucket == place.bucket
    &&& target.region == place.region
    &&& target.prefix == place.prefix
    &&& Some(target.encryption) == encryption_of(place.encryption_mode@)
    &&& target.kms_key_arn == place.kms_key_arn
    &&& if is_platform_place(place) {
        target.role_arn is None && target.external_id is None
    } else {
        optional_chars(target.role_arn) == role_arn && optional_chars(target.external_id) == Some(
            external_id,
        )
    }
}

/// The place that a row remembers. `role_arn` is the role of the configuration
/// that it names; the place itself is taken from the row, so that content stays
/// readable when the configuration changes.
pub fn target_for_place(place: &StoredPlace, role_arn: Option<&str>, external_id: &str) -> (target:
    Result<StorageTarget, AppError>)
    ensures
        if !(is_platform_place(*place) || is_organization_place(*place, borrowed_chars(role_arn)))
            || encryption_of(place.encryption_mode@) is None {
            target == Err::<StorageTarget, AppError>(bad_value())
        } else {
            target matches Ok(made) && target_of_place(
                made,
                *place,
                borrowed_chars(role_arn),
                external_id@,
            )
        },
{
    proof {
        reveal_strlit("platform");
        reveal_strlit("organization");
        assert("platform"@.len() == 8);
        assert("organization"@.len() == 12);
    }
    let (role_arn, external_id) = if same_text(place.backend.as_str(), "platform")
        && place.config_id.is_none() {
        (None, None)
    } else if same_text(place.backend.as_str(), "organization") && place.config_id.is_some() {
        match role_arn {
            Some(role) => (Some(role.to_owned()), Some(external_id.to_owned())),
            None => {
                return Err(internal_integrity());
            },
        }
    } else {
        return Err(internal_integrity());
    };
    let encryption = match parse_encryption(place.encryption_mode.as_str()) {
        Ok(encryption) => encryption,
        Err(error) => {
            return Err(error);
        },
    };
    Ok(
        StorageTarget {
            bucket: place.bucket.clone(),
            region: place.region.clone(),
            prefix: place.prefix.clone(),
            role_arn,
            external_id,
            encryption,
            kms_key_arn: clone_optional_text(&place.kms_key_arn),
        },
    )
}

/// An organization's storage to configure.
#[derive(Clone, Debug)]
pub struct ConfigureStorageCommand {
    /// Bucket.
    pub bucket_name: String,
    /// Region.
    pub region: String,
    /// Role.
    pub role_arn: String,
    /// Prefix.
    pub prefix: String,
    /// Account that owns the bucket.
    pub aws_account_id: String,
    /// How content is encrypted.
    pub encryption: EncryptionMode,
    /// Key of the key service.
    pub kms_key_arn: Option<String>,
}

/// Outcome of configuring storage.
#[derive(Clone, Debug)]
pub struct StorageConfigurationResult {
    /// Configuration identifier.
    pub configuration_id: u128,
    /// Whether the configuration works.
    pub configured: bool,
    /// Time of the validation.
    pub tested_at: i128,
    /// Why it does not work.
    pub failure_reason: Option<String>,
}

/// The outcome that a stored configuration stands for.
pub open spec fn configuration_outcome(row: StorageConfigRow) -> Result<
    StorageConfigurationResult,
    AppError,
> {
    if !row.storage_config_id.accepted {
        Err(bad_value())
    } else if row.validated_at is None {
        Err(AppError::Conflict { code: "idempotency_state" })
    } else if row.status@ == "active"@ || row.status@ == "superseded"@ || row.status@
        == "disabled"@ {
        Ok(
            StorageConfigurationResult {
                configuration_id: row.storage_config_id.value,
                configured: true,
                tested_at: row.validated_at->0,
                failure_reason: None,
            },
        )
    } else if row.status@ == "failed"@ {
        Ok(
            StorageConfigurationResult {
                configuration_id: row.storage_config_id.value,
                configured: false,
                tested_at: row.validated_at->0,
                failure_reason: row.validation_failure_code,
            },
        )
    } else {
        Err(AppError::Conflict { code: "idempotency_state" })
    }
}

/// The outcome that a stored configuration stands for.
pub fn storage_configuration_result(row: &StorageConfigRow) -> (result: Result<
    StorageConfigurationResult,
    AppError,
>)
    ensures
        result == configuration_outcome(*row),
{
    if !row.storage_config_id.accepted {
        return Err(internal_error());
    }
    let tested_at: i128 = match row.validated_at {
        Some(tested_at) => tested_at,
        None => {
            return Err(conflict("idempotency_state"));
        },
    };
    let status = row.status.as_str();
    if same_text(status, "active") || same_text(status, "superseded") || same_text(
        status,
        "disabled",
    ) {
        Ok(
            StorageConfigurationResult {
                configuration_id: row.storage_config_id.value,
                configured: true,
                tested_at,
                failure_reason: None,
            },
        )
    } else if same_text(status, "failed") {
        Ok(
            StorageConfigurationResult {
                configuration_id: row.storage_config_id.value,
                configured: false,
                tested_at,
                failure_reason: clone_optional_text(&row.validation_failure_code),
            },
        )
    } else {
        Err(conflict("idempotency_state"))
    }
}

/// What starting to configure storage leads to.
#[derive(Clone, Debug)]
pub enum ConfigurationStart {
    /// It was configured before, with this outcome.
    Replay {
        /// The outcome.
        result: StorageConfigurationResult,
    },
    /// It is to be validated under this identifier.
    Validate {
        /// Configuration identifier.
        configuration_id: u128,
    },
}

/// Decides what starting to configure storage leads to. Without an idempotency
/// key the proposed identifier is used; `recorded` is the configuration that a
/// replayed request made.
pub fn start_storage_configuration(
    role: OrganizationRole,
    keyed: bool,
    claim: IdempotencyClaim,
    accepted: bool,
    proposed_id: u128,
    recorded: &Option<StorageConfigRow>,
) -> (start: Result<ConfigurationStart, AppError>)
    ensures
        if !role.administers() {
            start == Err::<ConfigurationStart, AppError>(AppError::Forbidden)
        } else if !keyed {
            start == Ok::<ConfigurationStart, AppError>(
                ConfigurationStart::Validate { configuration_id: proposed_id },
            )
        } else {
            match content_claim_of(claim, accepted, false) {
                Err(error) => start == Err::<ConfigurationStart, AppError>(error),
                Ok(ContentClaim::Run { id }) => start == Ok::<ConfigurationStart, AppError>(
                    ConfigurationStart::Validate { configuration_id: id },
                ),
                Ok(ContentClaim::Replay { .. }) => match *recorded {
                    None => start == Err::<ConfigurationStart, AppError>(
                        AppError::Conflict { code: "idempotency_state" },
                    ),
                    Some(row) => match configuration_outcome(row) {
                        Ok(result) => start == Ok::<ConfigurationStart, AppError>(
                            ConfigurationStart::Replay { result },
                        ),
                        Err(error) => start == Err::<ConfigurationStart, AppError>(error),
                    },
                },
            }
        },
{
    match require_administrator(role) {
        Ok(()) => {},
        Err(error) => {
            return Err(error);
        },
    }
    if !keyed {
        return Ok(ConfigurationStart::Validate { configuration_id: proposed_id });
    }
    match content_claim(claim, accepted, false) {
        Err(error) => Err(error),
        Ok(ContentClaim::Run { id }) => Ok(ConfigurationStart::Validate { configuration_id: id }),
        Ok(ContentClaim::Replay { .. }) => match recorded {
            None => Err(conflict("idempotency_state")),
            Some(row) => match storage_configuration_result(row) {
                Ok(result) => Ok(ConfigurationStart::Replay { result }),
                Err(error) => Err(error),
            },
        },
    }
}

/// Whether a stored configuration is the one that a request asks for, by the
/// same member, and still to be validated.
pub open spec fn is_requested_configuration(
    row: StorageConfigRow,
    command: ConfigureStorageCommand,
    actor: ActorRef,
) -> bool {
    &&& row.status@ == "validating"@
    &&& row.bucket_name@ == command.bucket_name@
    &&& row.region@ == command.region@
    &&& row.role_arn@ == command.role_arn@
    &&& row.bucket_prefix@ == command.prefix@
    &&& row.aws_account_id@ == command.aws_account_id@
    &&& row.encryption_mode@ == encryption_word(command.encryption)
    &&& optional_chars(row.kms_key_arn) == optional_chars(command.kms_key_arn)
    &&& row.created_by_type@ == kind_chars(actor.kind)
    &&& row.created_by_id@ == actor.id@
}

/// Whether a stored configuration is the one that a request asks for.
fn requested_configuration(
    row: &StorageConfigRow,
    command: &ConfigureStorageCommand,
    actor: &ActorRef,
) -> (same: bool)
    ensures
        same == is_requested_configuration(*row, *command, *actor),
{
    same_text(row.status.as_str(), "validating") && same_text(
        row.bucket_name.as_str(),
        command.bucket_name.as_str(),
    ) && same_text(row.region.as_str(), command.region.as_str()) && same_text(
        row.role_arn.as_str(),
        command.role_arn.as_str(),
    ) && same_text(row.bucket_prefix.as_str(), command.prefix.as_str()) && same_text(
        row.aws_account_id.as_str(),
        command.aws_account_id.as_str(),
    ) && same_text(row.encryption_mode.as_str(), encryption_name(command.encryption))
        && same_optional_text(&row.kms_key_arn, &command.kms_key_arn) && same_text(
        row.created_by_type.as_str(),
        actor_kind(actor.kind),
    ) && same_text(row.created_by_id.as_str(), actor.id.as_str())
}

/// A configuration that is ready to be validated.
#[derive(Clone, Debug)]
pub struct StorageConfigurationPreparation {
    /// Configuration identifier.
    pub configuration_id: u128,
    /// The place that it describes.
    pub target: StorageTarget,
    /// Account that has to own the bucket.
    pub expected_account_id: String,
    /// The change, where the configuration is new.
    pub change: Option<ChangeRecord>,
}

/// Whether a record is of a change to a configuration.
pub open spec fn is_configuration_change(
    change: ChangeRecord,
    configuration_id: u128,
    action: &'static str,
    payload: Seq<Detail>,
) -> bool {
    &&& change.entry_id is None
    &&& change.action == action
    &&& change.aggregate_type == "storage_configuration"
    &&& change.aggregate_id@ == hyphenated_chars(configuration_id)
    &&& change.payload@ == payload
}

/// A change to a configuration.
fn configuration_change(configuration_id: u128, action: &'static str, payload: Vec<Detail>) -> (change:
    ChangeRecord)
    ensures
        is_configuration_change(change, configuration_id, action, payload@),
{
    ChangeRecord {
        entry_id: None,
        action,
        aggregate_type: "storage_configuration",
        aggregate_id: hyphenated(configuration_id),
        payload,
    }
}

/// Prepares a configuration for validation, once its row is stored. A row that
/// an earlier request left has to be the very one that is asked for.
pub fn prepare_storage_configuration(
    command: &ConfigureStorageCommand,
    actor: &ActorRef,
    configuration_id: u128,
    inserted_rows: u64,
    stored: &Option<StorageConfigRow>,
    external_id: &str,
) -> (preparation: Result<StorageConfigurationPreparation, AppError>)
    ensures
        match *stored {
            None => preparation == Err::<StorageConfigurationPreparation, AppError>(
                AppError::Conflict { code: "idempotency_state" },
            ),
            Some(row) => if !is_requested_configuration(row, *command, *actor) {
                preparation == Err::<StorageConfigurationPreparation, AppError>(
                    AppError::Conflict { code: "idempotency_state" },
                )
            } else {
                preparation matches Ok(made) && made.configuration_id == configuration_id
                    && target_of_configuration(made.target, row, external_id@)
                    && made.expected_account_id == row.aws_account_id && made.change is Some == (
                inserted_rows == 1) && (made.change matches Some(change)
                    ==> is_configuration_change(
                    change,
                    configuration_id,
                    "storage.configuration_validation_started.v1",
                    seq![Detail { key: "configuration_id", value: DetailValue::Id(configuration_id) }],
                ))
            },
        },
{
    let row = match stored {
        Some(row) => row,
        None => {
            return Err(conflict("idempotency_state"));
        },
    };
    if !requested_configuration(row, command, actor) {
        return Err(conflict("idempotency_state"));
    }
    proof {
        law_encryption_round_trips(command.encryption);
    }
    let target = match target_from_configuration(row, external_id) {
        Ok(target) => target,
        Err(error) => {
            return Err(error);
        },
    };
    let change = if inserted_rows == 1 {
        let payload: Vec<Detail> = vec![
            Detail { key: "configuration_id", value: DetailValue::Id(configuration_id) },
        ];
        assert(payload@ =~= seq![
            Detail { key: "configuration_id", value: DetailValue::Id(configuration_id) },
        ]);
        Some(
            configuration_change(
                configuration_id,
                "storage.configuration_validation_started.v1",
                payload,
            ),
        )
    } else {
        None
    };
    Ok(
        StorageConfigurationPreparation {
            configuration_id,
            target,
            expected_account_id: row.aws_account_id.clone(),
            change,
        },
    )
}

/// The first reason why a validated configuration is not settled. `state` is
/// the record of a request with a key, `exists` says whether the configuration
/// is there, `updated_rows` whether it was still being validated.
pub open spec fn settlement_refusal(
    role: OrganizationRole,
    keyed: Option<Seq<u8>>,
    state: Option<OperationState>,
    exists: bool,
    updated_rows: u64,
) -> Option<AppError> {
    if !role.administers() {
        Some(AppError::Forbidden)
    } else if keyed matches Some(hash) && !in_progress(state, hash) {
        Some(AppError::Conflict { code: "idempotency_state" })
    } else if !exists {
        Some(AppError::NotFound)
    } else if updated_rows != 1 {
        Some(AppError::Conflict { code: "storage_configuration_state" })
    } else {
        None
    }
}

/// The view of an optional digest.
pub open spec fn digest_view(hash: Option<&[u8; 32]>) -> Option<Seq<u8>> {
    match hash {
        Some(bytes) => Some(bytes@),
        None => None,
    }
}

/// Refuses to settle a configuration whose request is no longer the running
/// one.
pub fn check_settlement(
    role: OrganizationRole,
    request_hash: Option<&[u8; 32]>,
    state: &Option<OperationState>,
    exists: bool,
    updated_rows: u64,
) -> (result: Result<(), AppError>)
    ensures
        match settlement_refusal(role, digest_view(request_hash), *state, exists, updated_rows) {
            Some(error) => result == Err::<(), AppError>(error),
            None => result == Ok::<(), AppError>(()),
        },
{
    match require_administrator(role) {
        Ok(()) => {},
        Err(error) => {
            return Err(error);
        },
    }
    if let Some(hash) = request_hash {
        match crate::postgres::content::ensure_idempotency_in_progress(state, hash) {
            Ok(()) => {},
            Err(error) => {
                return Err(error);
            },
        }
    }
    if !exists {
        return Err(AppError::NotFound);
    }
    if updated_rows != 1 {
        return Err(conflict("storage_configuration_state"));
    }
    Ok(())
}

/// A settled configuration: its outcome and its change.
#[derive(Clone, Debug)]
pub struct Settlement {
    /// The outcome.
    pub result: StorageConfigurationResult,
    /// The change.
    pub change: ChangeRecord,
}

/// Settles a configuration that works. It alone is active from then on.
pub fn activate_storage_configuration(
    role: OrganizationRole,
    request_hash: Option<&[u8; 32]>,
    state: &Option<OperationState>,
    exists: bool,
    updated_rows: u64,
    configuration_id: u128,
    tested_at: i128,
) -> (settlement: Result<Settlement, AppError>)
    ensures
        match settlement_refusal(role, digest_view(request_hash), *state, exists, updated_rows) {
            Some(error) => settlement == Err::<Settlement, AppError>(error),
            None => settlement matches Ok(made) && made.result == (StorageConfigurationResult {
                configuration_id,
                configured: true,
                tested_at,
                failure_reason: None,
            }) && is_configuration_change(
                made.change,
                configuration_id,
                "storage.configuration_activated.v1",
                seq![Detail { key: "tested_at", value: DetailValue::Timestamp(tested_at) }],
            ),
        },
{
    match check_settlement(role, request_hash, state, exists, updated_rows) {
        Ok(()) => {},
        Err(error) => {
            return Err(error);
        },
    }
    let payload: Vec<Detail> = vec![
        Detail { key: "tested_at", value: DetailValue::Timestamp(tested_at) },
    ];
    assert(payload@ =~= seq![
        Detail { key: "tested_at", value: DetailValue::Timestamp(tested_at) },
    ]);
    Ok(
        Settlement {
            result: StorageConfigurationResult {
                configuration_id,
                configured: true,
                tested_at,
                failure_reason: None,
            },
            change: configuration_change(
                configuration_id,
                "storage.configuration_activated.v1",
                payload,
            ),
        },
    )
}

/// Settles a configuration that does not work.
pub fn fail_storage_configuration(
    role: OrganizationRole,
    request_hash: Option<&[u8; 32]>,
    state: &Option<OperationState>,
    exists: bool,
    updated_rows: u64,
    configuration_id: u128,
    tested_at: i128,
    reason: &'static str,
) -> (settlement: Result<Settlement, AppError>)
    ensures
        match settlement_refusal(role, digest_view(request_hash), *state, exists, updated_rows) {
            Some(error) => settlement == Err::<Settlement, AppError>(error),
            None => settlement matches Ok(made) && made.result.configuration_id == configuration_id
                && !made.result.configured && made.result.tested_at == tested_at && optional_chars(
                made.result.failure_reason,
            ) == Some(reason@) && is_configuration_change(
                made.change,
                configuration_id,
                "storage.configuration_failed.v1",
                seq![
                    Detail { key: "tested_at", value: DetailValue::Timestamp(tested_at) },
                    Detail { key: "reason", value: DetailValue::Word(reason) },
                ],
            ),
        },
{
    match check_settlement(role, request_hash, state, exists, updated_rows) {
        Ok(()) => {},
        Err(error) => {
            return Err(error);
        },
    }
    let payload: Vec<Detail> = vec![
        Detail { key: "tested_at", value: DetailValue::Timestamp(tested_at) },
        Detail { key: "reason", value: DetailValue::Word(reason) },
    ];
    assert(payload@ =~= seq![
        Detail { key: "tested_at", value: DetailValue::Timestamp(tested_at) },
        Detail { key: "reason", value: DetailValue::Word(reason) },
    ]);
    Ok(
        Settlement {
            result: StorageConfigurationResult {
                configuration_id,
                configured: false,
                tested_at,
                failure_reason: Some(reason.to_owned()),
            },
            change: configuration_change(
                configuration_id,
                "storage.configuration_failed.v1",
                payload,
            ),
        },
    )
}

} // verus!
