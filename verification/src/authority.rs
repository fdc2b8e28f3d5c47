//! The authority of a protected policy: who qualified what, and for which machine.

use vstd::prelude::*;
use vstd::string::*;
use vstd::utf8::encode_utf8;
use crate::acer_hwmon::{AcerHwmonDevice, DeviceModel};
use crate::authority_calls::AuthorityCall;
use crate::compatibility::{
    admission_error, admit_compatibility, declaration_error, validate_declaration,
    CompatibilityAdmissionError, CompatibilityDeclarationError, CompatibilityDeclarationV1,
    CompatibilityObservation, DeclarationModel,
};
use crate::config::{
    config_error, config_of, ConfigModel, ConfigValidationError, FansConfig, ProfilesConfig,
    ValidatedConfig,
};
use crate::envelope::{
    check_protected_envelope, is_covered, is_first_envelope_error, EnvelopeValidationError,
};
use crate::evidence::{
    EnvelopeModel, EvidenceRecordStatus, EvidenceTimestamp, QualificationEnvelopeIdentityV1,
    RunOutcomeStatus,
};
use crate::hash::{fingerprint, sha256_hex};
use crate::platform::PlatformError;
use crate::tachometer::Fan;
use crate::tachometer_policy::{
    calibration_defect, FanTachometerModel, QualifiedTachometerCalibrations,
    TachometerCalibrationConfig, TachometerCalibrationError,
};
use crate::trace::{ran, Trace};
use crate::text::{
    begins_with, identifier, is_identifier, is_lower_hex, join, join3, lower_hex, same_text,
    starts_with_text,
};

verus! {

broadcast use vstd::string::group_string_axioms;

pub const QUALIFICATION_RECORD_PATH: &'static str =
    "/var/lib/pt31553-fan-control/qualification.json";

pub const SUPERVISED_ENDURANCE_EVIDENCE_PATH: &'static str =
    "/var/lib/pt31553-fan-control/evidence/supervised-endurance.json";

/// The supervised endurance run that a qualification rests on.
#[derive(Debug)]
pub struct SupervisedEnduranceAuthorizationV1 {
    pub schema_version: u32,
    pub evidence_sha256: String,
    pub evidence_path: String,
    pub evidence_schema_version: u32,
    pub stage: String,
    pub record_status: EvidenceRecordStatus,
    pub outcome: RunOutcomeStatus,
    pub final_firmware_auto_confirmed: bool,
    pub workload_stopped: bool,
    pub service_stopped: bool,
    pub completed_at: EvidenceTimestamp,
}

/// A qualification.
#[derive(Debug)]
pub struct QualificationRecordV2 {
    pub schema_version: u32,
    pub qualification_id: String,
    pub policy_version: String,
    pub protected_policy_sha256: String,
    pub compatibility: CompatibilityDeclarationV1,
    pub supervised_endurance: SupervisedEnduranceAuthorizationV1,
}

/// A protected policy.
#[derive(Debug)]
pub struct ProtectedPolicyManifestV2 {
    pub schema_version: u32,
    pub qualification_id: String,
    pub policy_version: String,
    pub compatibility: CompatibilityDeclarationV1,
    pub calibration: TachometerCalibrationConfig,
    pub fans: FansConfig,
    pub profiles: ProfilesConfig,
}

/// Why a policy has no authority.
#[derive(Debug)]
pub enum PolicyAuthorityError {
    FirmwareAutoUnconfirmed,
    QualificationRecordRead(PlatformError),
    ProtectedPolicyParse { detail: String },
    QualificationRecordParse { detail: String },
    InvalidIdentity { artifact: &'static str, field: &'static str },
    InvalidCompatibility { artifact: &'static str, field: &'static str },
    InvalidProtectedPolicy(ConfigValidationError),
    InvalidTachometerCalibration(TachometerCalibrationError),
    CompatibilityAdmission(CompatibilityAdmissionError),
    Mismatch { field: &'static str },
}

impl PolicyAuthorityError {
    /// The text of the message.
    pub open spec fn text(self) -> Seq<char> {
        match self {
            PolicyAuthorityError::FirmwareAutoUnconfirmed =>
                "Firmware Auto was not confirmed before policy admission"@,
            PolicyAuthorityError::QualificationRecordRead(error) =>
                "qualification record provenance: "@ + error.detail@,
            PolicyAuthorityError::ProtectedPolicyParse { detail } =>
                "protected policy: "@ + detail@,
            PolicyAuthorityError::QualificationRecordParse { detail } => "qualification record: "@
                + detail@,
            PolicyAuthorityError::InvalidIdentity { artifact, field } => "invalid "@ + artifact@
                + " identity at "@ + field@,
            PolicyAuthorityError::InvalidCompatibility { artifact, field } => "invalid "@
                + artifact@ + " compatibility at "@ + field@,
            PolicyAuthorityError::InvalidProtectedPolicy(error) => "invalid protected policy: "@
                + error.text(),
            PolicyAuthorityError::InvalidTachometerCalibration(error) =>
                "invalid tachometer calibration: "@ + error.text(),
            PolicyAuthorityError::CompatibilityAdmission(error) => "current compatibility: "@
                + error.text(),
            PolicyAuthorityError::Mismatch { field } => "authority mismatch at "@ + field@,
        }
    }

    /// The message shown to an operator.
    pub fn message(&self) -> (text: String)
        ensures
            text@ == self.text(),
    {
        match self {
            PolicyAuthorityError::FirmwareAutoUnconfirmed =>
                "Firmware Auto was not confirmed before policy admission".to_owned(),
            PolicyAuthorityError::QualificationRecordRead(error) => join(
                "qualification record provenance: ",
                error.message(),
            ),
            PolicyAuthorityError::ProtectedPolicyParse { detail } => join(
                "protected policy: ",
                detail.as_str(),
            ),
            PolicyAuthorityError::QualificationRecordParse { detail } => join(
                "qualification record: ",
                detail.as_str(),
            ),
            PolicyAuthorityError::InvalidIdentity { artifact, field } => {
                let mut text = join3("invalid ", artifact, " identity at ");
                text.append(field);
                text
            },
            PolicyAuthorityError::InvalidCompatibility { artifact, field } => {
                let mut text = join3("invalid ", artifact, " compatibility at ");
                text.append(field);
                text
            },
            PolicyAuthorityError::InvalidProtectedPolicy(error) => join(
                "invalid protected policy: ",
                error.message().as_str(),
            ),
            PolicyAuthorityError::InvalidTachometerCalibration(error) => join(
                "invalid tachometer calibration: ",
                error.message().as_str(),
            ),
            PolicyAuthorityError::CompatibilityAdmission(error) => join(
                "current compatibility: ",
                error.message().as_str(),
            ),
            PolicyAuthorityError::Mismatch { field } => join("authority mismatch at ", field),
        }
    }
}

/// A policy was not admitted, and whether Firmware Auto was restored after that.
#[derive(Debug)]
pub enum PolicyAuthorityAdmissionError {
    Rejected(PolicyAuthorityError),
    RestorationFailed { reason: PolicyAuthorityError, restoration: String },
}

impl PolicyAuthorityAdmissionError {
    /// Why the policy was not admitted.
    pub open spec fn cause(self) -> PolicyAuthorityError {
        match self {
            PolicyAuthorityAdmissionError::Rejected(reason) => reason,
            PolicyAuthorityAdmissionError::RestorationFailed { reason, restoration } => reason,
        }
    }

    pub fn reason(&self) -> (reason: &PolicyAuthorityError)
        ensures
            *reason == self.cause(),
    {
        match self {
            PolicyAuthorityAdmissionError::Rejected(reason) => reason,
            PolicyAuthorityAdmissionError::RestorationFailed { reason, .. } => reason,
        }
    }

    /// The message shown to an operator.
    pub fn message(&self) -> (text: String)
        ensures
            text@ == match *self {
                PolicyAuthorityAdmissionError::Rejected(reason) => "authority rejected: "@
                    + reason.text(),
                PolicyAuthorityAdmissionError::RestorationFailed { reason, restoration } =>
                    "authority rejected ("@ + reason.text()
                    + "); Firmware Auto restoration failed: "@ + restoration@,
            },
    {
        match self {
            PolicyAuthorityAdmissionError::Rejected(reason) => join(
                "authority rejected: ",
                reason.message().as_str(),
            ),
            PolicyAuthorityAdmissionError::RestorationFailed { reason, restoration } => {
                let mut text = join3(
                    "authority rejected (",
                    reason.message().as_str(),
                    "); Firmware Auto restoration failed: ",
                );
                text.append(restoration.as_str());
                text
            },
        }
    }
}

/// What is wrong with a declaration in an artifact.
pub open spec fn compatibility_error(
    artifact: &'static str,
    declaration: DeclarationModel,
) -> Option<
    PolicyAuthorityError,
> {
    match declaration_error(declaration) {
        Some(CompatibilityDeclarationError::Unsafe { field, reason }) => Some(
            PolicyAuthorityError::InvalidCompatibility { artifact, field },
        ),
        None => None,
    }
}

/// What is wrong with a policy's own identity.
pub open spec fn manifest_error(manifest: ProtectedPolicyManifestV2) -> Option<
    PolicyAuthorityError,
> {
    if manifest.schema_version != 2 {
        Some(
            PolicyAuthorityError::InvalidIdentity {
                artifact: "protected policy",
                field: "schema_version",
            },
        )
    } else if !identifier(manifest.qualification_id@) {
        Some(
            PolicyAuthorityError::InvalidIdentity {
                artifact: "protected policy",
                field: "qualification_id",
            },
        )
    } else if !identifier(manifest.policy_version@) {
        Some(
            PolicyAuthorityError::InvalidIdentity {
                artifact: "protected policy",
                field: "policy_version",
            },
        )
    } else {
        compatibility_error("protected policy", manifest.compatibility@)
    }
}

/// Whether an endurance run authorizes unattended control.
pub open spec fn endurance_authorizes(endurance: SupervisedEnduranceAuthorizationV1) -> bool {
    &&& endurance.schema_version == 1
    &&& endurance.evidence_schema_version == 2
    &&& endurance.stage@ == "supervised-endurance"@
    &&& endurance.outcome == RunOutcomeStatus::Passed
    &&& endurance.final_firmware_auto_confirmed
    &&& endurance.workload_stopped
    &&& endurance.service_stopped
    &&& lower_hex(endurance.evidence_sha256@, 64)
    &&& begins_with(endurance.evidence_path@, "/"@)
}

/// What is wrong with a qualification's own identity.
pub open spec fn record_error(record: QualificationRecordV2) -> Option<PolicyAuthorityError> {
    if record.schema_version != 2 {
        Some(
            PolicyAuthorityError::InvalidIdentity {
                artifact: "qualification record",
                field: "schema_version",
            },
        )
    } else if !identifier(record.qualification_id@) {
        Some(
            PolicyAuthorityError::InvalidIdentity {
                artifact: "qualification record",
                field: "qualification_id",
            },
        )
    } else if !identifier(record.policy_version@) {
        Some(
            PolicyAuthorityError::InvalidIdentity {
                artifact: "qualification record",
                field: "policy_version",
            },
        )
    } else if !lower_hex(record.protected_policy_sha256@, 64) {
        Some(
            PolicyAuthorityError::InvalidIdentity {
                artifact: "qualification record",
                field: "protected_policy_sha256",
            },
        )
    } else if !endurance_authorizes(record.supervised_endurance) {
        Some(
            PolicyAuthorityError::InvalidIdentity {
                artifact: "qualification record",
                field: "supervised_endurance",
            },
        )
    } else {
        compatibility_error("qualification record", record.compatibility@)
    }
}

/// The fingerprint of a policy's text.
pub open spec fn policy_fingerprint(source: Seq<char>) -> Seq<char> {
    fingerprint(encode_utf8(source))
}

/// What keeps a policy with a given fingerprint and a qualification from belonging together and to
/// this machine.
pub open spec fn binding_error(
    fingerprint: Seq<char>,
    manifest: ProtectedPolicyManifestV2,
    record: QualificationRecordV2,
    observations: Seq<CompatibilityObservation>,
) -> Option<PolicyAuthorityError> {
    if manifest.qualification_id@ != record.qualification_id@ {
        Some(PolicyAuthorityError::Mismatch { field: "qualification_id" })
    } else if manifest.policy_version@ != record.policy_version@ {
        Some(PolicyAuthorityError::Mismatch { field: "policy_version" })
    } else if manifest.compatibility@ != record.compatibility@ {
        Some(PolicyAuthorityError::Mismatch { field: "compatibility" })
    } else {
        match admission_error(manifest.compatibility@, observations) {
            Some(error) => Some(PolicyAuthorityError::CompatibilityAdmission(error)),
            None => if fingerprint != record.protected_policy_sha256@ {
                Some(PolicyAuthorityError::Mismatch { field: "protected_policy_sha256" })
            } else {
                None
            },
        }
    }
}

/// What is wrong with the configuration and the calibrations of a policy.
pub open spec fn contents_error(manifest: ProtectedPolicyManifestV2) -> Option<
    PolicyAuthorityError,
> {
    let config = config_of(manifest.fans, manifest.profiles);
    match config_error(config) {
        Some(error) => Some(PolicyAuthorityError::InvalidProtectedPolicy(error)),
        None => match calibration_defect(
            manifest.calibration.cpu@,
            manifest.calibration.gpu@,
            config,
        ) {
            Some(error) => Some(PolicyAuthorityError::InvalidTachometerCalibration(error)),
            None => None,
        },
    }
}

/// What keeps a policy with a given fingerprint from having authority. Either artifact may have
/// failed to parse.
pub open spec fn authority_error(
    fingerprint: Seq<char>,
    manifest: Result<ProtectedPolicyManifestV2, String>,
    record: Result<QualificationRecordV2, String>,
    observations: Seq<CompatibilityObservation>,
) -> Option<PolicyAuthorityError> {
    match manifest {
        Err(detail) => Some(PolicyAuthorityError::ProtectedPolicyParse { detail }),
        Ok(manifest) => match manifest_error(manifest) {
            Some(error) => Some(error),
            None => match record {
                Err(detail) => Some(PolicyAuthorityError::QualificationRecordParse { detail }),
                Ok(record) => match record_error(record) {
                    Some(error) => Some(error),
                    None => match binding_error(fingerprint, manifest, record, observations) {
                        Some(error) => Some(error),
                        None => contents_error(manifest),
                    },
                },
            },
        },
    }
}

fn validate_compatibility(
    artifact: &'static str,
    declaration: &CompatibilityDeclarationV1,
) -> (result: Result<(), PolicyAuthorityError>)
    ensures
        match compatibility_error(artifact, declaration@) {
            Some(error) => result matches Err(e) && e == error,
            None => result is Ok,
        },
{
    match validate_declaration(declaration) {
        Ok(()) => Ok(()),
        Err(CompatibilityDeclarationError::Unsafe { field, .. }) => Err(
            PolicyAuthorityError::InvalidCompatibility { artifact, field },
        ),
    }
}

/// Decides whether a policy's own identity is in order.
pub fn validate_manifest_identity(manifest: &ProtectedPolicyManifestV2) -> (result: Result<
    (),
    PolicyAuthorityError,
>)
    ensures
        match manifest_error(*manifest) {
            Some(error) => result matches Err(e) && e == error,
            None => result is Ok,
        },
{
    if manifest.schema_version != 2 {
        return Err(
            PolicyAuthorityError::InvalidIdentity {
                artifact: "protected policy",
                field: "schema_version",
            },
        );
    }
    if !is_identifier(manifest.qualification_id.as_str()) {
        return Err(
            PolicyAuthorityError::InvalidIdentity {
                artifact: "protected policy",
                field: "qualification_id",
            },
        );
    }
    if !is_identifier(manifest.policy_version.as_str()) {
        return Err(
            PolicyAuthorityError::InvalidIdentity {
                artifact: "protected policy",
                field: "policy_version",
            },
        );
    }
    validate_compatibility("protected policy", &manifest.compatibility)
}

fn authorizes(endurance: &SupervisedEnduranceAuthorizationV1) -> (yes: bool)
    ensures
        yes == endurance_authorizes(*endurance),
{
    endurance.schema_version == 1 && endurance.evidence_schema_version == 2 && same_text(
        endurance.stage.as_str(),
        "supervised-endurance",
    ) && endurance.outcome == RunOutcomeStatus::Passed && endurance.final_firmware_auto_confirmed
        && endurance.workload_stopped && endurance.service_stopped && is_lower_hex(
        endurance.evidence_sha256.as_str(),
        64,
    ) && starts_with_text(endurance.evidence_path.as_str(), "/")
}

/// Decides whether a qualification's own identity is in order.
pub fn validate_record_identity(record: &QualificationRecordV2) -> (result: Result<
    (),
    PolicyAuthorityError,
>)
    ensures
        match record_error(*record) {
            Some(error) => result matches Err(e) && e == error,
            None => result is Ok,
        },
{
    if record.schema_version != 2 {
        return Err(
            PolicyAuthorityError::InvalidIdentity {
                artifact: "qualification record",
                field: "schema_version",
            },
        );
    }
    if !is_identifier(record.qualification_id.as_str()) {
        return Err(
            PolicyAuthorityError::InvalidIdentity {
                artifact: "qualification record",
                field: "qualification_id",
            },
        );
    }
    if !is_identifier(record.policy_version.as_str()) {
        return Err(
            PolicyAuthorityError::InvalidIdentity {
                artifact: "qualification record",
                field: "policy_version",
            },
        );
    }
    if !is_lower_hex(record.protected_policy_sha256.as_str(), 64) {
        return Err(
            PolicyAuthorityError::InvalidIdentity {
                artifact: "qualification record",
                field: "protected_policy_sha256",
            },
        );
    }
    if !authorizes(&record.supervised_endurance) {
        return Err(
            PolicyAuthorityError::InvalidIdentity {
                artifact: "qualification record",
                field: "supervised_endurance",
            },
        );
    }
    validate_compatibility("qualification record", &record.compatibility)
}

/// Decides whether a policy with a given fingerprint and a qualification belong together and to
/// this machine.
pub fn validate_binding(
    fingerprint: &str,
    manifest: &ProtectedPolicyManifestV2,
    record: &QualificationRecordV2,
    observations: &[CompatibilityObservation],
) -> (result: Result<(), PolicyAuthorityError>)
    ensures
        match binding_error(fingerprint@, *manifest, *record, observations@) {
            Some(error) => result matches Err(e) && e == error,
            None => result is Ok,
        },
{
    if !same_text(manifest.qualification_id.as_str(), record.qualification_id.as_str()) {
        return Err(PolicyAuthorityError::Mismatch { field: "qualification_id" });
    }
    if !same_text(manifest.policy_version.as_str(), record.policy_version.as_str()) {
        return Err(PolicyAuthorityError::Mismatch { field: "policy_version" });
    }
    if !manifest.compatibility.same_as(&record.compatibility) {
        return Err(PolicyAuthorityError::Mismatch { field: "compatibility" });
    }
    match admit_compatibility(&manifest.compatibility, observations) {
        Ok(_) => {},
        Err(error) => {
            return Err(PolicyAuthorityError::CompatibilityAdmission(error));
        },
    }
    if !same_text(fingerprint, record.protected_policy_sha256.as_str()) {
        return Err(PolicyAuthorityError::Mismatch { field: "protected_policy_sha256" });
    }
    Ok(())
}

/// A policy that has authority.
#[derive(Debug)]
pub struct ValidatedPolicyAuthority {
    pub qualification_id: String,
    pub policy_version: String,
    pub protected_policy_sha256: String,
    pub compatibility: CompatibilityDeclarationV1,
    pub calibration: QualifiedTachometerCalibrations,
    pub protected: ValidatedConfig,
    pub endurance_evidence_path: String,
    pub endurance_evidence_sha256: String,
}

/// Whether an authority is that of a policy and its qualification.
pub open spec fn is_authority_of(
    authority: ValidatedPolicyAuthority,
    fingerprint: Seq<char>,
    manifest: ProtectedPolicyManifestV2,
    record: QualificationRecordV2,
) -> bool {
    &&& authority.qualification_id@ == manifest.qualification_id@
    &&& authority.policy_version@ == manifest.policy_version@
    &&& authority.protected_policy_sha256@ == fingerprint
    &&& authority.compatibility@ == manifest.compatibility@
    &&& authority.calibration.of(Fan::Cpu) == manifest.calibration.cpu@
    &&& authority.calibration.of(Fan::Gpu) == manifest.calibration.gpu@
    &&& authority.protected@ == config_of(manifest.fans, manifest.profiles)
    &&& authority.endurance_evidence_path@ == record.supervised_endurance.evidence_path@
    &&& authority.endurance_evidence_sha256@ == record.supervised_endurance.evidence_sha256@
}

/// Validates a protected policy with a given fingerprint, and a qualification record.
pub fn validate_fingerprinted_authority(
    fingerprint: String,
    manifest: Result<ProtectedPolicyManifestV2, String>,
    record: Result<QualificationRecordV2, String>,
    observations: &[CompatibilityObservation],
) -> (result: Result<ValidatedPolicyAuthority, PolicyAuthorityError>)
    ensures
        match authority_error(fingerprint@, manifest, record, observations@) {
            Some(error) => result matches Err(e) && e == error,
            None => result matches Ok(authority) && is_authority_of(
                authority,
                fingerprint@,
                manifest->Ok_0,
                record->Ok_0,
            ),
        },
{
    let manifest = match manifest {
        Ok(manifest) => manifest,
        Err(detail) => {
            return Err(PolicyAuthorityError::ProtectedPolicyParse { detail });
        },
    };
    match validate_manifest_identity(&manifest) {
        Ok(()) => {},
        Err(error) => {
            return Err(error);
        },
    }
    let record = match record {
        Ok(record) => record,
        Err(detail) => {
            return Err(PolicyAuthorityError::QualificationRecordParse { detail });
        },
    };
    match validate_record_identity(&record) {
        Ok(()) => {},
        Err(error) => {
            return Err(error);
        },
    }
    match validate_binding(fingerprint.as_str(), &manifest, &record, observations) {
        Ok(()) => {},
        Err(error) => {
            return Err(error);
        },
    }
    let protected = match ValidatedConfig::from_parts(manifest.fans, manifest.profiles) {
        Ok(protected) => protected,
        Err(error) => {
            return Err(PolicyAuthorityError::InvalidProtectedPolicy(error));
        },
    };
    let calibration = match manifest.calibration.qualify(&protected) {
        Ok(calibration) => calibration,
        Err(error) => {
            return Err(PolicyAuthorityError::InvalidTachometerCalibration(error));
        },
    };
    Ok(
        ValidatedPolicyAuthority {
            qualification_id: manifest.qualification_id,
            policy_version: manifest.policy_version,
            protected_policy_sha256: fingerprint,
            compatibility: manifest.compatibility,
            calibration,
            protected,
            endurance_evidence_path: record.supervised_endurance.evidence_path,
            endurance_evidence_sha256: record.supervised_endurance.evidence_sha256,
        },
    )
}

/// Validates a protected policy and a qualification record.
pub fn validate_policy_authority(
    source: &str,
    manifest: Result<ProtectedPolicyManifestV2, String>,
    record: Result<QualificationRecordV2, String>,
    observations: &[CompatibilityObservation],
) -> (result: Result<ValidatedPolicyAuthority, PolicyAuthorityError>)
    ensures
        match authority_error(policy_fingerprint(source@), manifest, record, observations@) {
            Some(error) => result matches Err(e) && e == error,
            None => result matches Ok(authority) && is_authority_of(
                authority,
                policy_fingerprint(source@),
                manifest->Ok_0,
                record->Ok_0,
            ),
        },
{
    validate_fingerprinted_authority(sha256_hex(source.as_bytes()), manifest, record, observations)
}

/// What requalification needs of a policy.
#[derive(Debug)]
pub struct RequalificationPolicySnapshot {
    pub qualification_id: String,
    pub policy_version: String,
    pub compatibility: CompatibilityDeclarationV1,
    pub protected_policy_sha256: String,
    pub protected: ValidatedConfig,
}

/// Takes what requalification needs of a policy, whatever its qualification says.
pub fn requalification_policy_snapshot(
    source: &str,
    manifest: Result<ProtectedPolicyManifestV2, String>,
) -> (result: Result<RequalificationPolicySnapshot, PolicyAuthorityError>)
    ensures
        match manifest {
            Err(detail) => result matches Err(PolicyAuthorityError::ProtectedPolicyParse {
                detail: d,
            }) && d == detail,
            Ok(manifest) => match manifest_error(manifest) {
                Some(error) => result matches Err(e) && e == error,
                None => match config_error(config_of(manifest.fans, manifest.profiles)) {
                    Some(error) => result matches Err(
                        PolicyAuthorityError::InvalidProtectedPolicy(e),
                    ) && e == error,
                    None => result matches Ok(snapshot) && snapshot.qualification_id@
                        == manifest.qualification_id@ && snapshot.policy_version@
                        == manifest.policy_version@ && snapshot.compatibility@
                        == manifest.compatibility@ && snapshot.protected_policy_sha256@
                        == policy_fingerprint(source@) && snapshot.protected@ == config_of(
                        manifest.fans,
                        manifest.profiles,
                    ),
                },
            },
        },
{
    let manifest = match manifest {
        Ok(manifest) => manifest,
        Err(detail) => {
            return Err(PolicyAuthorityError::ProtectedPolicyParse { detail });
        },
    };
    match validate_manifest_identity(&manifest) {
        Ok(()) => {},
        Err(error) => {
            return Err(error);
        },
    }
    let protected = match ValidatedConfig::from_parts(manifest.fans, manifest.profiles) {
        Ok(protected) => protected,
        Err(error) => {
            return Err(PolicyAuthorityError::InvalidProtectedPolicy(error));
        },
    };
    Ok(
        RequalificationPolicySnapshot {
            qualification_id: manifest.qualification_id,
            policy_version: manifest.policy_version,
            compatibility: manifest.compatibility,
            protected_policy_sha256: sha256_hex(source.as_bytes()),
            protected,
        },
    )
}

/// A policy that was admitted for one controller ownership.
#[derive(Debug, PartialEq)]
pub struct AdmittedPolicyAuthority {
    ownership_id: u64,
    qualification_id: String,
    policy_version: String,
    protected_policy_sha256: String,
    compatibility: CompatibilityDeclarationV1,
    calibration: QualifiedTachometerCalibrations,
    protected: ValidatedConfig,
}

/// The contents of an admitted policy.
pub struct AuthorityModel {
    pub ownership_id: u64,
    pub identity: EnvelopeModel,
    pub cpu_calibration: FanTachometerModel,
    pub gpu_calibration: FanTachometerModel,
    pub protected: ConfigModel,
}

impl View for AdmittedPolicyAuthority {
    type V = AuthorityModel;

    closed spec fn view(&self) -> AuthorityModel {
        AuthorityModel {
            ownership_id: self.ownership_id,
            identity: EnvelopeModel {
                schema_version: 1,
                qualification_id: self.qualification_id@,
                policy_version: self.policy_version@,
                protected_policy_sha256: self.protected_policy_sha256@,
                compatibility: self.compatibility@,
            },
            cpu_calibration: self.calibration.of(Fan::Cpu),
            gpu_calibration: self.calibration.of(Fan::Gpu),
            protected: self.protected@,
        }
    }
}

impl Clone for AdmittedPolicyAuthority {
    fn clone(&self) -> (copy: AdmittedPolicyAuthority)
        ensures
            copy@ == self@,
    {
        AdmittedPolicyAuthority {
            ownership_id: self.ownership_id,
            qualification_id: self.qualification_id.clone(),
            policy_version: self.policy_version.clone(),
            protected_policy_sha256: self.protected_policy_sha256.clone(),
            compatibility: self.compatibility.clone(),
            calibration: self.calibration.clone(),
            protected: self.protected.clone(),
        }
    }
}

/// The identity under which an authority's evidence is recorded.
pub open spec fn authority_identity(authority: ValidatedPolicyAuthority) -> EnvelopeModel {
    EnvelopeModel {
        schema_version: 1,
        qualification_id: authority.qualification_id@,
        policy_version: authority.policy_version@,
        protected_policy_sha256: authority.protected_policy_sha256@,
        compatibility: authority.compatibility@,
    }
}

impl ValidatedPolicyAuthority {
    /// The identity that the endurance evidence must carry.
    pub fn expected_envelope(&self) -> (envelope: QualificationEnvelopeIdentityV1)
        ensures
            envelope@ == authority_identity(*self),
    {
        QualificationEnvelopeIdentityV1 {
            qualification_record_schema_version: 1,
            qualification_id: self.qualification_id.clone(),
            policy_version: self.policy_version.clone(),
            protected_policy_sha256: self.protected_policy_sha256.clone(),
            compatibility: self.compatibility.clone(),
        }
    }

    /// Binds the authority to one controller ownership.
    pub fn bind_to_ownership(self, ownership_id: u64) -> (admitted: AdmittedPolicyAuthority)
        ensures
            admitted@ == (AuthorityModel {
                ownership_id,
                identity: authority_identity(self),
                cpu_calibration: self.calibration.of(Fan::Cpu),
                gpu_calibration: self.calibration.of(Fan::Gpu),
                protected: self.protected@,
            }),
    {
        AdmittedPolicyAuthority {
            ownership_id,
            qualification_id: self.qualification_id,
            policy_version: self.policy_version,
            protected_policy_sha256: self.protected_policy_sha256,
            compatibility: self.compatibility,
            calibration: self.calibration,
            protected: self.protected,
        }
    }
}

impl AdmittedPolicyAuthority {
    pub fn belongs_to_ownership(&self, ownership_id: u64) -> (yes: bool)
        ensures
            yes == (self@.ownership_id == ownership_id),
    {
        self.ownership_id == ownership_id
    }

    pub fn qualification_id(&self) -> (text: &str)
        ensures
            text@ == self@.identity.qualification_id,
    {
        self.qualification_id.as_str()
    }

    pub fn policy_version(&self) -> (text: &str)
        ensures
            text@ == self@.identity.policy_version,
    {
        self.policy_version.as_str()
    }

    pub fn protected_policy_sha256(&self) -> (text: &str)
        ensures
            text@ == self@.identity.protected_policy_sha256,
    {
        self.protected_policy_sha256.as_str()
    }

    /// Returns the exact envelope identity retained from this admitted authority.
    pub fn evidence_identity(&self) -> (identity: QualificationEnvelopeIdentityV1)
        ensures
            identity@ == self@.identity,
    {
        QualificationEnvelopeIdentityV1 {
            qualification_record_schema_version: 1,
            qualification_id: self.qualification_id.clone(),
            policy_version: self.policy_version.clone(),
            protected_policy_sha256: self.protected_policy_sha256.clone(),
            compatibility: self.compatibility.clone(),
        }
    }

    /// Decides whether a candidate stays within the protected envelope.
    pub fn validate_candidate(&self, candidate: &ValidatedConfig) -> (result: Result<
        (),
        EnvelopeValidationError,
    >)
        ensures
            match result {
                Ok(()) => is_covered(candidate@, self@.protected),
                Err(error) => !is_covered(candidate@, self@.protected) && is_first_envelope_error(
                    error,
                    candidate@,
                    self@.protected,
                ),
            },
    {
        check_protected_envelope(candidate, &self.protected)
    }

    pub(crate) fn tachometer_calibrations(&self) -> (calibrations: QualifiedTachometerCalibrations)
        ensures
            calibrations.of(Fan::Cpu) == self@.cpu_calibration,
            calibrations.of(Fan::Gpu) == self@.gpu_calibration,
    {
        self.calibration.clone()
    }
}

/// How a policy's admission reaches the machine and its protected files.
pub trait PolicyAuthorityAccess {
    /// What was asked so far, with what came back.
    spec fn history(&self) -> Seq<AuthorityCall>;

    fn ownership_id(&mut self) -> (answer: u64)
        ensures
            final(self).history() == old(self).history().push(
                AuthorityCall::OwnershipId { answer },
            ),
    ;

    /// Whether both fans are confirmed in Firmware Auto right now.
    fn refresh_firmware_auto_confirmation(&mut self, device: &AcerHwmonDevice) -> (answer: bool)
        ensures
            final(self).history() == old(self).history().push(
                AuthorityCall::RefreshFirmwareAutoConfirmation { device: device@, answer },
            ),
    ;

    /// Reads and parses the root-owned qualification record; a record that does not parse carries
    /// the message of the failed parse.
    fn read_root_owned_qualification_record(
        &mut self,
        path: &str,
    ) -> (answer: Result<Result<QualificationRecordV2, String>, PlatformError>)
        ensures
            final(self).history() == old(self).history().push(
                AuthorityCall::ReadQualificationRecord { path: path@, answer },
            ),
    ;

    /// Verifies the root-owned endurance evidence against its digest and its envelope.
    fn verify_root_owned_supervised_endurance_evidence(
        &mut self,
        path: &str,
        sha256: &str,
        envelope: &QualificationEnvelopeIdentityV1,
    ) -> (answer: Result<(), PlatformError>)
        ensures
            final(self).history() == old(self).history().push(
                AuthorityCall::VerifyEnduranceEvidence {
                    path: path@,
                    sha256: sha256@,
                    envelope: envelope@,
                    answer,
                },
            ),
    ;

    /// Restores Firmware Auto, or tells why it could not.
    fn restore_firmware_auto(&mut self, device: &AcerHwmonDevice) -> (answer: Result<(), String>)
        ensures
            final(self).history() == old(self).history().push(
                AuthorityCall::RestoreFirmwareAuto { device: device@, answer },
            ),
    ;
}

/// The error of a policy that was not admitted, given how the restoration ended.
pub fn reject_authority(reason: PolicyAuthorityError, restoration: Result<(), String>) -> (error:
    PolicyAuthorityAdmissionError)
    ensures
        error.cause() == reason,
        match restoration {
            Ok(()) => error is Rejected,
            Err(detail) => error == (PolicyAuthorityAdmissionError::RestorationFailed {
                reason,
                restoration: detail,
            }),
        },
{
    match restoration {
        Ok(()) => PolicyAuthorityAdmissionError::Rejected(reason),
        Err(restoration) => PolicyAuthorityAdmissionError::RestorationFailed {
            reason,
            restoration,
        },
    }
}

/// Whether an admitted policy is that of a manifest and a record for an ownership.
pub open spec fn is_admitted(
    admitted: AuthorityModel,
    ownership_id: u64,
    fingerprint: Seq<char>,
    manifest: ProtectedPolicyManifestV2,
) -> bool {
    admitted == (AuthorityModel {
        ownership_id,
        identity: EnvelopeModel {
            schema_version: 1,
            qualification_id: manifest.qualification_id@,
            policy_version: manifest.policy_version@,
            protected_policy_sha256: fingerprint,
            compatibility: manifest.compatibility@,
        },
        cpu_calibration: manifest.calibration.cpu@,
        gpu_calibration: manifest.calibration.gpu@,
        protected: config_of(manifest.fans, manifest.profiles),
    })
}

/// Whether the calls of an admission led to its result. Firmware Auto is confirmed first, then the
/// record is read, and where the policy and the record stand, the record's endurance evidence is
/// verified against the policy's identity. The first that fails ends it.
pub open spec fn is_admission(
    result: Result<AdmittedPolicyAuthority, PolicyAuthorityError>,
    calls: Seq<AuthorityCall>,
    device: DeviceModel,
    fingerprint: Seq<char>,
    manifest: Result<ProtectedPolicyManifestV2, String>,
    record_path: Seq<char>,
    observations: Seq<CompatibilityObservation>,
) -> bool {
    &&& calls.len() > 0
    &&& calls[0] matches AuthorityCall::RefreshFirmwareAutoConfirmation {
        device: confirmed_on,
        answer: confirmed,
    }
    &&& confirmed_on == device
    &&& if !confirmed {
        result matches Err(PolicyAuthorityError::FirmwareAutoUnconfirmed) && calls.len() == 1
    } else {
        &&& calls.len() > 1
        &&& calls[1] matches AuthorityCall::ReadQualificationRecord { path, answer: read }
        &&& path == record_path
        &&& match read {
            Err(error) => (result matches Err(PolicyAuthorityError::QualificationRecordRead(e)) && e
                == error) && calls.len() == 2,
            Ok(record) => {
                &&& calls.len() > 2
                &&& calls[2] matches AuthorityCall::OwnershipId { answer: ownership_id }
                &&& match authority_error(fingerprint, manifest, record, observations) {
                    Some(error) => (result matches Err(e) && e == error) && calls.len() == 3,
                    None => {
                        let authorization = record->Ok_0.supervised_endurance;
                        &&& calls.len() == 4
                        &&& calls[3] matches AuthorityCall::VerifyEnduranceEvidence {
                            path: evidence_path,
                            sha256,
                            envelope,
                            answer: verified,
                        }
                        &&& evidence_path == authorization.evidence_path@
                        &&& sha256 == authorization.evidence_sha256@
                        &&& envelope == (EnvelopeModel {
                            schema_version: 1,
                            qualification_id: manifest->Ok_0.qualification_id@,
                            policy_version: manifest->Ok_0.policy_version@,
                            protected_policy_sha256: fingerprint,
                            compatibility: manifest->Ok_0.compatibility@,
                        })
                        &&& match verified {
                            Err(error) => result matches Err(
                                PolicyAuthorityError::QualificationRecordRead(e),
                            ) && e == error,
                            Ok(()) => result matches Ok(admitted) && is_admitted(
                                admitted@,
                                ownership_id,
                                fingerprint,
                                manifest->Ok_0,
                            ),
                        }
                    },
                }
            },
        }
    }
}

fn try_admit<P>(
    ownership: &mut P,
    trace: &mut Trace<'_, P, AuthorityCall>,
    device: &AcerHwmonDevice,
    source: &str,
    manifest: Result<ProtectedPolicyManifestV2, String>,
    record_path: &str,
    observations: &[CompatibilityObservation],
) -> (result: Result<AdmittedPolicyAuthority, PolicyAuthorityError>) where
    P: PolicyAuthorityAccess + ?Sized,

    requires
        old(trace).follows(&*old(ownership)),
        old(trace).calls() == Seq::<AuthorityCall>::empty(),
    ensures
        final(trace).follows(&*final(ownership)),
        final(trace).start() == old(trace).start(),
        is_admission(
            result,
            final(trace).calls(),
            device@,
            policy_fingerprint(source@),
            manifest,
            record_path@,
            observations@,
        ),
{
    if !trace.refresh_firmware_auto_confirmation(ownership, device) {
        return Err(PolicyAuthorityError::FirmwareAutoUnconfirmed);
    }
    let record = match trace.read_root_owned_qualification_record(ownership, record_path) {
        Ok(record) => record,
        Err(error) => {
            return Err(PolicyAuthorityError::QualificationRecordRead(error));
        },
    };
    let ownership_id: u64 = trace.ownership_id(ownership);
    let authority = match validate_policy_authority(source, manifest, record, observations) {
        Ok(authority) => authority,
        Err(error) => {
            return Err(error);
        },
    };
    let expected = authority.expected_envelope();
    match trace.verify_root_owned_supervised_endurance_evidence(
        ownership,
        authority.endurance_evidence_path.as_str(),
        authority.endurance_evidence_sha256.as_str(),
        &expected,
    ) {
        Ok(()) => Ok(authority.bind_to_ownership(ownership_id)),
        Err(error) => Err(PolicyAuthorityError::QualificationRecordRead(error)),
    }
}

/// Whether the calls of an admission led to its outcome. One that is refused ends with exactly one
/// restoration, which shapes the error.
pub open spec fn is_admission_outcome(
    result: Result<AdmittedPolicyAuthority, PolicyAuthorityAdmissionError>,
    calls: Seq<AuthorityCall>,
    device: DeviceModel,
    fingerprint: Seq<char>,
    manifest: Result<ProtectedPolicyManifestV2, String>,
    record_path: Seq<char>,
    observations: Seq<CompatibilityObservation>,
) -> bool {
    match result {
        Ok(admitted) => is_admission(
            Ok(admitted),
            calls,
            device,
            fingerprint,
            manifest,
            record_path,
            observations,
        ),
        Err(error) => {
            &&& calls.len() > 0
            &&& calls.last() matches AuthorityCall::RestoreFirmwareAuto {
                device: restored_on,
                answer: restoration,
            }
            &&& restored_on == device
            &&& match restoration {
                Ok(()) => error is Rejected,
                Err(detail) => error == (PolicyAuthorityAdmissionError::RestorationFailed {
                    reason: error.cause(),
                    restoration: detail,
                }),
            }
            &&& is_admission(
                Err(error.cause()),
                calls.drop_last(),
                device,
                fingerprint,
                manifest,
                record_path,
                observations,
            )
        },
    }
}

/// Admits a protected policy for a controller ownership, and restores Firmware Auto where it does
/// not.
///
/// An admitted policy is bound to its qualification, to this machine and to its own fingerprint. The
/// record stays unread where Firmware Auto is not confirmed.
pub fn admit_policy_authority<P>(
    ownership: &mut P,
    device: &AcerHwmonDevice,
    protected_policy_source: &str,
    manifest: Result<ProtectedPolicyManifestV2, String>,
    qualification_record_path: &str,
    compatibility_observations: &[CompatibilityObservation],
) -> (result: Result<AdmittedPolicyAuthority, PolicyAuthorityAdmissionError>) where
    P: PolicyAuthorityAccess + ?Sized,

    ensures
        exists|calls: Seq<AuthorityCall>|
            ran(&*old(ownership), calls, &*final(ownership)) && #[trigger] is_admission_outcome(
                result,
                calls,
                device@,
                policy_fingerprint(protected_policy_source@),
                manifest,
                qualification_record_path@,
                compatibility_observations@,
            ),
{
    let mut trace = Trace::begin(ownership);
    let tried = try_admit(
        ownership,
        &mut trace,
        device,
        protected_policy_source,
        manifest,
        qualification_record_path,
        compatibility_observations,
    );
    let ghost asked = trace.calls();
    let result = match tried {
        Ok(authority) => Ok(authority),
        Err(reason) => {
            let restoration = trace.restore_firmware_auto(ownership, device);
            assert(trace.calls().drop_last() =~= asked);
            Err(reject_authority(reason, restoration))
        },
    };
    assert(is_admission_outcome(
        result,
        trace.calls(),
        device@,
        policy_fingerprint(protected_policy_source@),
        manifest,
        qualification_record_path@,
        compatibility_observations@,
    ));
    result
}

} // verus!
