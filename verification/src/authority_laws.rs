//! What an admitted policy has behind it, told by its artifacts and the calls of its admission.

use vstd::prelude::*;
use vstd::string::*;
use crate::acer_hwmon::DeviceModel;
use crate::authority::{
    authority_error, binding_error, endurance_authorizes, is_admission_outcome, manifest_error,
    record_error, AdmittedPolicyAuthority, PolicyAuthorityAdmissionError, PolicyAuthorityError,
    ProtectedPolicyManifestV2, QualificationRecordV2,
};
use crate::authority_calls::AuthorityCall;
use crate::compatibility::{admission_error, declaration_error, CompatibilityObservation};
use crate::config::{config_error, config_of};
use crate::tachometer_policy::calibration_defect;
use crate::text::{identifier, lower_hex};

verus! {

broadcast use vstd::string::group_string_axioms;

/// A qualification record stands exactly where its schema is the second, its identifiers and its
/// digest are well formed, its declaration is safe, and the supervised endurance run that it rests on
/// is a complete one of the first schema: it passed, confirmed Firmware Auto at its end, stopped its
/// workload and its service, and names its evidence by digest and by an absolute path.
pub proof fn records_stand_on_a_passed_endurance_run(record: QualificationRecordV2)
    ensures
        record_error(record) is None <==> {
            let endurance = record.supervised_endurance;
            &&& record.schema_version == 2
            &&& identifier(record.qualification_id@)
            &&& identifier(record.policy_version@)
            &&& lower_hex(record.protected_policy_sha256@, 64)
            &&& endurance.schema_version == 1
            &&& endurance.evidence_schema_version == 2
            &&& endurance.stage@ == "supervised-endurance"@
            &&& endurance.outcome is Passed
            &&& endurance.final_firmware_auto_confirmed
            &&& endurance.workload_stopped
            &&& endurance.service_stopped
            &&& lower_hex(endurance.evidence_sha256@, 64)
            &&& endurance.evidence_path@.len() > 0
            &&& endurance.evidence_path@[0] == '/'
            &&& declaration_error(record.compatibility@) is None
        },
{
    reveal_strlit("/");
    let path = record.supervised_endurance.evidence_path@;
    if path.len() > 0 {
        assert("/"@ =~= seq!['/']);
        assert(path.take(1) =~= seq![path[0]]);
        assert(path[0] == '/' ==> path.take(1) =~= "/"@);
        assert(path.take(1) == "/"@ ==> path.take(1)[0] == '/');
    }
}

/// A record of a run that failed, was refused, left a process running or did not confirm Firmware Auto
/// is refused for its endurance run, unless something is wrong with its own identity.
pub proof fn failed_endurance_authorizes_nothing(record: QualificationRecordV2)
    requires
        !(record.supervised_endurance.outcome is Passed)
            || !record.supervised_endurance.final_firmware_auto_confirmed
            || !record.supervised_endurance.workload_stopped
            || !record.supervised_endurance.service_stopped,
    ensures
        record_error(record) matches Some(PolicyAuthorityError::InvalidIdentity { artifact, .. })
            && artifact@ == "qualification record"@,
{
    records_stand_on_a_passed_endurance_run(record);
    assert(!endurance_authorizes(record.supervised_endurance));
}

/// A protected policy stands exactly where its schema is the second, its identifiers are well formed
/// and its declaration is safe.
pub proof fn manifests_are_well_formed(manifest: ProtectedPolicyManifestV2)
    ensures
        manifest_error(manifest) is None <==> {
            &&& manifest.schema_version == 2
            &&& identifier(manifest.qualification_id@)
            &&& identifier(manifest.policy_version@)
            &&& declaration_error(manifest.compatibility@) is None
        },
{
}

/// A policy and a record belong together exactly where they name the same qualification, the same
/// policy version and the same machine, this is that machine, and the record names the policy's
/// fingerprint.
pub proof fn bound_artifacts_name_each_other(
    fingerprint: Seq<char>,
    manifest: ProtectedPolicyManifestV2,
    record: QualificationRecordV2,
    observations: Seq<CompatibilityObservation>,
)
    ensures
        binding_error(fingerprint, manifest, record, observations) is None <==> {
            &&& manifest.qualification_id@ == record.qualification_id@
            &&& manifest.policy_version@ == record.policy_version@
            &&& manifest.compatibility@ == record.compatibility@
            &&& record.protected_policy_sha256@ == fingerprint
            &&& admission_error(manifest.compatibility@, observations) is None
        },
{
}

/// A policy has authority exactly where both artifacts parsed, each stands, they belong together, and
/// the policy's configuration and its calibrations are valid.
pub proof fn authority_needs_every_proof(
    fingerprint: Seq<char>,
    manifest: Result<ProtectedPolicyManifestV2, String>,
    record: Result<QualificationRecordV2, String>,
    observations: Seq<CompatibilityObservation>,
)
    ensures
        authority_error(fingerprint, manifest, record, observations) is None <==> (
        manifest matches Ok(manifest) && (record matches Ok(record) && {
            let config = config_of(manifest.fans, manifest.profiles);
            &&& manifest_error(manifest) is None
            &&& record_error(record) is None
            &&& binding_error(fingerprint, manifest, record, observations) is None
            &&& config_error(config) is None
            &&& calibration_defect(
                manifest.calibration.cpu@,
                manifest.calibration.gpu@,
                config,
            ) is None
        })),
{
}

/// An admitted policy was admitted on a machine in Firmware Auto, with the record at the given path, for
/// the ownership that was current then. The record rests on an endurance run that passed, confirmed
/// Firmware Auto at its end and stopped its workload and its service; it names this policy's
/// fingerprint; and the evidence of that run was verified against the policy's own identity.
pub proof fn admitted_policies_were_proved(
    admitted: AdmittedPolicyAuthority,
    calls: Seq<AuthorityCall>,
    device: DeviceModel,
    fingerprint: Seq<char>,
    manifest: Result<ProtectedPolicyManifestV2, String>,
    record_path: Seq<char>,
    observations: Seq<CompatibilityObservation>,
)
    requires
        is_admission_outcome(
            Ok(admitted),
            calls,
            device,
            fingerprint,
            manifest,
            record_path,
            observations,
        ),
    ensures
        calls.len() == 4,
        calls[0] == (AuthorityCall::RefreshFirmwareAutoConfirmation { device, answer: true }),
        calls[1] matches AuthorityCall::ReadQualificationRecord { path, answer: Ok(Ok(record)) }
            && path == record_path && (manifest matches Ok(policy) && {
            let endurance = record.supervised_endurance;
            &&& record.schema_version == 2 && policy.schema_version == 2
            &&& endurance.outcome is Passed
            &&& endurance.final_firmware_auto_confirmed
            &&& endurance.workload_stopped
            &&& endurance.service_stopped
            &&& record.protected_policy_sha256@ == fingerprint
            &&& record.qualification_id@ == policy.qualification_id@
            &&& record.policy_version@ == policy.policy_version@
            &&& record.compatibility@ == policy.compatibility@
            &&& admission_error(policy.compatibility@, observations) is None
            &&& calls[3] matches AuthorityCall::VerifyEnduranceEvidence {
                path,
                sha256,
                envelope,
                answer: Ok(_),
            } && path == endurance.evidence_path@ && sha256 == endurance.evidence_sha256@
                && envelope == admitted@.identity
            &&& admitted@.identity.qualification_id == policy.qualification_id@
            &&& admitted@.identity.policy_version == policy.policy_version@
            &&& admitted@.identity.protected_policy_sha256 == fingerprint
            &&& admitted@.identity.compatibility == policy.compatibility@
            &&& admitted@.cpu_calibration == policy.calibration.cpu@
            &&& admitted@.gpu_calibration == policy.calibration.gpu@
            &&& admitted@.protected == config_of(policy.fans, policy.profiles)
            &&& config_error(admitted@.protected) is None
        }),
        calls[2] == (AuthorityCall::OwnershipId { answer: admitted@.ownership_id }),
{
    let record = calls[1]->ReadQualificationRecord_answer->Ok_0->Ok_0;
    records_stand_on_a_passed_endurance_run(record);
}

/// A refused policy ends with one restoration of Firmware Auto on the device, and with it alone: nothing
/// before it restores. A restoration that failed shows in the error.
pub proof fn refused_policies_end_with_one_restoration(
    error: PolicyAuthorityAdmissionError,
    calls: Seq<AuthorityCall>,
    device: DeviceModel,
    fingerprint: Seq<char>,
    manifest: Result<ProtectedPolicyManifestV2, String>,
    record_path: Seq<char>,
    observations: Seq<CompatibilityObservation>,
)
    requires
        is_admission_outcome(
            Err(error),
            calls,
            device,
            fingerprint,
            manifest,
            record_path,
            observations,
        ),
    ensures
        1 < calls.len() <= 5,
        calls.last() matches AuthorityCall::RestoreFirmwareAuto { device: restored_on, answer }
            && restored_on == device && (answer is Ok <==> error is Rejected),
        forall|i: int|
            0 <= i < calls.len() - 1 ==> !(#[trigger] calls[i] is RestoreFirmwareAuto),
        calls[0] == (AuthorityCall::RefreshFirmwareAutoConfirmation { device, answer: false }) <==>
            error.cause() is FirmwareAutoUnconfirmed,
{
    let before = calls.drop_last();
    assert(before[0] == calls[0]);
    if before.len() > 1 {
        assert(before[1] == calls[1]);
    }
    if before.len() > 2 {
        assert(before[2] == calls[2]);
    }
    if before.len() > 3 {
        assert(before[3] == calls[3]);
    }
    assert forall|i: int| 0 <= i < calls.len() - 1 implies !(
    #[trigger] calls[i] is RestoreFirmwareAuto) by {
        assert(calls[i] == before[i]);
    }
    if before[0]->RefreshFirmwareAutoConfirmation_answer {
        if before.len() == 3 {
            let record = before[1]->ReadQualificationRecord_answer->Ok_0;
            lemma_errors_are_told(fingerprint, manifest, record, observations);
        }
    }
}

/// What is wrong with two artifacts is never that Firmware Auto was unconfirmed.
proof fn lemma_errors_are_told(
    fingerprint: Seq<char>,
    manifest: Result<ProtectedPolicyManifestV2, String>,
    record: Result<QualificationRecordV2, String>,
    observations: Seq<CompatibilityObservation>,
)
    ensures
        !(authority_error(fingerprint, manifest, record, observations) matches Some(
            PolicyAuthorityError::FirmwareAutoUnconfirmed,
        )),
{
}

} // verus!
