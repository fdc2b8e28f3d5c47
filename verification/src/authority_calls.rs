//! The calls of a policy's admission.

use vstd::prelude::*;
use vstd::string::*;
use crate::acer_hwmon::{AcerHwmonDevice, DeviceModel};
use crate::authority::{PolicyAuthorityAccess, QualificationRecordV2};
use crate::evidence::{EnvelopeModel, QualificationEnvelopeIdentityV1};
use crate::platform::PlatformError;
use crate::trace::{CallOn, Effect, Trace};

verus! {

/// A call of a policy's admission, with what was asked and what came back.
#[allow(inconsistent_fields)]
pub enum AuthorityCall {
    OwnershipId {
        answer: u64,
    },
    RefreshFirmwareAutoConfirmation {
        device: DeviceModel,
        answer: bool,
    },
    ReadQualificationRecord {
        path: Seq<char>,
        answer: Result<Result<QualificationRecordV2, String>, PlatformError>,
    },
    VerifyEnduranceEvidence {
        path: Seq<char>,
        sha256: Seq<char>,
        envelope: EnvelopeModel,
        answer: Result<(), PlatformError>,
    },
    RestoreFirmwareAuto {
        device: DeviceModel,
        answer: Result<(), String>,
    },
}

impl<E: PolicyAuthorityAccess + ?Sized> CallOn<E> for AuthorityCall {
    open spec fn came(self, before: &E, after: &E) -> bool {
        after.history() == before.history().push(self)
    }
}

impl Effect for AuthorityCall {
    open spec fn acts(self) -> bool {
        match self {
            AuthorityCall::OwnershipId { .. } => false,
            AuthorityCall::RefreshFirmwareAutoConfirmation { .. } => false,
            AuthorityCall::ReadQualificationRecord { .. } => false,
            AuthorityCall::VerifyEnduranceEvidence { .. } => false,
            AuthorityCall::RestoreFirmwareAuto { .. } => true,
        }
    }
}

impl<'a, E: PolicyAuthorityAccess + ?Sized> Trace<'a, E, AuthorityCall> {
    /// Calls `ownership_id`.
    pub(crate) fn ownership_id(&mut self, ownership: &mut E) -> (answer: u64)
        requires
            old(self).follows(&*old(ownership)),
        ensures
            final(self).follows(&*final(ownership)),
            final(self).start() == old(self).start(),
            final(self).calls() == old(self).calls().push(AuthorityCall::OwnershipId { answer }),
    {
        let ghost before = &*ownership;
        let answer = ownership.ownership_id();
        self.add(Ghost(before), Ghost(AuthorityCall::OwnershipId { answer }), ownership);
        answer
    }

    /// Calls `refresh_firmware_auto_confirmation`.
    pub(crate) fn refresh_firmware_auto_confirmation(
        &mut self,
        ownership: &mut E,
        device: &AcerHwmonDevice,
    ) -> (answer: bool)
        requires
            old(self).follows(&*old(ownership)),
        ensures
            final(self).follows(&*final(ownership)),
            final(self).start() == old(self).start(),
            final(self).calls() == old(self).calls().push(
                AuthorityCall::RefreshFirmwareAutoConfirmation { device: device@, answer },
            ),
    {
        let ghost before = &*ownership;
        let answer = ownership.refresh_firmware_auto_confirmation(device);
        self.add(
            Ghost(before),
            Ghost(AuthorityCall::RefreshFirmwareAutoConfirmation { device: device@, answer }),
            ownership,
        );
        answer
    }

    /// Calls `read_root_owned_qualification_record`.
    pub(crate) fn read_root_owned_qualification_record(
        &mut self,
        ownership: &mut E,
        path: &str,
    ) -> (answer: Result<Result<QualificationRecordV2, String>, PlatformError>)
        requires
            old(self).follows(&*old(ownership)),
        ensures
            final(self).follows(&*final(ownership)),
            final(self).start() == old(self).start(),
            final(self).calls() == old(self).calls().push(
                AuthorityCall::ReadQualificationRecord { path: path@, answer },
            ),
    {
        let ghost before = &*ownership;
        let answer = ownership.read_root_owned_qualification_record(path);
        self.add(
            Ghost(before),
            Ghost(AuthorityCall::ReadQualificationRecord { path: path@, answer }),
            ownership,
        );
        answer
    }

    /// Calls `verify_root_owned_supervised_endurance_evidence`.
    pub(crate) fn verify_root_owned_supervised_endurance_evidence(
        &mut self,
        ownership: &mut E,
        path: &str,
        sha256: &str,
        envelope: &QualificationEnvelopeIdentityV1,
    ) -> (answer: Result<(), PlatformError>)
        requires
            old(self).follows(&*old(ownership)),
        ensures
            final(self).follows(&*final(ownership)),
            final(self).start() == old(self).start(),
            final(self).calls() == old(self).calls().push(
                AuthorityCall::VerifyEnduranceEvidence {
                    path: path@,
                    sha256: sha256@,
                    envelope: envelope@,
                    answer,
                },
            ),
    {
        let ghost before = &*ownership;
        let answer = ownership.verify_root_owned_supervised_endurance_evidence(
            path,
            sha256,
            envelope,
        );
        self.add(
            Ghost(before),
            Ghost(
                AuthorityCall::VerifyEnduranceEvidence {
                    path: path@,
                    sha256: sha256@,
                    envelope: envelope@,
                    answer,
                },
            ),
            ownership,
        );
        answer
    }

    /// Calls `restore_firmware_auto`.
    pub(crate) fn restore_firmware_auto(
        &mut self,
        ownership: &mut E,
        device: &AcerHwmonDevice,
    ) -> (answer: Result<(), String>)
        requires
            old(self).follows(&*old(ownership)),
        ensures
            final(self).follows(&*final(ownership)),
            final(self).start() == old(self).start(),
            final(self).calls() == old(self).calls().push(
                AuthorityCall::RestoreFirmwareAuto { device: device@, answer },
            ),
    {
        let ghost before = &*ownership;
        let answer = ownership.restore_firmware_auto(device);
        self.add(
            Ghost(before),
            Ghost(AuthorityCall::RestoreFirmwareAuto { device: device@, answer }),
            ownership,
        );
        answer
    }
}

} // verus!
