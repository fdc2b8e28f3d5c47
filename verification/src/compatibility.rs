//! The hardware, kernel and module identity that fan control is qualified for.

use vstd::prelude::*;
use vstd::string::*;
use crate::text::{
    begins_with, char_is_alphanumeric, char_is_digit, chars_of, clone_texts, decimal, decimal_text,
    ends_with_text, finishes_with, is_alphanumeric, is_digit, is_lower_hex, join, join3, lower_hex,
    parse_unsigned, same_text, same_texts, starts_with_text, texts, unsigned_number,
};

verus! {

broadcast use vstd::string::group_string_axioms;

#[derive(Debug, PartialEq, Eq)]
pub struct CompatibilityDeclarationV1 {
    pub schema_version: u32,
    pub hardware: HardwareIdentity,
    pub kernel: KernelIdentity,
    pub module: ModuleIdentity,
    pub secure_boot: SecureBootRequirements,
    pub fan_control: FanControlDeclaration,
}

#[derive(Debug, Clone, PartialEq, Eq)]
pub struct HardwareIdentity {
    pub dmi_product_name: String,
    pub dmi_board_name: String,
    pub bios_version: String,
}

#[derive(Debug, Clone, PartialEq, Eq)]
pub struct KernelIdentity {
    pub release: String,
    pub package: String,
    pub source_commit: String,
    pub image_sha256: String,
    pub image_signer_fingerprint: String,
}

#[derive(Debug, Clone, PartialEq, Eq)]
pub struct ModuleIdentity {
    pub name: String,
    pub path: String,
    pub sha256: String,
    pub signer_fingerprint: String,
    pub vermagic: String,
    pub provenance: ModuleProvenance,
}

#[derive(Debug, Clone, Copy, PartialEq, Eq, PartialOrd, Ord, Structural)]
pub enum ModuleProvenance {
    InTree,
    External,
}

#[derive(Debug, Clone, Copy, PartialEq, Eq, Structural)]
pub struct SecureBootRequirements {
    pub required: bool,
}

#[derive(Debug, Clone, PartialEq, Eq)]
pub struct FanControlDeclaration {
    pub backend: FanWriteBackend,
    pub hwmon_name: String,
    pub endpoints: Vec<String>,
    pub forbidden_capabilities: Vec<EscapeHatchCapability>,
}

#[derive(Debug, Clone, Copy, PartialEq, Eq, PartialOrd, Ord, Structural)]
pub enum FanWriteBackend {
    AcerHwmon,
    DirectWmi,
    RawEc,
    ReplacementModule,
}

#[derive(Debug, Clone, Copy, PartialEq, Eq, PartialOrd, Ord, Structural)]
pub enum EscapeHatchCapability {
    ForceCaps,
    EcRawMode,
    PredatorV4Override,
    DirectWmi,
    RawEc,
    ReplacementWmiModule,
    AlternateFanWriteBackend,
}

#[derive(Debug, Clone, Copy, PartialEq, Eq, Structural)]
pub enum EvidenceCompleteness {
    Complete,
    Incomplete,
}

#[derive(Debug, Clone, PartialEq, Eq)]
pub struct ObservedFanAbi {
    pub hwmon_name: String,
    pub endpoints: Vec<String>,
}

#[derive(Debug, Clone, PartialEq, Eq)]
pub struct CompatibilityObservation {
    pub hardware: HardwareIdentity,
    pub kernel: KernelIdentity,
    pub module: ModuleIdentity,
    pub secure_boot_enabled: bool,
    pub kernel_image_trusted: bool,
    pub module_signature_trusted: bool,
    pub fan_abi: ObservedFanAbi,
    pub backend_evidence_completeness: EvidenceCompleteness,
    pub backends: Vec<FanWriteBackend>,
    pub capability_evidence_completeness: EvidenceCompleteness,
    pub enabled_capabilities: Vec<EscapeHatchCapability>,
}

/// Receipt for one observation that matched a safe declaration.
#[derive(Debug, Clone, Copy, PartialEq, Eq)]
pub struct AdmittedCompatibility(());

#[derive(Debug, Clone, Copy, PartialEq, Eq)]
pub enum CompatibilityDeclarationError {
    Unsafe { field: &'static str, reason: &'static str },
}

impl CompatibilityDeclarationError {
    /// The message shown to an operator.
    pub fn message(&self) -> (text: String)
        ensures
            text@ == match *self {
                CompatibilityDeclarationError::Unsafe { field, reason } =>
                    "unsafe compatibility declaration at "@ + field@ + ": "@ + reason@,
            },
    {
        match self {
            CompatibilityDeclarationError::Unsafe { field, reason } => {
                let mut text = join3("unsafe compatibility declaration at ", field, ": ");
                text.append(reason);
                text
            },
        }
    }
}

#[derive(Debug, Clone, Copy, PartialEq, Eq)]
pub enum CompatibilityAdmissionError {
    UnsafeDeclaration { field: &'static str },
    MissingObservation,
    AmbiguousObservations { count: usize },
    Mismatch { field: &'static str },
    IncompleteEvidence { field: &'static str },
    Untrusted { field: &'static str },
    ForbiddenCapability { capability: EscapeHatchCapability },
    MissingBackend,
    AmbiguousBackends { count: usize },
    UnsupportedBackend { backend: FanWriteBackend },
}

impl FanWriteBackend {
    /// The text of the backend's name.
    pub open spec fn label(self) -> Seq<char> {
        match self {
            FanWriteBackend::AcerHwmon => "AcerHwmon"@,
            FanWriteBackend::DirectWmi => "DirectWmi"@,
            FanWriteBackend::RawEc => "RawEc"@,
            FanWriteBackend::ReplacementModule => "ReplacementModule"@,
        }
    }
}

impl EscapeHatchCapability {
    /// The text of the capability's name.
    pub open spec fn label(self) -> Seq<char> {
        match self {
            EscapeHatchCapability::ForceCaps => "ForceCaps"@,
            EscapeHatchCapability::EcRawMode => "EcRawMode"@,
            EscapeHatchCapability::PredatorV4Override => "PredatorV4Override"@,
            EscapeHatchCapability::DirectWmi => "DirectWmi"@,
            EscapeHatchCapability::RawEc => "RawEc"@,
            EscapeHatchCapability::ReplacementWmiModule => "ReplacementWmiModule"@,
            EscapeHatchCapability::AlternateFanWriteBackend => "AlternateFanWriteBackend"@,
        }
    }
}

impl CompatibilityAdmissionError {
    /// The text of the message.
    pub open spec fn text(self) -> Seq<char> {
        match self {
            CompatibilityAdmissionError::UnsafeDeclaration { field } =>
                "unsafe compatibility declaration at "@ + field@,
            CompatibilityAdmissionError::MissingObservation =>
                "compatibility observation is missing"@,
            CompatibilityAdmissionError::AmbiguousObservations { count } =>
                "compatibility observation is ambiguous: found "@ + decimal_text(count as nat),
            CompatibilityAdmissionError::Mismatch { field } => "compatibility mismatch at "@
                + field@,
            CompatibilityAdmissionError::IncompleteEvidence { field } =>
                "compatibility evidence is incomplete at "@ + field@,
            CompatibilityAdmissionError::Untrusted { field } => "compatibility trust failed at "@
                + field@,
            CompatibilityAdmissionError::ForbiddenCapability { capability } =>
                "forbidden capability is enabled: "@ + capability.label(),
            CompatibilityAdmissionError::MissingBackend =>
                "fan-write backend evidence is missing"@,
            CompatibilityAdmissionError::AmbiguousBackends { count } =>
                "fan-write backend evidence is ambiguous: found "@ + decimal_text(count as nat),
            CompatibilityAdmissionError::UnsupportedBackend { backend } =>
                "unsupported fan-write backend: "@ + backend.label(),
        }
    }

    /// The message shown to an operator.
    pub fn message(&self) -> (text: String)
        ensures
            text@ == self.text(),
    {
        match self {
            CompatibilityAdmissionError::UnsafeDeclaration { field } => join(
                "unsafe compatibility declaration at ",
                field,
            ),
            CompatibilityAdmissionError::MissingObservation =>
                "compatibility observation is missing".to_owned(),
            CompatibilityAdmissionError::AmbiguousObservations { count } => join(
                "compatibility observation is ambiguous: found ",
                decimal(*count as u64).as_str(),
            ),
            CompatibilityAdmissionError::Mismatch { field } => join(
                "compatibility mismatch at ",
                field,
            ),
            CompatibilityAdmissionError::IncompleteEvidence { field } => join(
                "compatibility evidence is incomplete at ",
                field,
            ),
            CompatibilityAdmissionError::Untrusted { field } => join(
                "compatibility trust failed at ",
                field,
            ),
            CompatibilityAdmissionError::ForbiddenCapability { capability } => {
                let name = match capability {
                    EscapeHatchCapability::ForceCaps => "ForceCaps",
                    EscapeHatchCapability::EcRawMode => "EcRawMode",
                    EscapeHatchCapability::PredatorV4Override => "PredatorV4Override",
                    EscapeHatchCapability::DirectWmi => "DirectWmi",
                    EscapeHatchCapability::RawEc => "RawEc",
                    EscapeHatchCapability::ReplacementWmiModule => "ReplacementWmiModule",
                    EscapeHatchCapability::AlternateFanWriteBackend => "AlternateFanWriteBackend",
                };
                join("forbidden capability is enabled: ", name)
            },
            CompatibilityAdmissionError::MissingBackend =>
                "fan-write backend evidence is missing".to_owned(),
            CompatibilityAdmissionError::AmbiguousBackends { count } => join(
                "fan-write backend evidence is ambiguous: found ",
                decimal(*count as u64).as_str(),
            ),
            CompatibilityAdmissionError::UnsupportedBackend { backend } => {
                let name = match backend {
                    FanWriteBackend::AcerHwmon => "AcerHwmon",
                    FanWriteBackend::DirectWmi => "DirectWmi",
                    FanWriteBackend::RawEc => "RawEc",
                    FanWriteBackend::ReplacementModule => "ReplacementModule",
                };
                join("unsupported fan-write backend: ", name)
            },
        }
    }
}

/// The contents of a declaration.
pub struct DeclarationModel {
    pub schema_version: u32,
    pub product: Seq<char>,
    pub board: Seq<char>,
    pub bios: Seq<char>,
    pub kernel: KernelModel,
    pub module: ModuleModel,
    pub secure_boot_required: bool,
    pub backend: FanWriteBackend,
    pub hwmon_name: Seq<char>,
    pub endpoints: Seq<Seq<char>>,
    pub forbidden_capabilities: Seq<EscapeHatchCapability>,
}

/// The contents of a kernel identity.
pub struct KernelModel {
    pub release: Seq<char>,
    pub package: Seq<char>,
    pub source_commit: Seq<char>,
    pub image_sha256: Seq<char>,
    pub image_signer_fingerprint: Seq<char>,
}

/// The contents of a module identity.
pub struct ModuleModel {
    pub name: Seq<char>,
    pub path: Seq<char>,
    pub sha256: Seq<char>,
    pub signer_fingerprint: Seq<char>,
    pub vermagic: Seq<char>,
    pub provenance: ModuleProvenance,
}

impl View for KernelIdentity {
    type V = KernelModel;

    open spec fn view(&self) -> KernelModel {
        KernelModel {
            release: self.release@,
            package: self.package@,
            source_commit: self.source_commit@,
            image_sha256: self.image_sha256@,
            image_signer_fingerprint: self.image_signer_fingerprint@,
        }
    }
}

impl View for ModuleIdentity {
    type V = ModuleModel;

    open spec fn view(&self) -> ModuleModel {
        ModuleModel {
            name: self.name@,
            path: self.path@,
            sha256: self.sha256@,
            signer_fingerprint: self.signer_fingerprint@,
            vermagic: self.vermagic@,
            provenance: self.provenance,
        }
    }
}

impl View for CompatibilityDeclarationV1 {
    type V = DeclarationModel;

    open spec fn view(&self) -> DeclarationModel {
        DeclarationModel {
            schema_version: self.schema_version,
            product: self.hardware.dmi_product_name@,
            board: self.hardware.dmi_board_name@,
            bios: self.hardware.bios_version@,
            kernel: self.kernel@,
            module: self.module@,
            secure_boot_required: self.secure_boot.required,
            backend: self.fan_control.backend,
            hwmon_name: self.fan_control.hwmon_name@,
            endpoints: texts(self.fan_control.endpoints@),
            forbidden_capabilities: self.fan_control.forbidden_capabilities@,
        }
    }
}

impl Clone for CompatibilityDeclarationV1 {
    fn clone(&self) -> (copy: CompatibilityDeclarationV1)
        ensures
            copy@ == self@,
    {
        let mut forbidden: Vec<EscapeHatchCapability> = Vec::new();
        let mut i: usize = 0;
        while i < self.fan_control.forbidden_capabilities.len()
            invariant
                i <= self.fan_control.forbidden_capabilities.len(),
                forbidden@ == self.fan_control.forbidden_capabilities@.take(i as int),
            decreases self.fan_control.forbidden_capabilities.len() - i,
        {
            forbidden.push(self.fan_control.forbidden_capabilities[i]);
            i = i + 1;
            proof {
                let all = self.fan_control.forbidden_capabilities@;
                assert(all.take(i as int) =~= all.take(i - 1).push(all[i - 1]));
            }
        }
        proof {
            let all = self.fan_control.forbidden_capabilities@;
            assert(all.take(all.len() as int) =~= all);
        }
        CompatibilityDeclarationV1 {
            schema_version: self.schema_version,
            hardware: HardwareIdentity {
                dmi_product_name: self.hardware.dmi_product_name.clone(),
                dmi_board_name: self.hardware.dmi_board_name.clone(),
                bios_version: self.hardware.bios_version.clone(),
            },
            kernel: KernelIdentity {
                release: self.kernel.release.clone(),
                package: self.kernel.package.clone(),
                source_commit: self.kernel.source_commit.clone(),
                image_sha256: self.kernel.image_sha256.clone(),
                image_signer_fingerprint: self.kernel.image_signer_fingerprint.clone(),
            },
            module: ModuleIdentity {
                name: self.module.name.clone(),
                path: self.module.path.clone(),
                sha256: self.module.sha256.clone(),
                signer_fingerprint: self.module.signer_fingerprint.clone(),
                vermagic: self.module.vermagic.clone(),
                provenance: self.module.provenance,
            },
            secure_boot: self.secure_boot,
            fan_control: FanControlDeclaration {
                backend: self.fan_control.backend,
                hwmon_name: self.fan_control.hwmon_name.clone(),
                endpoints: clone_texts(&self.fan_control.endpoints),
                forbidden_capabilities: forbidden,
            },
        }
    }

}

impl CompatibilityDeclarationV1 {
    /// Whether two declarations hold the same contents.
    pub fn same_as(&self, other: &CompatibilityDeclarationV1) -> (same: bool)
        ensures
            same == (self@ == other@),
    {
        if !(self.schema_version == other.schema_version && same_text(
            self.hardware.dmi_product_name.as_str(),
            other.hardware.dmi_product_name.as_str(),
        ) && same_text(
            self.hardware.dmi_board_name.as_str(),
            other.hardware.dmi_board_name.as_str(),
        ) && same_text(
            self.hardware.bios_version.as_str(),
            other.hardware.bios_version.as_str(),
        ) && same_kernel(&self.kernel, &other.kernel) && same_module(&self.module, &other.module)
            && self.secure_boot.required == other.secure_boot.required && self.fan_control.backend
            == other.fan_control.backend && same_text(
            self.fan_control.hwmon_name.as_str(),
            other.fan_control.hwmon_name.as_str(),
        ) && same_texts(&self.fan_control.endpoints, &other.fan_control.endpoints)) {
            return false;
        }
        let left = &self.fan_control.forbidden_capabilities;
        let right = &other.fan_control.forbidden_capabilities;
        assert(self@.forbidden_capabilities == left@ && other@.forbidden_capabilities == right@);
        if left.len() != right.len() {
            return false;
        }
        let mut i: usize = 0;
        while i < left.len()
            invariant
                i <= left.len(),
                left.len() == right.len(),
                self@.forbidden_capabilities == left@,
                other@.forbidden_capabilities == right@,
                forall|k: int| 0 <= k < i ==> left@[k] == right@[k],
            decreases left.len() - i,
        {
            if left[i] != right[i] {
                assert(left@ != right@);
                return false;
            }
            i = i + 1;
        }
        assert(left@ =~= right@);
        true
    }
}

fn same_kernel(left: &KernelIdentity, right: &KernelIdentity) -> (same: bool)
    ensures
        same == (left@ == right@),
{
    same_text(left.release.as_str(), right.release.as_str()) && same_text(
        left.package.as_str(),
        right.package.as_str(),
    ) && same_text(left.source_commit.as_str(), right.source_commit.as_str()) && same_text(
        left.image_sha256.as_str(),
        right.image_sha256.as_str(),
    ) && same_text(
        left.image_signer_fingerprint.as_str(),
        right.image_signer_fingerprint.as_str(),
    )
}

fn same_module(left: &ModuleIdentity, right: &ModuleIdentity) -> (same: bool)
    ensures
        same == (left@ == right@),
{
    same_text(left.name.as_str(), right.name.as_str()) && same_text(
        left.path.as_str(),
        right.path.as_str(),
    ) && same_text(left.sha256.as_str(), right.sha256.as_str()) && same_text(
        left.signer_fingerprint.as_str(),
        right.signer_fingerprint.as_str(),
    ) && same_text(left.vermagic.as_str(), right.vermagic.as_str()) && left.provenance
        == right.provenance
}

/// Whether `values` lists every member of `expected` exactly once, in any order, and nothing else.
pub open spec fn exact_set<T>(values: Seq<T>, expected: Seq<T>) -> bool {
    &&& values.no_duplicates()
    &&& forall|v: T| values.contains(v) <==> expected.contains(v)
}

/// The endpoint names of the two-fan Acer hwmon ABI.
pub open spec fn two_fan_endpoints() -> Seq<Seq<char>> {
    seq!["pwm1"@, "pwm1_enable"@, "fan1_input"@, "pwm2"@, "pwm2_enable"@, "fan2_input"@]
}

/// The fan-control paths that a declaration must forbid.
pub open spec fn escape_hatches() -> Seq<EscapeHatchCapability> {
    seq![
        EscapeHatchCapability::ForceCaps,
        EscapeHatchCapability::EcRawMode,
        EscapeHatchCapability::PredatorV4Override,
        EscapeHatchCapability::DirectWmi,
        EscapeHatchCapability::RawEc,
        EscapeHatchCapability::ReplacementWmiModule,
        EscapeHatchCapability::AlternateFanWriteBackend,
    ]
}

/// Characters that part the components of a kernel release.
pub open spec fn is_release_separator(c: char) -> bool {
    c == '.' || c == '-'
}

/// The index of the first separator at or after `from`, or the end.
pub open spec fn release_component_end(release: Seq<char>, from: int) -> int
    decreases release.len() - from,
{
    if from >= release.len() || is_release_separator(release[from]) {
        from
    } else {
        release_component_end(release, from + 1)
    }
}

/// The major and minor numbers that lead a kernel release.
pub open spec fn release_version(release: Seq<char>) -> Option<(nat, nat)> {
    let first = release_component_end(release, 0);
    let second = release_component_end(release, first + 1);
    if first >= release.len() {
        None
    } else {
        match (
            unsigned_number(release.subrange(0, first), u32::MAX as nat),
            unsigned_number(release.subrange(first + 1, second), u32::MAX as nat),
        ) {
            (Some(major), Some(minor)) => Some((major, minor)),
            _ => None,
        }
    }
}

/// A release of the dedicated kernel, version 6.19 or newer.
pub open spec fn qualified_release(release: Seq<char>) -> bool {
    &&& finishes_with(release, "-cachyos-pt31553"@)
    &&& forall|i: int|
        0 <= i < release.len() ==> is_alphanumeric(#[trigger] release[i]) || release[i] == '.'
            || release[i] == '-' || release[i] == '_' || release[i] == '+'
    &&& release.len() > 0
    &&& is_digit(release[0])
    &&& is_alphanumeric(release.last())
    &&& forall|i: int|
        0 <= i < release.len() - 1 ==> is_alphanumeric(#[trigger] release[i]) || is_alphanumeric(
            release[i + 1],
        )
    &&& match release_version(release) {
        Some((major, minor)) => major > 6 || (major == 6 && minor >= 19),
        None => false,
    }
}

/// Where the packaged in-tree module of a release is installed.
pub open spec fn packaged_module_path(release: Seq<char>) -> Seq<char> {
    "/usr/lib/modules/"@ + release + "/kernel/drivers/platform/x86/acer-wmi.ko.zst"@
}

/// Whether a module's version magic names a release, followed by a space.
pub open spec fn vermagic_binds(vermagic: Seq<char>, release: Seq<char>) -> bool {
    &&& begins_with(vermagic, release)
    &&& vermagic.len() > release.len()
    &&& vermagic[release.len() as int] == ' '
}

/// The first rule that a declaration breaks, in the order in which the rules are stated.
pub open spec fn declaration_error(d: DeclarationModel) -> Option<CompatibilityDeclarationError> {
    if d.schema_version != 1 {
        Some(unsafe_at("schema_version", "only schema version 1 is supported"))
    } else if d.product != "Predator PT315-53"@ {
        Some(unsafe_at("hardware.dmi_product_name", "must name the qualified product"))
    } else if d.board != "Civic_TLS"@ {
        Some(unsafe_at("hardware.dmi_board_name", "must name the qualified board"))
    } else if d.bios != "V1.17"@ {
        Some(unsafe_at("hardware.bios_version", "must name the qualified BIOS"))
    } else if d.kernel.package != "linux-cachyos-pt31553"@ {
        Some(unsafe_at("kernel.package", "must name the dedicated kernel package"))
    } else if !qualified_release(d.kernel.release) {
        Some(unsafe_at("kernel.release", "must be kernel 6.19 or newer"))
    } else if !lower_hex(d.kernel.source_commit, 40) {
        Some(unsafe_at("kernel.source_commit", "must be an exact hexadecimal source commit"))
    } else if !lower_hex(d.kernel.image_sha256, 64) {
        Some(unsafe_at("kernel.image_sha256", "must be a SHA-256 digest"))
    } else if !lower_hex(d.kernel.image_signer_fingerprint, 64) {
        Some(
            unsafe_at("kernel.image_signer_fingerprint", "must be a full signing-key fingerprint"),
        )
    } else if d.module.name != "acer_wmi"@ {
        Some(unsafe_at("module.name", "must use the in-tree acer_wmi module"))
    } else if d.module.path != packaged_module_path(d.kernel.release) {
        Some(unsafe_at("module.path", "must use the packaged in-tree module path"))
    } else if !lower_hex(d.module.sha256, 64) {
        Some(unsafe_at("module.sha256", "must be a SHA-256 digest"))
    } else if !lower_hex(d.module.signer_fingerprint, 64) {
        Some(unsafe_at("module.signer_fingerprint", "must be a full signing-key fingerprint"))
    } else if !vermagic_binds(d.module.vermagic, d.kernel.release) {
        Some(unsafe_at("module.vermagic", "must bind the module to the declared kernel release"))
    } else if d.module.provenance != ModuleProvenance::InTree {
        Some(unsafe_at("module.provenance", "external or replacement modules are forbidden"))
    } else if !d.secure_boot_required {
        Some(unsafe_at("secure_boot.required", "Secure Boot trust is mandatory"))
    } else if d.backend != FanWriteBackend::AcerHwmon {
        Some(unsafe_at("fan_control.backend", "only the standard Acer hwmon backend is allowed"))
    } else if d.hwmon_name != "acer"@ {
        Some(unsafe_at("fan_control.hwmon_name", "must use the acer hwmon device"))
    } else if !exact_set(d.endpoints, two_fan_endpoints()) {
        Some(
            unsafe_at("fan_control.endpoints", "must declare exactly the two-fan Acer hwmon ABI"),
        )
    } else if !exact_set(d.forbidden_capabilities, escape_hatches()) {
        Some(
            unsafe_at("fan_control.forbidden_capabilities", "must forbid every known escape hatch"),
        )
    } else {
        None
    }
}

/// A broken declaration rule.
pub open spec fn unsafe_at(
    field: &'static str,
    reason: &'static str,
) -> CompatibilityDeclarationError {
    CompatibilityDeclarationError::Unsafe { field, reason }
}

/// Finds the first rule that a declaration breaks.
pub fn validate_declaration(declaration: &CompatibilityDeclarationV1) -> (result: Result<
    (),
    CompatibilityDeclarationError,
>)
    ensures
        result == match declaration_error(declaration@) {
            Some(error) => Err(error),
            None => Ok(()),
        },
{
    if declaration.schema_version != 1 {
        return refuse("schema_version", "only schema version 1 is supported");
    }
    if !same_text(declaration.hardware.dmi_product_name.as_str(), "Predator PT315-53") {
        return refuse("hardware.dmi_product_name", "must name the qualified product");
    }
    if !same_text(declaration.hardware.dmi_board_name.as_str(), "Civic_TLS") {
        return refuse("hardware.dmi_board_name", "must name the qualified board");
    }
    if !same_text(declaration.hardware.bios_version.as_str(), "V1.17") {
        return refuse("hardware.bios_version", "must name the qualified BIOS");
    }
    if !same_text(declaration.kernel.package.as_str(), "linux-cachyos-pt31553") {
        return refuse("kernel.package", "must name the dedicated kernel package");
    }
    if !supported_kernel_release(declaration.kernel.release.as_str()) {
        return refuse("kernel.release", "must be kernel 6.19 or newer");
    }
    if !is_lower_hex(declaration.kernel.source_commit.as_str(), 40) {
        return refuse("kernel.source_commit", "must be an exact hexadecimal source commit");
    }
    if !is_lower_hex(declaration.kernel.image_sha256.as_str(), 64) {
        return refuse("kernel.image_sha256", "must be a SHA-256 digest");
    }
    if !is_lower_hex(declaration.kernel.image_signer_fingerprint.as_str(), 64) {
        return refuse(
            "kernel.image_signer_fingerprint",
            "must be a full signing-key fingerprint",
        );
    }
    if !same_text(declaration.module.name.as_str(), "acer_wmi") {
        return refuse("module.name", "must use the in-tree acer_wmi module");
    }
    let expected_module_path = join3(
        "/usr/lib/modules/",
        declaration.kernel.release.as_str(),
        "/kernel/drivers/platform/x86/acer-wmi.ko.zst",
    );
    if !same_text(declaration.module.path.as_str(), expected_module_path.as_str()) {
        return refuse("module.path", "must use the packaged in-tree module path");
    }
    if !is_lower_hex(declaration.module.sha256.as_str(), 64) {
        return refuse("module.sha256", "must be a SHA-256 digest");
    }
    if !is_lower_hex(declaration.module.signer_fingerprint.as_str(), 64) {
        return refuse("module.signer_fingerprint", "must be a full signing-key fingerprint");
    }
    if !vermagic_is_bound(
        declaration.module.vermagic.as_str(),
        declaration.kernel.release.as_str(),
    ) {
        return refuse("module.vermagic", "must bind the module to the declared kernel release");
    }
    if declaration.module.provenance != ModuleProvenance::InTree {
        return refuse("module.provenance", "external or replacement modules are forbidden");
    }
    if !declaration.secure_boot.required {
        return refuse("secure_boot.required", "Secure Boot trust is mandatory");
    }
    if declaration.fan_control.backend != FanWriteBackend::AcerHwmon {
        return refuse("fan_control.backend", "only the standard Acer hwmon backend is allowed");
    }
    if !same_text(declaration.fan_control.hwmon_name.as_str(), "acer") {
        return refuse("fan_control.hwmon_name", "must use the acer hwmon device");
    }
    let endpoints = two_fan_endpoint_names();
    proof {
        lemma_two_fan_endpoints_are_distinct();
    }
    if !is_same_unique_set(&declaration.fan_control.endpoints, &endpoints) {
        return refuse("fan_control.endpoints", "must declare exactly the two-fan Acer hwmon ABI");
    }
    if !forbids_every_escape_hatch(&declaration.fan_control.forbidden_capabilities) {
        return refuse(
            "fan_control.forbidden_capabilities",
            "must forbid every known escape hatch",
        );
    }
    Ok(())
}

fn refuse(field: &'static str, reason: &'static str) -> (result: Result<
    (),
    CompatibilityDeclarationError,
>)
    ensures
        result == Err::<(), CompatibilityDeclarationError>(unsafe_at(field, reason)),
{
    Err(CompatibilityDeclarationError::Unsafe { field, reason })
}

fn vermagic_is_bound(vermagic: &str, release: &str) -> (yes: bool)
    ensures
        yes == vermagic_binds(vermagic@, release@),
{
    if !starts_with_text(vermagic, release) {
        return false;
    }
    let count = release.unicode_len();
    vermagic.unicode_len() > count && vermagic.get_char(count) == ' '
}

fn next_separator(release: &Vec<char>, from: usize) -> (end: usize)
    requires
        from <= release.len(),
    ensures
        end == release_component_end(release@, from as int),
        from <= end <= release.len(),
{
    let mut end: usize = from;
    while end < release.len() && release[end] != '.' && release[end] != '-'
        invariant
            from <= end <= release.len(),
            release_component_end(release@, from as int) == release_component_end(
                release@,
                end as int,
            ),
        decreases release.len() - end,
    {
        end = end + 1;
    }
    end
}

/// Decides [`qualified_release`].
pub fn supported_kernel_release(release: &str) -> (yes: bool)
    ensures
        yes == qualified_release(release@),
{
    if !ends_with_text(release, "-cachyos-pt31553") {
        return false;
    }
    let chars = chars_of(release);
    let mut i: usize = 0;
    while i < chars.len()
        invariant
            i <= chars.len(),
            chars@ == release@,
            forall|k: int|
                0 <= k < i ==> is_alphanumeric(#[trigger] release@[k]) || release@[k] == '.'
                    || release@[k] == '-' || release@[k] == '_' || release@[k] == '+',
        decreases chars.len() - i,
    {
        let c = chars[i];
        if !(char_is_alphanumeric(c) || c == '.' || c == '-' || c == '_' || c == '+') {
            assert(chars@[i as int] == release@[i as int]);
            return false;
        }
        i = i + 1;
    }
    if chars.len() == 0 || !char_is_digit(chars[0]) || !char_is_alphanumeric(
        chars[chars.len() - 1],
    ) {
        return false;
    }
    i = 0;
    while i < chars.len() - 1
        invariant
            i <= chars.len() - 1,
            chars@ == release@,
            forall|k: int|
                0 <= k < i ==> is_alphanumeric(#[trigger] release@[k]) || is_alphanumeric(
                    release@[k + 1],
                ),
        decreases chars.len() - i,
    {
        if !char_is_alphanumeric(chars[i]) && !char_is_alphanumeric(chars[i + 1]) {
            assert(chars@[i as int] == release@[i as int]);
            return false;
        }
        i = i + 1;
    }
    let first = next_separator(&chars, 0);
    if first >= chars.len() {
        return false;
    }
    let second = next_separator(&chars, first + 1);
    let major = parse_unsigned(
        vstd::slice::slice_subrange(chars.as_slice(), 0, first),
        u32::MAX as u64,
    );
    let minor = parse_unsigned(
        vstd::slice::slice_subrange(chars.as_slice(), first + 1, second),
        u32::MAX as u64,
    );
    match (major, minor) {
        (Some(major), Some(minor)) => major > 6 || (major == 6 && minor >= 19),
        _ => false,
    }
}

/// The endpoint names of the two-fan Acer hwmon ABI.
pub(crate) fn two_fan_endpoint_names() -> (names: Vec<String>)
    ensures
        texts(names@) == two_fan_endpoints(),
{
    let mut names: Vec<String> = Vec::new();
    names.push("pwm1".to_owned());
    names.push("pwm1_enable".to_owned());
    names.push("fan1_input".to_owned());
    names.push("pwm2".to_owned());
    names.push("pwm2_enable".to_owned());
    names.push("fan2_input".to_owned());
    assert(texts(names@) =~= two_fan_endpoints());
    names
}

/// Whether a list of texts holds a text.
pub(crate) fn contains_text(values: &Vec<String>, wanted: &str) -> (yes: bool)
    ensures
        yes == texts(values@).contains(wanted@),
{
    let mut i: usize = 0;
    while i < values.len()
        invariant
            i <= values.len(),
            forall|k: int| 0 <= k < i ==> values@[k]@ != wanted@,
        decreases values.len() - i,
    {
        if same_text(values[i].as_str(), wanted) {
            assert(texts(values@)[i as int] == wanted@);
            return true;
        }
        i = i + 1;
    }
    assert(forall|k: int| 0 <= k < values@.len() ==> texts(values@)[k] == values@[k]@);
    false
}

/// Whether a list of texts holds no text twice.
pub(crate) fn texts_are_distinct(values: &Vec<String>) -> (yes: bool)
    ensures
        yes == texts(values@).no_duplicates(),
{
    let mut i: usize = 0;
    while i < values.len()
        invariant
            i <= values.len(),
            forall|a: int, b: int|
                0 <= a < i && 0 <= b < values@.len() && a != b ==> values@[a]@ != values@[b]@,
        decreases values.len() - i,
    {
        let mut j: usize = i + 1;
        while j < values.len()
            invariant
                i < j <= values.len(),
                forall|a: int, b: int|
                    0 <= a < i && 0 <= b < values@.len() && a != b ==> values@[a]@ != values@[b]@,
                forall|b: int| i < b < j ==> values@[i as int]@ != values@[b]@,
            decreases values.len() - j,
        {
            if same_text(values[i].as_str(), values[j].as_str()) {
                assert(texts(values@)[i as int] == texts(values@)[j as int]);
                return false;
            }
            j = j + 1;
        }
        i = i + 1;
    }
    assert(forall|k: int| 0 <= k < values@.len() ==> texts(values@)[k] == values@[k]@);
    true
}

/// Whether two lists hold the same texts, each list every one of its texts once.
pub(crate) fn is_same_unique_set(left: &Vec<String>, right: &Vec<String>) -> (yes: bool)
    ensures
        yes == (exact_set(texts(left@), texts(right@)) && texts(right@).no_duplicates()),
{
    if !texts_are_distinct(left) || !texts_are_distinct(right) {
        return false;
    }
    let mut i: usize = 0;
    while i < left.len()
        invariant
            i <= left.len(),
            forall|k: int| 0 <= k < i ==> texts(right@).contains(#[trigger] left@[k]@),
        decreases left.len() - i,
    {
        if !contains_text(right, left[i].as_str()) {
            assert(texts(left@)[i as int] == left@[i as int]@);
            assert(texts(left@).contains(left@[i as int]@));
            return false;
        }
        i = i + 1;
    }
    i = 0;
    while i < right.len()
        invariant
            i <= right.len(),
            forall|k: int| 0 <= k < i ==> texts(left@).contains(#[trigger] right@[k]@),
        decreases right.len() - i,
    {
        if !contains_text(left, right[i].as_str()) {
            assert(texts(right@)[i as int] == right@[i as int]@);
            assert(texts(right@).contains(right@[i as int]@));
            return false;
        }
        i = i + 1;
    }
    proof {
        assert forall|v: Seq<char>| texts(left@).contains(v) <==> texts(right@).contains(v) by {
            if texts(left@).contains(v) {
                let k = choose|k: int| 0 <= k < texts(left@).len() && texts(left@)[k] == v;
                assert(left@[k]@ == v);
            }
            if texts(right@).contains(v) {
                let k = choose|k: int| 0 <= k < texts(right@).len() && texts(right@)[k] == v;
                assert(right@[k]@ == v);
            }
        }
    }
    true
}

/// The two-fan ABI names no endpoint twice.
pub(crate) proof fn lemma_two_fan_endpoints_are_distinct()
    ensures
        two_fan_endpoints().no_duplicates(),
{
    reveal_strlit("pwm1");
    reveal_strlit("pwm1_enable");
    reveal_strlit("fan1_input");
    reveal_strlit("pwm2");
    reveal_strlit("pwm2_enable");
    reveal_strlit("fan2_input");
    let names = two_fan_endpoints();
    assert(names[0][3] == '1' && names[3][3] == '2');
    assert(names[1][3] == '1' && names[4][3] == '2');
    assert(names[2][3] == '1' && names[5][3] == '2');
    assert(names[0].len() == 4 && names[3].len() == 4);
    assert(names[1].len() == 11 && names[4].len() == 11);
    assert(names[2].len() == 10 && names[5].len() == 10);
    assert forall|i: int, j: int| 0 <= i < 6 && 0 <= j < 6 && i != j implies names[i] != names[j] by {
        if names[i] == names[j] {
            assert(names[i].len() == names[j].len());
            assert(names[i][3] == names[j][3]);
        }
    }
}

fn contains_capability(values: &Vec<EscapeHatchCapability>, wanted: EscapeHatchCapability) -> (yes:
    bool)
    ensures
        yes == values@.contains(wanted),
{
    let mut i: usize = 0;
    while i < values.len()
        invariant
            i <= values.len(),
            forall|k: int| 0 <= k < i ==> values@[k] != wanted,
        decreases values.len() - i,
    {
        if values[i] == wanted {
            assert(values@[i as int] == wanted);
            return true;
        }
        i = i + 1;
    }
    false
}

fn capabilities_are_distinct(values: &Vec<EscapeHatchCapability>) -> (yes: bool)
    ensures
        yes == values@.no_duplicates(),
{
    let mut i: usize = 0;
    while i < values.len()
        invariant
            i <= values.len(),
            forall|a: int, b: int|
                0 <= a < i && 0 <= b < values@.len() && a != b ==> values@[a] != values@[b],
        decreases values.len() - i,
    {
        let mut j: usize = i + 1;
        while j < values.len()
            invariant
                i < j <= values.len(),
                forall|a: int, b: int|
                    0 <= a < i && 0 <= b < values@.len() && a != b ==> values@[a] != values@[b],
                forall|b: int| i < b < j ==> values@[i as int] != values@[b],
            decreases values.len() - j,
        {
            if values[i] == values[j] {
                assert(values@[i as int] == values@[j as int]);
                return false;
            }
            j = j + 1;
        }
        i = i + 1;
    }
    true
}

fn forbids_every_escape_hatch(values: &Vec<EscapeHatchCapability>) -> (yes: bool)
    ensures
        yes == exact_set(values@, escape_hatches()),
{
    let all = contains_capability(values, EscapeHatchCapability::ForceCaps) && contains_capability(
        values,
        EscapeHatchCapability::EcRawMode,
    ) && contains_capability(values, EscapeHatchCapability::PredatorV4Override)
        && contains_capability(values, EscapeHatchCapability::DirectWmi) && contains_capability(
        values,
        EscapeHatchCapability::RawEc,
    ) && contains_capability(values, EscapeHatchCapability::ReplacementWmiModule)
        && contains_capability(values, EscapeHatchCapability::AlternateFanWriteBackend);
    proof {
        let hatches = escape_hatches();
        assert forall|v: EscapeHatchCapability| hatches.contains(v) by {
            let place = match v {
                EscapeHatchCapability::ForceCaps => 0int,
                EscapeHatchCapability::EcRawMode => 1,
                EscapeHatchCapability::PredatorV4Override => 2,
                EscapeHatchCapability::DirectWmi => 3,
                EscapeHatchCapability::RawEc => 4,
                EscapeHatchCapability::ReplacementWmiModule => 5,
                EscapeHatchCapability::AlternateFanWriteBackend => 6,
            };
            assert(hatches[place] == v);
        }
        if all {
            assert forall|v: EscapeHatchCapability| values@.contains(v) by {
                match v {
                    EscapeHatchCapability::ForceCaps => {},
                    EscapeHatchCapability::EcRawMode => {},
                    EscapeHatchCapability::PredatorV4Override => {},
                    EscapeHatchCapability::DirectWmi => {},
                    EscapeHatchCapability::RawEc => {},
                    EscapeHatchCapability::ReplacementWmiModule => {},
                    EscapeHatchCapability::AlternateFanWriteBackend => {},
                }
            }
        }
    }
    all && capabilities_are_distinct(values)
}

/// What admission says of one observation held against a safe declaration: the first check that
/// fails, in the order in which the checks are made.
pub open spec fn observation_error(
    d: DeclarationModel,
    o: CompatibilityObservation,
) -> Option<CompatibilityAdmissionError> {
    if d.product != o.hardware.dmi_product_name@ {
        Some(CompatibilityAdmissionError::Mismatch { field: "hardware.dmi_product_name" })
    } else if d.board != o.hardware.dmi_board_name@ {
        Some(CompatibilityAdmissionError::Mismatch { field: "hardware.dmi_board_name" })
    } else if d.bios != o.hardware.bios_version@ {
        Some(CompatibilityAdmissionError::Mismatch { field: "hardware.bios_version" })
    } else if d.kernel.release != o.kernel.release@ {
        Some(CompatibilityAdmissionError::Mismatch { field: "kernel.release" })
    } else if d.kernel.package != o.kernel.package@ {
        Some(CompatibilityAdmissionError::Mismatch { field: "kernel.package" })
    } else if d.kernel.source_commit != o.kernel.source_commit@ {
        Some(CompatibilityAdmissionError::Mismatch { field: "kernel.source_commit" })
    } else if d.kernel.image_sha256 != o.kernel.image_sha256@ {
        Some(CompatibilityAdmissionError::Mismatch { field: "kernel.image_sha256" })
    } else if d.kernel.image_signer_fingerprint != o.kernel.image_signer_fingerprint@ {
        Some(CompatibilityAdmissionError::Mismatch { field: "kernel.image_signer_fingerprint" })
    } else if d.module.name != o.module.name@ {
        Some(CompatibilityAdmissionError::Mismatch { field: "module.name" })
    } else if d.module.path != o.module.path@ {
        Some(CompatibilityAdmissionError::Mismatch { field: "module.path" })
    } else if d.module.sha256 != o.module.sha256@ {
        Some(CompatibilityAdmissionError::Mismatch { field: "module.sha256" })
    } else if d.module.signer_fingerprint != o.module.signer_fingerprint@ {
        Some(CompatibilityAdmissionError::Mismatch { field: "module.signer_fingerprint" })
    } else if d.module.vermagic != o.module.vermagic@ {
        Some(CompatibilityAdmissionError::Mismatch { field: "module.vermagic" })
    } else if d.module.provenance != o.module.provenance {
        Some(CompatibilityAdmissionError::Mismatch { field: "module.provenance" })
    } else if !o.secure_boot_enabled {
        Some(CompatibilityAdmissionError::Untrusted { field: "secure_boot.enabled" })
    } else if !o.kernel_image_trusted {
        Some(CompatibilityAdmissionError::Untrusted { field: "secure_boot.kernel_image_trusted" })
    } else if !o.module_signature_trusted {
        Some(
            CompatibilityAdmissionError::Untrusted {
                field: "secure_boot.module_signature_trusted",
            },
        )
    } else if o.capability_evidence_completeness != EvidenceCompleteness::Complete {
        Some(CompatibilityAdmissionError::IncompleteEvidence { field: "fan_control.capabilities" })
    } else if o.enabled_capabilities@.len() > 0 {
        Some(
            CompatibilityAdmissionError::ForbiddenCapability {
                capability: o.enabled_capabilities@[0],
            },
        )
    } else if o.backend_evidence_completeness != EvidenceCompleteness::Complete {
        Some(CompatibilityAdmissionError::IncompleteEvidence { field: "fan_control.backends" })
    } else if first_foreign_backend(o.backends@) is Some {
        Some(
            CompatibilityAdmissionError::UnsupportedBackend {
                backend: first_foreign_backend(o.backends@)->0,
            },
        )
    } else if o.backends@.len() == 0 {
        Some(CompatibilityAdmissionError::MissingBackend)
    } else if o.backends@.len() > 1 {
        Some(CompatibilityAdmissionError::AmbiguousBackends { count: o.backends@.len() as usize })
    } else if d.hwmon_name != o.fan_abi.hwmon_name@ {
        Some(CompatibilityAdmissionError::Mismatch { field: "fan_control.hwmon_name" })
    } else if !(exact_set(d.endpoints, texts(o.fan_abi.endpoints@)) && texts(
        o.fan_abi.endpoints@,
    ).no_duplicates()) {
        Some(CompatibilityAdmissionError::Mismatch { field: "fan_control.endpoints" })
    } else {
        None
    }
}

/// The first backend that is not the standard Acer hwmon one.
pub open spec fn first_foreign_backend(backends: Seq<FanWriteBackend>) -> Option<FanWriteBackend>
    decreases backends.len(),
{
    if backends.len() == 0 {
        None
    } else if backends[0] != FanWriteBackend::AcerHwmon {
        Some(backends[0])
    } else {
        first_foreign_backend(backends.drop_first())
    }
}

/// The outcome of admission.
pub open spec fn admission_error(
    d: DeclarationModel,
    observations: Seq<CompatibilityObservation>,
) -> Option<CompatibilityAdmissionError> {
    match declaration_error(d) {
        Some(CompatibilityDeclarationError::Unsafe { field, reason }) => Some(
            CompatibilityAdmissionError::UnsafeDeclaration { field },
        ),
        None => if observations.len() == 0 {
            Some(CompatibilityAdmissionError::MissingObservation)
        } else if observations.len() > 1 {
            Some(
                CompatibilityAdmissionError::AmbiguousObservations {
                    count: observations.len() as usize,
                },
            )
        } else {
            observation_error(d, observations[0])
        },
    }
}

/// Only one machine is ever admitted: the declared one, with Secure Boot trust throughout, no fan
/// path but the standard Acer hwmon one, and exactly the two-fan endpoints.
pub proof fn admitted_machine_is_the_declared_one(
    d: DeclarationModel,
    observations: Seq<CompatibilityObservation>,
)
    requires
        admission_error(d, observations) is None,
    ensures
        observations.len() == 1,
        observations[0].hardware.dmi_product_name@ == "Predator PT315-53"@,
        observations[0].hardware.dmi_board_name@ == "Civic_TLS"@,
        observations[0].hardware.bios_version@ == "V1.17"@,
        observations[0].kernel@ == d.kernel,
        observations[0].module@ == d.module,
        qualified_release(observations[0].kernel.release@),
        observations[0].module.provenance == ModuleProvenance::InTree,
        observations[0].secure_boot_enabled && observations[0].kernel_image_trusted
            && observations[0].module_signature_trusted,
        observations[0].enabled_capabilities@.len() == 0,
        observations[0].backends@ == seq![FanWriteBackend::AcerHwmon],
        exact_set(texts(observations[0].fan_abi.endpoints@), two_fan_endpoints()),
{
    let o = observations[0];
    assert(first_foreign_backend(o.backends@) is None);
    assert(o.backends@.len() == 1);
    assert(o.backends@ =~= seq![FanWriteBackend::AcerHwmon]);
}

fn mismatch(field: &'static str) -> (result: Result<
    AdmittedCompatibility,
    CompatibilityAdmissionError,
>)
    ensures
        result == Err::<AdmittedCompatibility, CompatibilityAdmissionError>(
            CompatibilityAdmissionError::Mismatch { field },
        ),
{
    Err(CompatibilityAdmissionError::Mismatch { field })
}

fn find_foreign_backend(backends: &Vec<FanWriteBackend>) -> (found: Option<FanWriteBackend>)
    ensures
        found == first_foreign_backend(backends@),
{
    let mut i: usize = 0;
    assert(backends@.skip(0) =~= backends@);
    while i < backends.len()
        invariant
            i <= backends.len(),
            first_foreign_backend(backends@) == first_foreign_backend(backends@.skip(i as int)),
        decreases backends.len() - i,
    {
        proof {
            let rest = backends@.skip(i as int);
            assert(rest[0] == backends@[i as int]);
            assert(rest.drop_first() =~= backends@.skip(i + 1));
        }
        if backends[i] != FanWriteBackend::AcerHwmon {
            return Some(backends[i]);
        }
        i = i + 1;
    }
    None
}

/// Admits exactly one observation that matches a safe declaration in every field.
pub fn admit_compatibility(
    declaration: &CompatibilityDeclarationV1,
    observations: &[CompatibilityObservation],
) -> (result: Result<AdmittedCompatibility, CompatibilityAdmissionError>)
    ensures
        match admission_error(declaration@, observations@) {
            Some(error) => result == Err::<AdmittedCompatibility, CompatibilityAdmissionError>(
                error,
            ),
            None => result is Ok,
        },
{
    match validate_declaration(declaration) {
        Err(CompatibilityDeclarationError::Unsafe { field, reason: _ }) => {
            return Err(CompatibilityAdmissionError::UnsafeDeclaration { field });
        },
        Ok(()) => {},
    }
    if observations.len() == 0 {
        return Err(CompatibilityAdmissionError::MissingObservation);
    }
    if observations.len() > 1 {
        return Err(
            CompatibilityAdmissionError::AmbiguousObservations { count: observations.len() },
        );
    }
    let observation = &observations[0];
    if !same_text(
        declaration.hardware.dmi_product_name.as_str(),
        observation.hardware.dmi_product_name.as_str(),
    ) {
        return mismatch("hardware.dmi_product_name");
    }
    if !same_text(
        declaration.hardware.dmi_board_name.as_str(),
        observation.hardware.dmi_board_name.as_str(),
    ) {
        return mismatch("hardware.dmi_board_name");
    }
    if !same_text(
        declaration.hardware.bios_version.as_str(),
        observation.hardware.bios_version.as_str(),
    ) {
        return mismatch("hardware.bios_version");
    }
    if !same_text(declaration.kernel.release.as_str(), observation.kernel.release.as_str()) {
        return mismatch("kernel.release");
    }
    if !same_text(declaration.kernel.package.as_str(), observation.kernel.package.as_str()) {
        return mismatch("kernel.package");
    }
    if !same_text(
        declaration.kernel.source_commit.as_str(),
        observation.kernel.source_commit.as_str(),
    ) {
        return mismatch("kernel.source_commit");
    }
    if !same_text(
        declaration.kernel.image_sha256.as_str(),
        observation.kernel.image_sha256.as_str(),
    ) {
        return mismatch("kernel.image_sha256");
    }
    if !same_text(
        declaration.kernel.image_signer_fingerprint.as_str(),
        observation.kernel.image_signer_fingerprint.as_str(),
    ) {
        return mismatch("kernel.image_signer_fingerprint");
    }
    if !same_text(declaration.module.name.as_str(), observation.module.name.as_str()) {
        return mismatch("module.name");
    }
    if !same_text(declaration.module.path.as_str(), observation.module.path.as_str()) {
        return mismatch("module.path");
    }
    if !same_text(declaration.module.sha256.as_str(), observation.module.sha256.as_str()) {
        return mismatch("module.sha256");
    }
    if !same_text(
        declaration.module.signer_fingerprint.as_str(),
        observation.module.signer_fingerprint.as_str(),
    ) {
        return mismatch("module.signer_fingerprint");
    }
    if !same_text(declaration.module.vermagic.as_str(), observation.module.vermagic.as_str()) {
        return mismatch("module.vermagic");
    }
    if declaration.module.provenance != observation.module.provenance {
        return mismatch("module.provenance");
    }
    if !observation.secure_boot_enabled {
        return Err(CompatibilityAdmissionError::Untrusted { field: "secure_boot.enabled" });
    }
    if !observation.kernel_image_trusted {
        return Err(
            CompatibilityAdmissionError::Untrusted { field: "secure_boot.kernel_image_trusted" },
        );
    }
    if !observation.module_signature_trusted {
        return Err(
            CompatibilityAdmissionError::Untrusted {
                field: "secure_boot.module_signature_trusted",
            },
        );
    }
    if observation.capability_evidence_completeness != EvidenceCompleteness::Complete {
        return Err(
            CompatibilityAdmissionError::IncompleteEvidence { field: "fan_control.capabilities" },
        );
    }
    if observation.enabled_capabilities.len() > 0 {
        return Err(
            CompatibilityAdmissionError::ForbiddenCapability {
                capability: observation.enabled_capabilities[0],
            },
        );
    }
    if observation.backend_evidence_completeness != EvidenceCompleteness::Complete {
        return Err(
            CompatibilityAdmissionError::IncompleteEvidence { field: "fan_control.backends" },
        );
    }
    match find_foreign_backend(&observation.backends) {
        Some(backend) => {
            return Err(CompatibilityAdmissionError::UnsupportedBackend { backend });
        },
        None => {},
    }
    if observation.backends.len() == 0 {
        return Err(CompatibilityAdmissionError::MissingBackend);
    }
    if observation.backends.len() > 1 {
        return Err(
            CompatibilityAdmissionError::AmbiguousBackends { count: observation.backends.len() },
        );
    }
    if !same_text(
        declaration.fan_control.hwmon_name.as_str(),
        observation.fan_abi.hwmon_name.as_str(),
    ) {
        return mismatch("fan_control.hwmon_name");
    }
    if !is_same_unique_set(&declaration.fan_control.endpoints, &observation.fan_abi.endpoints) {
        return mismatch("fan_control.endpoints");
    }
    Ok(AdmittedCompatibility(()))
}

} // verus!
