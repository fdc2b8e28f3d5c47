//! Which machine the library accepts, told by names and numbers.

use vstd::prelude::*;
use crate::compatibility::{
    admission_error, declaration_error, observation_error, qualified_release, release_component_end,
    release_version, CompatibilityAdmissionError, CompatibilityObservation, DeclarationModel,
    EscapeHatchCapability, FanWriteBackend,
};
use crate::text::{is_alphanumeric, texts, unsigned_number};

verus! {

/// Whether a text is a number of lower-case hexadecimal characters.
pub open spec fn is_hexadecimal(text: Seq<char>, length: nat) -> bool {
    text.len() == length && forall|i: int|
        0 <= i < text.len() ==> ('0' <= #[trigger] text[i] && text[i] <= '9') || ('a' <= text[i]
            && text[i] <= 'f')
}

/// A declaration is safe exactly where it names the one qualified machine: product, board and BIOS, the
/// dedicated kernel of a recent release with its exact digests, the in-tree module that belongs to that
/// release, mandatory Secure Boot, the Acer hwmon backend with the six endpoints of two fans, and every
/// escape hatch forbidden, each listed once.
pub proof fn safe_declarations_name_the_qualified_machine(d: DeclarationModel)
    ensures
        declaration_error(d) is None <==> {
            &&& d.schema_version == 1
            &&& d.product == "Predator PT315-53"@
            &&& d.board == "Civic_TLS"@
            &&& d.bios == "V1.17"@
            &&& d.kernel.package == "linux-cachyos-pt31553"@
            &&& qualified_release(d.kernel.release)
            &&& is_hexadecimal(d.kernel.source_commit, 40)
            &&& is_hexadecimal(d.kernel.image_sha256, 64)
            &&& is_hexadecimal(d.kernel.image_signer_fingerprint, 64)
            &&& d.module.name == "acer_wmi"@
            &&& d.module.path == "/usr/lib/modules/"@ + d.kernel.release
                + "/kernel/drivers/platform/x86/acer-wmi.ko.zst"@
            &&& is_hexadecimal(d.module.sha256, 64)
            &&& is_hexadecimal(d.module.signer_fingerprint, 64)
            &&& d.module.vermagic.len() > d.kernel.release.len()
            &&& d.module.vermagic.take(d.kernel.release.len() as int) == d.kernel.release
            &&& d.module.vermagic[d.kernel.release.len() as int] == ' '
            &&& d.module.provenance is InTree
            &&& d.secure_boot_required
            &&& d.backend is AcerHwmon
            &&& d.hwmon_name == "acer"@
            &&& d.endpoints.no_duplicates()
            &&& forall|name: Seq<char>| #[trigger]
                d.endpoints.contains(name) <==> name == "pwm1"@ || name == "pwm1_enable"@ || name
                    == "fan1_input"@ || name == "pwm2"@ || name == "pwm2_enable"@ || name
                    == "fan2_input"@
            &&& d.forbidden_capabilities.no_duplicates()
            &&& forall|hatch: EscapeHatchCapability| #[trigger]
                d.forbidden_capabilities.contains(hatch)
        },
{
    let names = crate::compatibility::two_fan_endpoints();
    assert forall|name: Seq<char>| #[trigger] names.contains(name) <==> name == "pwm1"@ || name
        == "pwm1_enable"@ || name == "fan1_input"@ || name == "pwm2"@ || name == "pwm2_enable"@
        || name == "fan2_input"@ by {
        assert(names[0] == "pwm1"@ && names[1] == "pwm1_enable"@ && names[2] == "fan1_input"@);
        assert(names[3] == "pwm2"@ && names[4] == "pwm2_enable"@ && names[5] == "fan2_input"@);
    }
    let hatches = crate::compatibility::escape_hatches();
    assert forall|hatch: EscapeHatchCapability| #[trigger] hatches.contains(hatch) by {
        assert(hatches[0] is ForceCaps && hatches[1] is EcRawMode && hatches[2] is PredatorV4Override
            && hatches[3] is DirectWmi && hatches[4] is RawEc && hatches[5] is ReplacementWmiModule
            && hatches[6] is AlternateFanWriteBackend);
        match hatch {
            EscapeHatchCapability::ForceCaps => assert(hatches[0] == hatch),
            EscapeHatchCapability::EcRawMode => assert(hatches[1] == hatch),
            EscapeHatchCapability::PredatorV4Override => assert(hatches[2] == hatch),
            EscapeHatchCapability::DirectWmi => assert(hatches[3] == hatch),
            EscapeHatchCapability::RawEc => assert(hatches[4] == hatch),
            EscapeHatchCapability::ReplacementWmiModule => assert(hatches[5] == hatch),
            EscapeHatchCapability::AlternateFanWriteBackend => assert(hatches[6] == hatch),
        }
    }
}

proof fn lemma_component(release: Seq<char>, from: int)
    requires
        0 <= from <= release.len(),
    ensures
        from <= release_component_end(release, from) <= release.len(),
        forall|i: int|
            from <= i < release_component_end(release, from) ==> #[trigger] release[i] != '.'
                && release[i] != '-',
        release_component_end(release, from) < release.len() ==> release[release_component_end(
            release,
            from,
        )] == '.' || release[release_component_end(release, from)] == '-',
    decreases release.len() - from,
{
    if from < release.len() && release[from] != '.' && release[from] != '-' {
        lemma_component(release, from + 1);
    }
}

proof fn lemma_component_is(release: Seq<char>, from: int, end: int)
    requires
        0 <= from <= end <= release.len(),
        forall|i: int|
            from <= i < end ==> #[trigger] release[i] != '.' && release[i] != '-',
        end < release.len() ==> release[end] == '.' || release[end] == '-',
    ensures
        release_component_end(release, from) == end,
    decreases end - from,
{
    if from < end {
        assert(release[from] != '.');
        lemma_component_is(release, from + 1, end);
    }
}

/// A release is cut at its first two points or hyphens: what stands before the first is its major number,
/// what stands between the two its minor number. Of a release cut so, it is qualified exactly where the
/// two numbers say 6.19 or later, it ends in the name of the dedicated kernel, it starts with a digit and
/// ends in a letter or digit, and all its other characters are letters, digits and single separators.
pub proof fn qualified_releases_are_recent(release: Seq<char>, first: int, second: int)
    requires
        0 <= first < second <= release.len(),
        release[first] == '.' || release[first] == '-',
        second < release.len() ==> release[second] == '.' || release[second] == '-',
        forall|i: int|
            0 <= i < second && i != first ==> #[trigger] release[i] != '.' && release[i] != '-',
    ensures
        qualified_release(release) <==> {
            let major = unsigned_number(release.subrange(0, first), u32::MAX as nat);
            let minor = unsigned_number(release.subrange(first + 1, second), u32::MAX as nat);
            let name = "-cachyos-pt31553"@;
            &&& major is Some && minor is Some
            &&& major->0 >= 7 || (major->0 == 6 && minor->0 >= 19)
            &&& name.len() <= release.len()
            &&& release.skip(release.len() - name.len()) == name
            &&& '0' <= release[0] && release[0] <= '9'
            &&& is_alphanumeric(release[release.len() - 1])
            &&& forall|i: int|
                0 <= i < release.len() && !is_alphanumeric(#[trigger] release[i]) ==> {
                    &&& release[i] == '.' || release[i] == '-' || release[i] == '_' || release[i]
                        == '+'
                    &&& i < release.len() - 1 ==> is_alphanumeric(release[i + 1])
                }
        },
{
    lemma_component_is(release, 0, first);
    lemma_component_is(release, first + 1, second);
    assert(release_version(release) is Some <==> unsigned_number(
        release.subrange(0, first),
        u32::MAX as nat,
    ) is Some && unsigned_number(release.subrange(first + 1, second), u32::MAX as nat) is Some);
}

/// Every qualified release can be cut so.
pub proof fn qualified_releases_can_be_cut(release: Seq<char>) -> (cut: (int, int))
    requires
        qualified_release(release),
    ensures
        0 <= cut.0 < cut.1 <= release.len(),
        release[cut.0] == '.' || release[cut.0] == '-',
        cut.1 < release.len() ==> release[cut.1] == '.' || release[cut.1] == '-',
        forall|i: int|
            0 <= i < cut.1 && i != cut.0 ==> #[trigger] release[i] != '.' && release[i] != '-',
{
    let first = release_component_end(release, 0);
    lemma_component(release, 0);
    let second = release_component_end(release, first + 1);
    lemma_component(release, first + 1);
    assert(release.subrange(first + 1, second).len() == second - first - 1);
    (first, second)
}

proof fn lemma_only_hwmon(backends: Seq<FanWriteBackend>)
    ensures
        crate::compatibility::first_foreign_backend(backends) is None <==> forall|i: int|
            0 <= i < backends.len() ==> #[trigger] backends[i] is AcerHwmon,
    decreases backends.len(),
{
    if backends.len() > 0 {
        let rest = backends.drop_first();
        lemma_only_hwmon(rest);
        if backends[0] is AcerHwmon {
            if forall|i: int| 0 <= i < rest.len() ==> #[trigger] rest[i] is AcerHwmon {
                assert forall|i: int| 0 <= i < backends.len() implies #[trigger] backends[i] is AcerHwmon by {
                    if i > 0 {
                        assert(rest[i - 1] == backends[i]);
                    }
                }
            }
            if forall|i: int| 0 <= i < backends.len() ==> #[trigger] backends[i] is AcerHwmon {
                assert forall|i: int| 0 <= i < rest.len() implies #[trigger] rest[i] is AcerHwmon by {
                    assert(rest[i] == backends[i + 1]);
                }
            }
        }
    }
}

/// A machine is admitted exactly where its declaration is safe and one observation of it agrees in every
/// field, is trusted in all three ways, and shows by complete evidence no capability, one backend, and
/// that one the Acer hwmon device with the declared endpoints, each once.
pub proof fn admitted_machines_agree_in_every_field(
    d: DeclarationModel,
    observations: Seq<CompatibilityObservation>,
)
    ensures
        admission_error(d, observations) is None <==> {
            let o = observations[0];
            &&& declaration_error(d) is None
            &&& observations.len() == 1
            &&& o.hardware.dmi_product_name@ == d.product
            &&& o.hardware.dmi_board_name@ == d.board
            &&& o.hardware.bios_version@ == d.bios
            &&& o.kernel.release@ == d.kernel.release
            &&& o.kernel.package@ == d.kernel.package
            &&& o.kernel.source_commit@ == d.kernel.source_commit
            &&& o.kernel.image_sha256@ == d.kernel.image_sha256
            &&& o.kernel.image_signer_fingerprint@ == d.kernel.image_signer_fingerprint
            &&& o.module.name@ == d.module.name
            &&& o.module.path@ == d.module.path
            &&& o.module.sha256@ == d.module.sha256
            &&& o.module.signer_fingerprint@ == d.module.signer_fingerprint
            &&& o.module.vermagic@ == d.module.vermagic
            &&& o.module.provenance == d.module.provenance
            &&& o.secure_boot_enabled
            &&& o.kernel_image_trusted
            &&& o.module_signature_trusted
            &&& o.capability_evidence_completeness is Complete
            &&& o.enabled_capabilities@.len() == 0
            &&& o.backend_evidence_completeness is Complete
            &&& o.backends@.len() == 1
            &&& o.backends@[0] is AcerHwmon
            &&& o.fan_abi.hwmon_name@ == d.hwmon_name
            &&& d.endpoints.no_duplicates()
            &&& texts(o.fan_abi.endpoints@).no_duplicates()
            &&& forall|name: Seq<char>|
                d.endpoints.contains(name) <==> texts(o.fan_abi.endpoints@).contains(name)
        },
        declaration_error(d) is None && observations.len() == 0 ==> admission_error(d, observations)
            == Some(CompatibilityAdmissionError::MissingObservation),
        declaration_error(d) is None && observations.len() > 1 ==> admission_error(d, observations)
            matches Some(CompatibilityAdmissionError::AmbiguousObservations { .. }),
{
    if observations.len() == 1 {
        let o = observations[0];
        lemma_only_hwmon(o.backends@);
        assert(o.backends@.len() == 1 && o.backends@[0] is AcerHwmon ==> forall|i: int|
            0 <= i < o.backends@.len() ==> #[trigger] o.backends@[i] is AcerHwmon);
        assert(admission_error(d, observations) == if declaration_error(d) is None {
            observation_error(d, o)
        } else {
            admission_error(d, observations)
        });
    }
}

} // verus!
