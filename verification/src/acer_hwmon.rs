//! Discovery of the one Acer hwmon device and its exact two-fan ABI.

use vstd::prelude::*;
use vstd::string::*;
use crate::compatibility::{contains_text, two_fan_endpoint_names, two_fan_endpoints};
use crate::platform::{
    bound_listing_came, bound_listing_came_before, child_path, contents_came, contents_came_before,
    identity_came, identity_came_before, join_path, listing_came, listing_came_before,
    permissions_came, permissions_came_before, BoundedIdentityBoundFileAccess, FileIdentity,
    FilePermissions, IdentityBoundReadAccess, ListedEntry, PlatformError,
};
use crate::select::{kept, lemma_kept_ends, lemma_kept_step};
use crate::text::{
    all_digits, begins_with, char_is_digit, decimal, decimal_text, join, join3, same_text,
    starts_with_text,
};
use crate::machine::{group_grows, grows, Calls, MachineCall};

verus! {

broadcast use vstd::string::group_string_axioms;

/// One fan's control and tachometer files.
#[derive(Debug, PartialEq, Eq)]
pub struct FanEndpoints {
    pwm: String,
    pwm_identity: Option<FileIdentity>,
    enable: String,
    enable_identity: Option<FileIdentity>,
    tachometer: String,
    tachometer_identity: Option<FileIdentity>,
}

/// The contents of a fan's endpoints.
pub struct FanEndpointsModel {
    pub pwm: Seq<char>,
    pub pwm_identity: Option<FileIdentity>,
    pub enable: Seq<char>,
    pub enable_identity: Option<FileIdentity>,
    pub tachometer: Seq<char>,
    pub tachometer_identity: Option<FileIdentity>,
}

impl View for FanEndpoints {
    type V = FanEndpointsModel;

    closed spec fn view(&self) -> FanEndpointsModel {
        FanEndpointsModel {
            pwm: self.pwm@,
            pwm_identity: self.pwm_identity,
            enable: self.enable@,
            enable_identity: self.enable_identity,
            tachometer: self.tachometer@,
            tachometer_identity: self.tachometer_identity,
        }
    }
}

impl FanEndpoints {
    pub fn pwm(&self) -> (path: &str)
        ensures
            path@ == self@.pwm,
    {
        self.pwm.as_str()
    }

    pub fn enable(&self) -> (path: &str)
        ensures
            path@ == self@.enable,
    {
        self.enable.as_str()
    }

    pub fn tachometer(&self) -> (path: &str)
        ensures
            path@ == self@.tachometer,
    {
        self.tachometer.as_str()
    }

    pub(crate) fn pwm_identity(&self) -> (identity: Option<FileIdentity>)
        ensures
            identity == self@.pwm_identity,
    {
        self.pwm_identity
    }

    pub(crate) fn enable_identity(&self) -> (identity: Option<FileIdentity>)
        ensures
            identity == self@.enable_identity,
    {
        self.enable_identity
    }

    pub(crate) fn tachometer_identity(&self) -> (identity: Option<FileIdentity>)
        ensures
            identity == self@.tachometer_identity,
    {
        self.tachometer_identity
    }
}

impl Clone for FanEndpoints {
    fn clone(&self) -> (copy: FanEndpoints)
        ensures
            copy@ == self@,
    {
        FanEndpoints {
            pwm: self.pwm.clone(),
            pwm_identity: self.pwm_identity,
            enable: self.enable.clone(),
            enable_identity: self.enable_identity,
            tachometer: self.tachometer.clone(),
            tachometer_identity: self.tachometer_identity,
        }
    }
}

/// The discovered device.
#[derive(Debug, PartialEq, Eq)]
pub struct AcerHwmonDevice {
    hwmon_root: String,
    root: String,
    backing_identity: FileIdentity,
    cpu: FanEndpoints,
    gpu: FanEndpoints,
}

/// The contents of a device.
pub struct DeviceModel {
    pub hwmon_root: Seq<char>,
    pub root: Seq<char>,
    pub backing_identity: FileIdentity,
    pub cpu: FanEndpointsModel,
    pub gpu: FanEndpointsModel,
}

impl View for AcerHwmonDevice {
    type V = DeviceModel;

    closed spec fn view(&self) -> DeviceModel {
        DeviceModel {
            hwmon_root: self.hwmon_root@,
            root: self.root@,
            backing_identity: self.backing_identity,
            cpu: self.cpu@,
            gpu: self.gpu@,
        }
    }
}

/// Whether a fan's endpoints are the canonical children of a root, each bound to an identity.
pub open spec fn endpoints_are_bound(
    endpoints: FanEndpointsModel,
    root: Seq<char>,
    channel: nat,
) -> bool {
    &&& endpoints.pwm == child_path(root, "pwm"@ + decimal_text(channel))
    &&& endpoints.enable == child_path(root, "pwm"@ + decimal_text(channel) + "_enable"@)
    &&& endpoints.tachometer == child_path(root, "fan"@ + decimal_text(channel) + "_input"@)
    &&& endpoints.pwm_identity is Some
    &&& endpoints.enable_identity is Some
    &&& endpoints.tachometer_identity is Some
}

/// Whether a device's two fans are bound under its root.
pub open spec fn device_is_bound(device: DeviceModel) -> bool {
    endpoints_are_bound(device.cpu, device.root, 1) && endpoints_are_bound(
        device.gpu,
        device.root,
        2,
    )
}

/// The identity that an endpoint path is bound to.
pub open spec fn bound_identity(device: DeviceModel, path: Seq<char>) -> Option<FileIdentity> {
    if path == device.cpu.pwm {
        device.cpu.pwm_identity
    } else if path == device.cpu.enable {
        device.cpu.enable_identity
    } else if path == device.cpu.tachometer {
        device.cpu.tachometer_identity
    } else if path == device.gpu.pwm {
        device.gpu.pwm_identity
    } else if path == device.gpu.enable {
        device.gpu.enable_identity
    } else if path == device.gpu.tachometer {
        device.gpu.tachometer_identity
    } else {
        None
    }
}

impl Clone for AcerHwmonDevice {
    fn clone(&self) -> (copy: AcerHwmonDevice)
        ensures
            copy@ == self@,
    {
        AcerHwmonDevice {
            hwmon_root: self.hwmon_root.clone(),
            root: self.root.clone(),
            backing_identity: self.backing_identity,
            cpu: self.cpu.clone(),
            gpu: self.gpu.clone(),
        }
    }
}

impl AcerHwmonDevice {
    pub fn root(&self) -> (path: &str)
        ensures
            path@ == self@.root,
    {
        self.root.as_str()
    }

    pub fn cpu(&self) -> (endpoints: &FanEndpoints)
        ensures
            endpoints@ == self@.cpu,
    {
        &self.cpu
    }

    pub fn gpu(&self) -> (endpoints: &FanEndpoints)
        ensures
            endpoints@ == self@.gpu,
    {
        &self.gpu
    }

    pub(crate) fn backing_identity(&self) -> (identity: FileIdentity)
        ensures
            identity == self@.backing_identity,
    {
        self.backing_identity
    }

    /// The identity that an endpoint path is bound to.
    pub fn endpoint_identity(&self, path: &str) -> (identity: Option<FileIdentity>)
        ensures
            identity == bound_identity(self@, path@),
    {
        if same_text(path, self.cpu.pwm.as_str()) {
            self.cpu.pwm_identity
        } else if same_text(path, self.cpu.enable.as_str()) {
            self.cpu.enable_identity
        } else if same_text(path, self.cpu.tachometer.as_str()) {
            self.cpu.tachometer_identity
        } else if same_text(path, self.gpu.pwm.as_str()) {
            self.gpu.pwm_identity
        } else if same_text(path, self.gpu.enable.as_str()) {
            self.gpu.enable_identity
        } else if same_text(path, self.gpu.tachometer.as_str()) {
            self.gpu.tachometer_identity
        } else {
            None
        }
    }

    /// The six bound endpoints: child names with their identities.
    pub(crate) fn endpoint_bindings(&self) -> (bindings: Vec<(String, FileIdentity)>)
        requires
            device_is_bound(self@),
        ensures
            bindings@.len() == 6,
            forall|i: int|
                0 <= i < 6 ==> (#[trigger] bindings@[i]).0@ == two_fan_endpoints()[i],
            bindings@[0].1 == self@.cpu.pwm_identity->0,
            bindings@[1].1 == self@.cpu.enable_identity->0,
            bindings@[2].1 == self@.cpu.tachometer_identity->0,
            bindings@[3].1 == self@.gpu.pwm_identity->0,
            bindings@[4].1 == self@.gpu.enable_identity->0,
            bindings@[5].1 == self@.gpu.tachometer_identity->0,
    {
        let mut bindings: Vec<(String, FileIdentity)> = Vec::new();
        bindings.push(("pwm1".to_owned(), self.cpu.pwm_identity.unwrap()));
        bindings.push(("pwm1_enable".to_owned(), self.cpu.enable_identity.unwrap()));
        bindings.push(("fan1_input".to_owned(), self.cpu.tachometer_identity.unwrap()));
        bindings.push(("pwm2".to_owned(), self.gpu.pwm_identity.unwrap()));
        bindings.push(("pwm2_enable".to_owned(), self.gpu.enable_identity.unwrap()));
        bindings.push(("fan2_input".to_owned(), self.gpu.tachometer_identity.unwrap()));
        bindings
    }

    /// Whether the device is still the only one, with the same ABI and endpoint identities.
    ///
    /// An endpoint set that was never bound is never current.
    pub fn abi_is_current_before<F>(&self, files: &mut F, deadline: u128) -> (result: Result<
        bool,
        AcerHwmonDiscoveryError,
    >) where F: BoundedIdentityBoundFileAccess + ?Sized
        requires
            device_is_bound(self@),
        ensures
            grows(old(files).history(), final(files).history()),
            device_is_judged(
                old(files).history(),
                final(files).history(),
                self@,
                deadline,
                answer_of(result),
            ),
    {
        broadcast use group_grows;

        let search = find_acer_devices_before(files, self.hwmon_root.as_str(), deadline);
        assert(search_is_made_before(
            old(files).history(),
            files.history(),
            self@.hwmon_root,
            deadline,
            search_of(search),
        ));
        let matches = match search {
            Ok(matches) => matches,
            Err(error) => {
                return Err(error);
            },
        };
        match same_only_device(&matches, self.root.as_str(), self.backing_identity) {
            Ok(true) => {},
            other => {
                return other;
            },
        }
        match validate_exact_two_fan_abi_before(files, self, deadline) {
            Ok(()) => {},
            Err(error) => {
                return Err(error);
            },
        }
        match endpoints_are_current(files, &self.cpu, deadline) {
            Ok(true) => {},
            other => {
                return other;
            },
        }
        endpoints_are_current(files, &self.gpu, deadline)
    }
}

fn endpoints_are_current<F>(
    files: &mut F,
    endpoints: &FanEndpoints,
    deadline: u128,
) -> (result: Result<
    bool,
    AcerHwmonDiscoveryError,
>) where F: BoundedIdentityBoundFileAccess + ?Sized
    ensures
        grows(old(files).history(), final(files).history()),
        fan_is_judged(
            old(files).history(),
            final(files).history(),
            endpoints@,
            deadline,
            answer_of(result),
        ),
{
    broadcast use group_grows;

    match identity_is_current(files, endpoints.pwm(), endpoints.pwm_identity(), deadline) {
        Ok(true) => {},
        other => {
            return other;
        },
    }
    match identity_is_current(files, endpoints.enable(), endpoints.enable_identity(), deadline) {
        Ok(true) => {},
        other => {
            return other;
        },
    }
    identity_is_current(files, endpoints.tachometer(), endpoints.tachometer_identity(), deadline)
}

fn identity_is_current<F>(
    files: &mut F,
    path: &str,
    expected: Option<FileIdentity>,
    deadline: u128,
) -> (result: Result<bool, AcerHwmonDiscoveryError>) where
    F: BoundedIdentityBoundFileAccess + ?Sized,

    ensures
        grows(old(files).history(), final(files).history()),
        identity_is_judged(
            old(files).history(),
            final(files).history(),
            path@,
            expected,
            deadline,
            answer_of(result),
        ),
{
    broadcast use group_grows;

    let ghost asked = files.history();
    let answer = files.identity_before(path, deadline);
    assert(identity_came_before(asked, files.history(), path@, deadline, answer));
    match answer {
        Err(error) => Err(AcerHwmonDiscoveryError::Platform(error)),
        Ok(actual) => match expected {
            Some(expected) => Ok(actual == expected),
            None => Ok(false),
        },
    }
}

#[derive(Debug, PartialEq, Eq)]
pub enum AcerHwmonDiscoveryError {
    Platform(PlatformError),
    NoDevice,
    AmbiguousDevices { count: usize },
    InvalidAbi { path: String, reason: String },
    InvalidPermissions { path: String, expected: FilePermissions, actual: FilePermissions },
}

impl AcerHwmonDiscoveryError {
    /// The text of the message.
    pub open spec fn text(self) -> Seq<char> {
        discovery_text(self@)
    }

    /// The message shown to an operator.
    pub fn message(&self) -> (text: String)
        ensures
            text@ == self.text(),
    {
        match self {
            AcerHwmonDiscoveryError::Platform(error) => join(
                "hwmon discovery failed: ",
                error.message(),
            ),
            AcerHwmonDiscoveryError::NoDevice => "no Acer hwmon device found".to_owned(),
            AcerHwmonDiscoveryError::AmbiguousDevices { count } => join3(
                "found ",
                decimal(*count as u64).as_str(),
                " Acer hwmon devices",
            ),
            AcerHwmonDiscoveryError::InvalidAbi { path, reason } => {
                let mut text = join3("invalid Acer hwmon ABI at ", path.as_str(), ": ");
                text.append(reason.as_str());
                text
            },
            AcerHwmonDiscoveryError::InvalidPermissions { path, expected, actual } => {
                let mut text = join3("invalid permissions for ", path.as_str(), ": expected ");
                text.append(expected.name());
                text.append(", got ");
                text.append(actual.name());
                text
            },
        }
    }
}

/// The contents of a discovery error.
pub enum DiscoveryErrorModel {
    Platform(PlatformError),
    NoDevice,
    AmbiguousDevices { count: int },
    InvalidAbi { path: Seq<char>, reason: Seq<char> },
    InvalidPermissions { path: Seq<char>, expected: FilePermissions, actual: FilePermissions },
}

impl View for AcerHwmonDiscoveryError {
    type V = DiscoveryErrorModel;

    open spec fn view(&self) -> DiscoveryErrorModel {
        match *self {
            AcerHwmonDiscoveryError::Platform(error) => DiscoveryErrorModel::Platform(error),
            AcerHwmonDiscoveryError::NoDevice => DiscoveryErrorModel::NoDevice,
            AcerHwmonDiscoveryError::AmbiguousDevices { count } =>
                DiscoveryErrorModel::AmbiguousDevices { count: count as int },
            AcerHwmonDiscoveryError::InvalidAbi { path, reason } =>
                DiscoveryErrorModel::InvalidAbi { path: path@, reason: reason@ },
            AcerHwmonDiscoveryError::InvalidPermissions { path, expected, actual } =>
                DiscoveryErrorModel::InvalidPermissions { path: path@, expected, actual },
        }
    }
}

impl Clone for AcerHwmonDiscoveryError {
    fn clone(&self) -> (copy: AcerHwmonDiscoveryError)
        ensures
            copy@ == self@,
    {
        match self {
            AcerHwmonDiscoveryError::Platform(error) => AcerHwmonDiscoveryError::Platform(
                error.clone(),
            ),
            AcerHwmonDiscoveryError::NoDevice => AcerHwmonDiscoveryError::NoDevice,
            AcerHwmonDiscoveryError::AmbiguousDevices { count } =>
                AcerHwmonDiscoveryError::AmbiguousDevices { count: *count },
            AcerHwmonDiscoveryError::InvalidAbi { path, reason } =>
                AcerHwmonDiscoveryError::InvalidAbi { path: path.clone(), reason: reason.clone() },
            AcerHwmonDiscoveryError::InvalidPermissions { path, expected, actual } =>
                AcerHwmonDiscoveryError::InvalidPermissions {
                path: path.clone(),
                expected: *expected,
                actual: *actual,
            },
        }
    }
}

/// The text of a discovery error's message.
pub open spec fn discovery_text(error: DiscoveryErrorModel) -> Seq<char> {
    match error {
        DiscoveryErrorModel::Platform(error) => "hwmon discovery failed: "@ + error.detail@,
        DiscoveryErrorModel::NoDevice => "no Acer hwmon device found"@,
        DiscoveryErrorModel::AmbiguousDevices { count } => "found "@ + decimal_text(count as nat)
            + " Acer hwmon devices"@,
        DiscoveryErrorModel::InvalidAbi { path, reason } => "invalid Acer hwmon ABI at "@ + path
            + ": "@ + reason,
        DiscoveryErrorModel::InvalidPermissions { path, expected, actual } =>
            "invalid permissions for "@ + path + ": expected "@ + expected.label() + ", got "@
            + actual.label(),
    }
}

/// Why a check failed.
pub open spec fn error_of(result: Result<(), AcerHwmonDiscoveryError>) -> Option<
    DiscoveryErrorModel,
> {
    match result {
        Ok(()) => None,
        Err(error) => Some(error@),
    }
}

/// What a question about the device was answered.
pub open spec fn answer_of(result: Result<bool, AcerHwmonDiscoveryError>) -> Result<
    bool,
    DiscoveryErrorModel,
> {
    match result {
        Ok(yes) => Ok(yes),
        Err(error) => Err(error@),
    }
}

/// Whether a file's permissions were asked for, and an error is what they give.
pub open spec fn permissions_are_judged(
    before: Calls,
    after: Calls,
    path: Seq<char>,
    expected: FilePermissions,
    error: Option<DiscoveryErrorModel>,
) -> bool {
    exists|answer: Result<FilePermissions, PlatformError>|
        #[trigger] permissions_came(before, after, path, answer) && error == permission_error(
            path,
            expected,
            answer,
        )
}

/// The same for a bound child and a deadline.
pub open spec fn permissions_are_judged_before(
    before: Calls,
    after: Calls,
    root: Seq<char>,
    identity: FileIdentity,
    child: Seq<char>,
    child_identity: FileIdentity,
    expected: FilePermissions,
    deadline: u128,
    error: Option<DiscoveryErrorModel>,
) -> bool {
    exists|answer: Result<FilePermissions, PlatformError>|
        #[trigger] permissions_came_before(
            before,
            after,
            root,
            identity,
            child,
            child_identity,
            deadline,
            answer,
        ) && error == permission_error(child_path(root, child), expected, answer)
}

/// What permissions give: an error unless they are the expected ones.
pub open spec fn permission_error(
    path: Seq<char>,
    expected: FilePermissions,
    answer: Result<FilePermissions, PlatformError>,
) -> Option<DiscoveryErrorModel> {
    match answer {
        Err(error) => Some(DiscoveryErrorModel::Platform(error)),
        Ok(actual) => if actual == expected {
            None
        } else {
            Some(DiscoveryErrorModel::InvalidPermissions { path, expected, actual })
        },
    }
}

/// Whether the permissions of a channel's endpoints were asked for in order, up to the first error.
pub open spec fn channel_is_judged(
    before: Calls,
    after: Calls,
    root: Seq<char>,
    channel: nat,
    error: Option<DiscoveryErrorModel>,
) -> bool {
    let pwm = child_path(root, "pwm"@ + decimal_text(channel));
    ||| error is Some && permissions_are_judged(
        before,
        after,
        pwm,
        FilePermissions::ReadWrite,
        error,
    )
    ||| exists|between: Calls|
        #[trigger] permissions_are_judged(before, between, pwm, FilePermissions::ReadWrite, None)
            && channel_is_judged_further(between, after, root, channel, error)
}

/// The part of that on the mode and the tachometer.
pub open spec fn channel_is_judged_further(
    before: Calls,
    after: Calls,
    root: Seq<char>,
    channel: nat,
    error: Option<DiscoveryErrorModel>,
) -> bool {
    let enable = child_path(root, "pwm"@ + decimal_text(channel) + "_enable"@);
    let tachometer = child_path(root, "fan"@ + decimal_text(channel) + "_input"@);
    ||| error is Some && permissions_are_judged(
        before,
        after,
        enable,
        FilePermissions::ReadWrite,
        error,
    )
    ||| exists|between: Calls|
        #[trigger] permissions_are_judged(before, between, enable, FilePermissions::ReadWrite, None)
            && permissions_are_judged(
            between,
            after,
            tachometer,
            FilePermissions::ReadOnly,
            error,
        )
}

/// Whether both channels were asked for in order, up to the first error.
pub open spec fn channels_are_judged(
    before: Calls,
    after: Calls,
    root: Seq<char>,
    error: Option<DiscoveryErrorModel>,
) -> bool {
    ||| error is Some && channel_is_judged(before, after, root, 1, error)
    ||| exists|between: Calls|
        #[trigger] channel_is_judged(before, between, root, 1, None) && channel_is_judged(
            between,
            after,
            root,
            2,
            error,
        )
}

/// Whether a device's directory was checked in order, up to the first error: its entries, the
/// permissions of its endpoints, its name and that name's permissions, and the endpoints again.
pub open spec fn abi_is_judged(
    before: Calls,
    after: Calls,
    root: Seq<char>,
    identity: FileIdentity,
    error: Option<DiscoveryErrorModel>,
) -> bool {
    exists|listed: Calls, listing: Result<Vec<ListedEntry>, PlatformError>|
        #[trigger] bound_listing_came(before, listed, root, identity, listing) && match listing {
            Err(e) => after == listed && error == Some(DiscoveryErrorModel::Platform(e)),
            Ok(entries) => match names_error(root, entries@) {
                Some(reason) => after == listed && error == Some(
                    DiscoveryErrorModel::InvalidAbi { path: root, reason },
                ),
                None => listed_abi_is_judged(listed, after, root, identity, error),
            },
        }
}

/// The part of that check after the entries.
pub open spec fn listed_abi_is_judged(
    before: Calls,
    after: Calls,
    root: Seq<char>,
    identity: FileIdentity,
    error: Option<DiscoveryErrorModel>,
) -> bool {
    ||| error is Some && channels_are_judged(before, after, root, error)
    ||| exists|between: Calls|
        #[trigger] channels_are_judged(before, between, root, None) && name_is_judged(
            between,
            after,
            root,
            identity,
            error,
        )
}

/// The part of that check from the name on.
pub open spec fn name_is_judged(
    before: Calls,
    after: Calls,
    root: Seq<char>,
    identity: FileIdentity,
    error: Option<DiscoveryErrorModel>,
) -> bool {
    exists|read: Calls, name: Result<String, PlatformError>|
        #[trigger] contents_came(before, read, root, identity, "name"@, name) && match name {
            Err(e) => after == read && error == Some(DiscoveryErrorModel::Platform(e)),
            Ok(text) => if text@ != "acer\n"@ {
                after == read && error == Some(
                    DiscoveryErrorModel::InvalidAbi {
                        path: root,
                        reason: "Acer identity changed during discovery"@,
                    },
                )
            } else {
                named_abi_is_judged(read, after, root, error)
            },
        }
}

/// The part of that check after the name.
pub open spec fn named_abi_is_judged(
    before: Calls,
    after: Calls,
    root: Seq<char>,
    error: Option<DiscoveryErrorModel>,
) -> bool {
    let path = child_path(root, "name"@);
    ||| error is Some && permissions_are_judged(
        before,
        after,
        path,
        FilePermissions::ReadOnly,
        error,
    )
    ||| exists|between: Calls|
        #[trigger] permissions_are_judged(before, between, path, FilePermissions::ReadOnly, None)
            && channels_are_judged(between, after, root, error)
}

/// A device that a search found: its directory and that directory's identity.
pub type FoundDevice = (Seq<char>, FileIdentity);

/// The contents of a list of found devices.
pub open spec fn found_list(matches: Seq<(String, FileIdentity)>) -> Seq<FoundDevice> {
    matches.map_values(|found: (String, FileIdentity)| (found.0@, found.1))
}

/// What a search gives.
pub open spec fn search_of(
    result: Result<Vec<(String, FileIdentity)>, AcerHwmonDiscoveryError>,
) -> Result<Seq<FoundDevice>, DiscoveryErrorModel> {
    match result {
        Ok(matches) => Ok(found_list(matches@)),
        Err(error) => Err(error@),
    }
}

/// What one candidate gives.
pub open spec fn candidate_of(
    result: Result<Option<FileIdentity>, AcerHwmonDiscoveryError>,
) -> Result<Option<FileIdentity>, DiscoveryErrorModel> {
    match result {
        Ok(found) => Ok(found),
        Err(error) => Err(error@),
    }
}

/// Whether a candidate was checked in order, up to the first error: its entry, its identity and its
/// name, and the name's permissions where it is the Acer device's.
pub open spec fn candidate_is_judged(
    before: Calls,
    after: Calls,
    entry: ListedEntry,
    outcome: Result<Option<FileIdentity>, DiscoveryErrorModel>,
) -> bool {
    match candidate_error(entry) {
        Some((path, reason)) => after == before && outcome == Err::<Option<FileIdentity>, _>(
            DiscoveryErrorModel::InvalidAbi { path, reason },
        ),
        None => candidate_identity_is_judged(before, after, entry.path@, outcome),
    }
}

/// The part of that check from the identity on.
pub open spec fn candidate_identity_is_judged(
    before: Calls,
    after: Calls,
    path: Seq<char>,
    outcome: Result<Option<FileIdentity>, DiscoveryErrorModel>,
) -> bool {
    exists|known: Calls, answer: Result<FileIdentity, PlatformError>|
        #[trigger] identity_came(before, known, path, answer) && match answer {
            Err(e) => after == known && outcome == Err::<Option<FileIdentity>, _>(
                DiscoveryErrorModel::Platform(e),
            ),
            Ok(identity) => candidate_name_is_judged(known, after, path, identity, outcome),
        }
}

/// The part of that check from the name on.
pub open spec fn candidate_name_is_judged(
    before: Calls,
    after: Calls,
    path: Seq<char>,
    identity: FileIdentity,
    outcome: Result<Option<FileIdentity>, DiscoveryErrorModel>,
) -> bool {
    let name_path = child_path(path, "name"@);
    exists|read: Calls, name: Result<String, PlatformError>|
        #[trigger] contents_came(before, read, path, identity, "name"@, name) && match name {
            Err(e) => after == read && outcome == Err::<Option<FileIdentity>, _>(
                DiscoveryErrorModel::Platform(e),
            ),
            Ok(text) => if text@ != "acer\n"@ {
                after == read && outcome == Ok::<Option<FileIdentity>, DiscoveryErrorModel>(None)
            } else {
                match outcome {
                    Err(error) => permissions_are_judged(
                        read,
                        after,
                        name_path,
                        FilePermissions::ReadOnly,
                        Some(error),
                    ),
                    Ok(found) => found == Some(identity) && permissions_are_judged(
                        read,
                        after,
                        name_path,
                        FilePermissions::ReadOnly,
                        None,
                    ),
                }
            },
        }
}

/// The same check by a deadline, which asks for the name's identity instead of its permissions.
pub open spec fn candidate_is_judged_before(
    before: Calls,
    after: Calls,
    entry: ListedEntry,
    deadline: u128,
    outcome: Result<Option<FileIdentity>, DiscoveryErrorModel>,
) -> bool {
    match candidate_error(entry) {
        Some((path, reason)) => after == before && outcome == Err::<Option<FileIdentity>, _>(
            DiscoveryErrorModel::InvalidAbi { path, reason },
        ),
        None => candidate_identity_is_judged_before(before, after, entry.path@, deadline, outcome),
    }
}

/// The part of that check from the identity on.
pub open spec fn candidate_identity_is_judged_before(
    before: Calls,
    after: Calls,
    path: Seq<char>,
    deadline: u128,
    outcome: Result<Option<FileIdentity>, DiscoveryErrorModel>,
) -> bool {
    exists|known: Calls, answer: Result<FileIdentity, PlatformError>|
        #[trigger] identity_came_before(before, known, path, deadline, answer) && match answer {
            Err(e) => after == known && outcome == Err::<Option<FileIdentity>, _>(
                DiscoveryErrorModel::Platform(e),
            ),
            Ok(identity) => candidate_name_is_judged_before(
                known,
                after,
                path,
                identity,
                deadline,
                outcome,
            ),
        }
}

/// The part of that check from the name on.
pub open spec fn candidate_name_is_judged_before(
    before: Calls,
    after: Calls,
    path: Seq<char>,
    identity: FileIdentity,
    deadline: u128,
    outcome: Result<Option<FileIdentity>, DiscoveryErrorModel>,
) -> bool {
    exists|known: Calls, answer: Result<FileIdentity, PlatformError>|
        #[trigger] identity_came_before(
            before,
            known,
            child_path(path, "name"@),
            deadline,
            answer,
        ) && match answer {
            Err(e) => after == known && outcome == Err::<Option<FileIdentity>, _>(
                DiscoveryErrorModel::Platform(e),
            ),
            Ok(name_identity) => candidate_name_is_read_before(
                known,
                after,
                path,
                identity,
                name_identity,
                deadline,
                outcome,
            ),
        }
}

/// The part of that check on the name's contents.
pub open spec fn candidate_name_is_read_before(
    before: Calls,
    after: Calls,
    path: Seq<char>,
    identity: FileIdentity,
    name_identity: FileIdentity,
    deadline: u128,
    outcome: Result<Option<FileIdentity>, DiscoveryErrorModel>,
) -> bool {
    exists|name: Result<String, PlatformError>|
        #[trigger] contents_came_before(
            before,
            after,
            path,
            identity,
            "name"@,
            name_identity,
            deadline,
            name,
        ) && outcome == match name {
            Err(e) => Err::<Option<FileIdentity>, _>(DiscoveryErrorModel::Platform(e)),
            Ok(text) => if text@ == "acer\n"@ {
                Ok(Some(identity))
            } else {
                Ok(None)
            },
        }
}

/// What a search gives after one more candidate.
pub open spec fn with_candidate(
    found: Seq<FoundDevice>,
    entry: ListedEntry,
    outcome: Result<Option<FileIdentity>, DiscoveryErrorModel>,
) -> Result<Seq<FoundDevice>, DiscoveryErrorModel> {
    match outcome {
        Err(error) => Err(error),
        Ok(None) => Ok(found),
        Ok(Some(identity)) => Ok(found.push((entry.path@, identity))),
    }
}

/// Whether the first candidates were checked in order, up to the first error.
pub open spec fn candidates_are_judged(
    before: Calls,
    after: Calls,
    entries: Seq<ListedEntry>,
    count: nat,
    search: Result<Seq<FoundDevice>, DiscoveryErrorModel>,
) -> bool
    decreases count,
{
    if count == 0 {
        after == before && search == Ok::<Seq<FoundDevice>, DiscoveryErrorModel>(Seq::empty())
    } else {
        ||| search is Err && candidates_are_judged(
            before,
            after,
            entries,
            (count - 1) as nat,
            search,
        )
        ||| exists|
            between: Calls,
            found: Seq<FoundDevice>,
            outcome: Result<Option<FileIdentity>, DiscoveryErrorModel>,
        |
            {
                &&& candidates_are_judged(
                    before,
                    between,
                    entries,
                    (count - 1) as nat,
                    Ok(found),
                )
                &&& #[trigger] candidate_is_judged(between, after, entries[count - 1], outcome)
                &&& search == #[trigger] with_candidate(found, entries[count - 1], outcome)
            }
    }
}

/// The same by a deadline.
pub open spec fn candidates_are_judged_before(
    before: Calls,
    after: Calls,
    entries: Seq<ListedEntry>,
    count: nat,
    deadline: u128,
    search: Result<Seq<FoundDevice>, DiscoveryErrorModel>,
) -> bool
    decreases count,
{
    if count == 0 {
        after == before && search == Ok::<Seq<FoundDevice>, DiscoveryErrorModel>(Seq::empty())
    } else {
        ||| search is Err && candidates_are_judged_before(
            before,
            after,
            entries,
            (count - 1) as nat,
            deadline,
            search,
        )
        ||| exists|
            between: Calls,
            found: Seq<FoundDevice>,
            outcome: Result<Option<FileIdentity>, DiscoveryErrorModel>,
        |
            {
                &&& candidates_are_judged_before(
                    before,
                    between,
                    entries,
                    (count - 1) as nat,
                    deadline,
                    Ok(found),
                )
                &&& #[trigger] candidate_is_judged_before(
                    between,
                    after,
                    entries[count - 1],
                    deadline,
                    outcome,
                )
                &&& search == #[trigger] with_candidate(found, entries[count - 1], outcome)
            }
    }
}

/// Whether a directory was listed and its candidates checked, and what that gives: every Acer device
/// in order, or the first error.
pub open spec fn search_is_made(
    before: Calls,
    after: Calls,
    root: Seq<char>,
    search: Result<Seq<FoundDevice>, DiscoveryErrorModel>,
) -> bool {
    exists|listed: Calls, listing: Result<Vec<ListedEntry>, PlatformError>|
        #[trigger] listing_came(before, listed, root, listing) && match listing {
            Err(e) => after == listed && search == Err::<Seq<FoundDevice>, _>(
                DiscoveryErrorModel::Platform(e),
            ),
            Ok(entries) => candidates_are_judged(
                listed,
                after,
                entries@,
                entries@.len(),
                search,
            ),
        }
}

/// The same by a deadline.
pub open spec fn search_is_made_before(
    before: Calls,
    after: Calls,
    root: Seq<char>,
    deadline: u128,
    search: Result<Seq<FoundDevice>, DiscoveryErrorModel>,
) -> bool {
    exists|listed: Calls, listing: Result<Vec<ListedEntry>, PlatformError>|
        #[trigger] listing_came_before(before, listed, root, deadline, listing) && match listing {
            Err(e) => after == listed && search == Err::<Seq<FoundDevice>, _>(
                DiscoveryErrorModel::Platform(e),
            ),
            Ok(entries) => candidates_are_judged_before(
                listed,
                after,
                entries@,
                entries@.len(),
                deadline,
                search,
            ),
        }
}

/// An error stays the outcome of a search however many candidates follow.
proof fn lemma_search_ends(
    before: Calls,
    after: Calls,
    entries: Seq<ListedEntry>,
    count: nat,
    total: nat,
    error: DiscoveryErrorModel,
)
    requires
        count <= total,
        candidates_are_judged(before, after, entries, count, Err(error)),
    ensures
        candidates_are_judged(before, after, entries, total, Err(error)),
    decreases total - count,
{
    if count < total {
        lemma_search_ends(before, after, entries, count + 1, total, error);
    }
}

/// The same by a deadline.
proof fn lemma_search_ends_before(
    before: Calls,
    after: Calls,
    entries: Seq<ListedEntry>,
    count: nat,
    total: nat,
    deadline: u128,
    error: DiscoveryErrorModel,
)
    requires
        count <= total,
        candidates_are_judged_before(before, after, entries, count, deadline, Err(error)),
    ensures
        candidates_are_judged_before(before, after, entries, total, deadline, Err(error)),
    decreases total - count,
{
    if count < total {
        lemma_search_ends_before(before, after, entries, count + 1, total, deadline, error);
    }
}

/// An endpoint of a bound device, in binding order: its name and the identity that it must keep.
pub open spec fn binding_at(device: DeviceModel, index: int) -> (Seq<char>, FileIdentity) {
    (
        two_fan_endpoints()[index],
        if index == 0 {
            device.cpu.pwm_identity->0
        } else if index == 1 {
            device.cpu.enable_identity->0
        } else if index == 2 {
            device.cpu.tachometer_identity->0
        } else if index == 3 {
            device.gpu.pwm_identity->0
        } else if index == 4 {
            device.gpu.enable_identity->0
        } else {
            device.gpu.tachometer_identity->0
        },
    )
}

/// The permissions that an endpoint must have, in binding order.
pub open spec fn permissions_at(index: int) -> FilePermissions {
    if index == 2 || index == 5 {
        FilePermissions::ReadOnly
    } else {
        FilePermissions::ReadWrite
    }
}

/// Whether the permissions of one endpoint were asked for by a deadline.
pub open spec fn binding_is_judged_before(
    before: Calls,
    after: Calls,
    device: DeviceModel,
    index: int,
    deadline: u128,
    error: Option<DiscoveryErrorModel>,
) -> bool {
    permissions_are_judged_before(
        before,
        after,
        device.root,
        device.backing_identity,
        binding_at(device, index).0,
        binding_at(device, index).1,
        permissions_at(index),
        deadline,
        error,
    )
}

/// Whether the permissions of the first endpoints were asked for in order, and none was wrong.
pub open spec fn first_bindings_are_accepted(
    before: Calls,
    after: Calls,
    device: DeviceModel,
    count: nat,
    deadline: u128,
) -> bool
    decreases count,
{
    if count == 0 {
        after == before
    } else {
        exists|between: Calls|
            {
                &&& first_bindings_are_accepted(
                    before,
                    between,
                    device,
                    (count - 1) as nat,
                    deadline,
                )
                &&& #[trigger] binding_is_judged_before(
                    between,
                    after,
                    device,
                    count - 1,
                    deadline,
                    None,
                )
            }
    }
}

/// Whether all six endpoints' permissions were asked for in order, up to the first error.
pub open spec fn bindings_are_judged_before(
    before: Calls,
    after: Calls,
    device: DeviceModel,
    deadline: u128,
    error: Option<DiscoveryErrorModel>,
) -> bool {
    match error {
        None => first_bindings_are_accepted(before, after, device, 6, deadline),
        Some(_) => exists|between: Calls, last: nat|
            {
                &&& last < 6
                &&& #[trigger] first_bindings_are_accepted(before, between, device, last, deadline)
                &&& binding_is_judged_before(between, after, device, last as int, deadline, error)
            },
    }
}

/// Whether a device's directory was checked by a deadline in order, up to the first error: its
/// entries, its name and that name's permissions, and the permissions of its endpoints.
pub open spec fn abi_is_judged_before(
    before: Calls,
    after: Calls,
    device: DeviceModel,
    deadline: u128,
    error: Option<DiscoveryErrorModel>,
) -> bool {
    exists|listed: Calls, listing: Result<Vec<ListedEntry>, PlatformError>|
        #[trigger] bound_listing_came_before(
            before,
            listed,
            device.root,
            device.backing_identity,
            deadline,
            listing,
        ) && match listing {
            Err(e) => after == listed && error == Some(DiscoveryErrorModel::Platform(e)),
            Ok(entries) => match names_error(device.root, entries@) {
                Some(reason) => after == listed && error == Some(
                    DiscoveryErrorModel::InvalidAbi { path: device.root, reason },
                ),
                None => listed_abi_is_judged_before(listed, after, device, deadline, error),
            },
        }
}

/// The part of that check after the entries.
pub open spec fn listed_abi_is_judged_before(
    before: Calls,
    after: Calls,
    device: DeviceModel,
    deadline: u128,
    error: Option<DiscoveryErrorModel>,
) -> bool {
    exists|known: Calls, answer: Result<FileIdentity, PlatformError>|
        #[trigger] identity_came_before(
            before,
            known,
            child_path(device.root, "name"@),
            deadline,
            answer,
        ) && match answer {
            Err(e) => after == known && error == Some(DiscoveryErrorModel::Platform(e)),
            Ok(name_identity) => name_is_judged_before(
                known,
                after,
                device,
                name_identity,
                deadline,
                error,
            ),
        }
}

/// The part of that check from the name on.
pub open spec fn name_is_judged_before(
    before: Calls,
    after: Calls,
    device: DeviceModel,
    name_identity: FileIdentity,
    deadline: u128,
    error: Option<DiscoveryErrorModel>,
) -> bool {
    exists|read: Calls, name: Result<String, PlatformError>|
        #[trigger] contents_came_before(
            before,
            read,
            device.root,
            device.backing_identity,
            "name"@,
            name_identity,
            deadline,
            name,
        ) && match name {
            Err(e) => after == read && error == Some(DiscoveryErrorModel::Platform(e)),
            Ok(text) => if text@ != "acer\n"@ {
                after == read && error == Some(
                    DiscoveryErrorModel::InvalidAbi {
                        path: device.root,
                        reason: "Acer identity changed after discovery"@,
                    },
                )
            } else {
                named_abi_is_judged_before(read, after, device, name_identity, deadline, error)
            },
        }
}

/// The part of that check after the name.
pub open spec fn named_abi_is_judged_before(
    before: Calls,
    after: Calls,
    device: DeviceModel,
    name_identity: FileIdentity,
    deadline: u128,
    error: Option<DiscoveryErrorModel>,
) -> bool {
    ||| error is Some && permissions_are_judged_before(
        before,
        after,
        device.root,
        device.backing_identity,
        "name"@,
        name_identity,
        FilePermissions::ReadOnly,
        deadline,
        error,
    )
    ||| exists|between: Calls|
        #[trigger] permissions_are_judged_before(
            before,
            between,
            device.root,
            device.backing_identity,
            "name"@,
            name_identity,
            FilePermissions::ReadOnly,
            deadline,
            None,
        ) && bindings_are_judged_before(between, after, device, deadline, error)
}

/// Whether an endpoint's identity was asked for, and whether it is the expected one.
pub open spec fn identity_is_judged(
    before: Calls,
    after: Calls,
    path: Seq<char>,
    expected: Option<FileIdentity>,
    deadline: u128,
    outcome: Result<bool, DiscoveryErrorModel>,
) -> bool {
    exists|answer: Result<FileIdentity, PlatformError>|
        #[trigger] identity_came_before(before, after, path, deadline, answer) && outcome
            == match answer {
            Err(e) => Err(DiscoveryErrorModel::Platform(e)),
            Ok(actual) => Ok(expected == Some(actual)),
        }
}

/// Whether the identities of a fan's endpoints were asked for in order, up to the first that is not
/// the expected one.
pub open spec fn fan_is_judged(
    before: Calls,
    after: Calls,
    fan: FanEndpointsModel,
    deadline: u128,
    outcome: Result<bool, DiscoveryErrorModel>,
) -> bool {
    let yes = Ok::<bool, DiscoveryErrorModel>(true);
    ||| outcome != yes && identity_is_judged(
        before,
        after,
        fan.pwm,
        fan.pwm_identity,
        deadline,
        outcome,
    )
    ||| exists|between: Calls|
        #[trigger] identity_is_judged(
            before,
            between,
            fan.pwm,
            fan.pwm_identity,
            deadline,
            yes,
        ) && fan_is_judged_further(between, after, fan, deadline, outcome)
}

/// The part of that on the mode and the tachometer.
pub open spec fn fan_is_judged_further(
    before: Calls,
    after: Calls,
    fan: FanEndpointsModel,
    deadline: u128,
    outcome: Result<bool, DiscoveryErrorModel>,
) -> bool {
    let yes = Ok::<bool, DiscoveryErrorModel>(true);
    ||| outcome != yes && identity_is_judged(
        before,
        after,
        fan.enable,
        fan.enable_identity,
        deadline,
        outcome,
    )
    ||| exists|between: Calls|
        #[trigger] identity_is_judged(
            before,
            between,
            fan.enable,
            fan.enable_identity,
            deadline,
            yes,
        ) && identity_is_judged(
            between,
            after,
            fan.tachometer,
            fan.tachometer_identity,
            deadline,
            outcome,
        )
}

/// Whether a device was checked in order, up to the first thing that is not as it was: that it is
/// the only one, that its directory has the exact ABI, and that its endpoints keep their identities.
pub open spec fn device_is_judged(
    before: Calls,
    after: Calls,
    device: DeviceModel,
    deadline: u128,
    outcome: Result<bool, DiscoveryErrorModel>,
) -> bool {
    exists|searched: Calls, search: Result<Seq<FoundDevice>, DiscoveryErrorModel>|
        #[trigger] search_is_made_before(before, searched, device.hwmon_root, deadline, search)
            && match search {
            Err(error) => after == searched && outcome == Err::<bool, _>(error),
            Ok(found) => if found.len() == 0 {
                after == searched && outcome == Err::<bool, _>(DiscoveryErrorModel::NoDevice)
            } else if found.len() > 1 {
                after == searched && outcome == Err::<bool, _>(
                    DiscoveryErrorModel::AmbiguousDevices { count: found.len() as int },
                )
            } else if found[0] != (device.root, device.backing_identity) {
                after == searched && outcome == Ok::<bool, DiscoveryErrorModel>(false)
            } else {
                found_device_is_judged(searched, after, device, deadline, outcome)
            },
        }
}

/// The part of that check after the search.
pub open spec fn found_device_is_judged(
    before: Calls,
    after: Calls,
    device: DeviceModel,
    deadline: u128,
    outcome: Result<bool, DiscoveryErrorModel>,
) -> bool {
    ||| outcome matches Err(error) && abi_is_judged_before(
        before,
        after,
        device,
        deadline,
        Some(error),
    )
    ||| exists|between: Calls|
        #[trigger] abi_is_judged_before(before, between, device, deadline, None)
            && endpoints_are_judged(between, after, device, deadline, outcome)
}

/// The part of that check on both fans' endpoints.
pub open spec fn endpoints_are_judged(
    before: Calls,
    after: Calls,
    device: DeviceModel,
    deadline: u128,
    outcome: Result<bool, DiscoveryErrorModel>,
) -> bool {
    let yes = Ok::<bool, DiscoveryErrorModel>(true);
    ||| outcome != yes && fan_is_judged(before, after, device.cpu, deadline, outcome)
    ||| exists|between: Calls|
        #[trigger] fan_is_judged(before, between, device.cpu, deadline, yes) && fan_is_judged(
            between,
            after,
            device.gpu,
            deadline,
            outcome,
        )
}

/// A refusal of the ABI with its path and reason, or acceptance.
pub open spec fn abi_verdict(
    result: Result<(), AcerHwmonDiscoveryError>,
    error: Option<(Seq<char>, Seq<char>)>,
) -> bool {
    match error {
        Some((path, reason)) => result matches Err(
            AcerHwmonDiscoveryError::InvalidAbi { path: p, reason: r },
        ) && p@ == path && r@ == reason,
        None => result is Ok,
    }
}

fn invalid_abi(path: &str, reason: &str) -> (error: AcerHwmonDiscoveryError)
    ensures
        error matches AcerHwmonDiscoveryError::InvalidAbi { path: p, reason: r } && p@ == path@
            && r@ == reason@,
{
    AcerHwmonDiscoveryError::InvalidAbi { path: path.to_owned(), reason: reason.to_owned() }
}

/// Whether a name is `hwmon` and a decimal number.
pub open spec fn is_hwmon_name(name: Seq<char>) -> bool {
    &&& begins_with(name, "hwmon"@)
    &&& name.len() > 5
    &&& all_digits(name.skip(5))
}

/// Decides [`is_hwmon_name`].
pub(crate) fn names_hwmon(name: &str) -> (yes: bool)
    ensures
        yes == is_hwmon_name(name@),
{
    proof {
        reveal_strlit("hwmon");
    }
    if !starts_with_text(name, "hwmon") {
        return false;
    }
    let count = name.unicode_len();
    if count <= 5 {
        return false;
    }
    let mut i: usize = 5;
    while i < count
        invariant
            5 <= i <= count,
            count == name@.len(),
            forall|k: int| 5 <= k < i ==> crate::text::is_digit(#[trigger] name@[k]),
        decreases count - i,
    {
        if !char_is_digit(name.get_char(i)) {
            assert(name@.skip(5)[i - 5] == name@[i as int]);
            return false;
        }
        i = i + 1;
    }
    true
}

/// What is wrong with a candidate directory.
pub open spec fn candidate_error(entry: ListedEntry) -> Option<(Seq<char>, Seq<char>)> {
    if !entry.is_direct_child {
        Some((entry.path@, "hwmon candidate is not a direct child"@))
    } else if !(entry.name matches Some(name) && is_hwmon_name(name@)) {
        Some((entry.path@, "malformed hwmon candidate name"@))
    } else {
        None
    }
}

/// Finds what is wrong with a candidate directory.
pub fn validate_hwmon_entry(entry: &ListedEntry) -> (result: Result<(), AcerHwmonDiscoveryError>)
    ensures
        abi_verdict(result, candidate_error(*entry)),
{
    if !entry.is_direct_child {
        return Err(invalid_abi(entry.path.as_str(), "hwmon candidate is not a direct child"));
    }
    let valid = match &entry.name {
        Some(name) => names_hwmon(name.as_str()),
        None => false,
    };
    if !valid {
        return Err(invalid_abi(entry.path.as_str(), "malformed hwmon candidate name"));
    }
    Ok(())
}

/// What is wrong with one entry of the device's directory.
pub open spec fn entry_error(entry: ListedEntry) -> Option<Seq<char>> {
    if !entry.is_direct_child {
        Some("endpoint is not a direct child: "@ + entry.path@)
    } else {
        match entry.name {
            None => Some("non-UTF-8 endpoint name"@),
            Some(name) => if (begins_with(name@, "pwm"@) || begins_with(name@, "fan"@))
                && !two_fan_endpoints().contains(name@) {
                Some("unexpected endpoint "@ + name@)
            } else {
                None
            },
        }
    }
}

/// The first thing that is wrong with an entry of the device's directory.
pub open spec fn entries_error(entries: Seq<ListedEntry>) -> Option<Seq<char>>
    decreases entries.len(),
{
    if entries.len() == 0 {
        None
    } else {
        match entries_error(entries.drop_last()) {
            Some(reason) => Some(reason),
            None => entry_error(entries.last()),
        }
    }
}

/// Entries with a path.
pub open spec fn entries_at(path: Seq<char>) -> spec_fn(ListedEntry) -> bool {
    |entry: ListedEntry| entry.path@ == path
}

/// Whether a path is listed exactly once.
pub open spec fn listed_once(entries: Seq<ListedEntry>, path: Seq<char>) -> bool {
    kept(entries, entries_at(path)).len() == 1
}

/// The message for an endpoint that is not listed exactly once.
pub open spec fn not_once(path: Seq<char>) -> Option<Seq<char>> {
    Some("endpoint must appear exactly once: "@ + path)
}

/// What is wrong with the names in the device's directory.
pub open spec fn names_error(root: Seq<char>, entries: Seq<ListedEntry>) -> Option<Seq<char>> {
    let name = child_path(root, "name"@);
    let pwm1 = child_path(root, "pwm1"@);
    let enable1 = child_path(root, "pwm1_enable"@);
    let fan1 = child_path(root, "fan1_input"@);
    let pwm2 = child_path(root, "pwm2"@);
    let enable2 = child_path(root, "pwm2_enable"@);
    let fan2 = child_path(root, "fan2_input"@);
    if entries_error(entries) is Some {
        entries_error(entries)
    } else if !listed_once(entries, name) {
        Some("identity must appear exactly once: "@ + name)
    } else if !listed_once(entries, pwm1) {
        not_once(pwm1)
    } else if !listed_once(entries, enable1) {
        not_once(enable1)
    } else if !listed_once(entries, fan1) {
        not_once(fan1)
    } else if !listed_once(entries, pwm2) {
        not_once(pwm2)
    } else if !listed_once(entries, enable2) {
        not_once(enable2)
    } else if !listed_once(entries, fan2) {
        not_once(fan2)
    } else {
        None
    }
}

proof fn lemma_entries_error_stays(entries: Seq<ListedEntry>, prefix: int)
    requires
        0 <= prefix <= entries.len(),
        entries_error(entries.take(prefix)) is Some,
    ensures
        entries_error(entries) == entries_error(entries.take(prefix)),
    decreases entries.len() - prefix,
{
    if prefix == entries.len() {
        assert(entries.take(prefix) =~= entries);
    } else {
        let longer = entries.take(prefix + 1);
        assert(longer.drop_last() =~= entries.take(prefix));
        lemma_entries_error_stays(entries, prefix + 1);
    }
}

fn find_entry_error(entry: &ListedEntry) -> (reason: Option<String>)
    ensures
        crate::text::text_option(reason) == entry_error(*entry),
{
    if !entry.is_direct_child {
        return Some(join("endpoint is not a direct child: ", entry.path.as_str()));
    }
    match &entry.name {
        None => Some("non-UTF-8 endpoint name".to_owned()),
        Some(name) => {
            let known = two_fan_endpoint_names();
            if (starts_with_text(name.as_str(), "pwm") || starts_with_text(name.as_str(), "fan"))
                && !contains_text(&known, name.as_str()) {
                Some(join("unexpected endpoint ", name.as_str()))
            } else {
                None
            }
        },
    }
}

fn find_entries_error(entries: &Vec<ListedEntry>) -> (reason: Option<String>)
    ensures
        crate::text::text_option(reason) == entries_error(entries@),
{
    let mut i: usize = 0;
    assert(entries@.take(0) =~= Seq::<ListedEntry>::empty());
    while i < entries.len()
        invariant
            i <= entries.len(),
            entries_error(entries@.take(i as int)) is None,
        decreases entries.len() - i,
    {
        proof {
            let longer = entries@.take(i + 1);
            assert(longer.drop_last() =~= entries@.take(i as int));
            assert(longer.last() == entries@[i as int]);
        }
        let reason = find_entry_error(&entries[i]);
        if reason.is_some() {
            proof {
                lemma_entries_error_stays(entries@, i + 1);
            }
            return reason;
        }
        i = i + 1;
    }
    assert(entries@.take(entries.len() as int) =~= entries@);
    None
}

fn is_listed_once(entries: &Vec<ListedEntry>, path: &str) -> (yes: bool)
    ensures
        yes == listed_once(entries@, path@),
{
    let ghost keep = entries_at(path@);
    let mut count: usize = 0;
    let mut i: usize = 0;
    proof {
        lemma_kept_ends(entries@, keep);
    }
    while i < entries.len()
        invariant
            i <= entries.len(),
            keep == entries_at(path@),
            count <= i,
            count == kept(entries@.take(i as int), keep).len(),
        decreases entries.len() - i,
    {
        proof {
            lemma_kept_step(entries@, keep, i as int);
        }
        if same_text(entries[i].path.as_str(), path) {
            assert(keep(entries@[i as int]));
            count = count + 1;
        } else {
            assert(!keep(entries@[i as int]));
        }
        i = i + 1;
    }
    proof {
        lemma_kept_ends(entries@, keep);
    }
    count == 1
}

fn endpoint_is_listed_once(root: &str, entries: &Vec<ListedEntry>, child: &str) -> (reason: Option<
    String,
>)
    ensures
        crate::text::text_option(reason) == if listed_once(entries@, child_path(root@, child@)) {
            None
        } else {
            not_once(child_path(root@, child@))
        },
{
    let path = join_path(root, child);
    if is_listed_once(entries, path.as_str()) {
        None
    } else {
        Some(join("endpoint must appear exactly once: ", path.as_str()))
    }
}

fn find_names_error(root: &str, entries: &Vec<ListedEntry>) -> (reason: Option<String>)
    ensures
        crate::text::text_option(reason) == names_error(root@, entries@),
{
    let reason = find_entries_error(entries);
    if reason.is_some() {
        return reason;
    }
    let name_path = join_path(root, "name");
    if !is_listed_once(entries, name_path.as_str()) {
        return Some(join("identity must appear exactly once: ", name_path.as_str()));
    }
    let reason = endpoint_is_listed_once(root, entries, "pwm1");
    if reason.is_some() {
        return reason;
    }
    let reason = endpoint_is_listed_once(root, entries, "pwm1_enable");
    if reason.is_some() {
        return reason;
    }
    let reason = endpoint_is_listed_once(root, entries, "fan1_input");
    if reason.is_some() {
        return reason;
    }
    let reason = endpoint_is_listed_once(root, entries, "pwm2");
    if reason.is_some() {
        return reason;
    }
    let reason = endpoint_is_listed_once(root, entries, "pwm2_enable");
    if reason.is_some() {
        return reason;
    }
    endpoint_is_listed_once(root, entries, "fan2_input")
}

/// Decides whether a directory lists the exact two-fan ABI and no other fan endpoint.
pub fn validate_entry_names(root: &str, entries: &Vec<ListedEntry>) -> (result: Result<
    (),
    AcerHwmonDiscoveryError,
>)
    ensures
        abi_verdict(
            result,
            match names_error(root@, entries@) {
                Some(reason) => Some((root@, reason)),
                None => None,
            },
        ),
{
    match find_names_error(root, entries) {
        Some(reason) => Err(invalid_abi(root, reason.as_str())),
        None => Ok(()),
    }
}

/// Decides whether the devices found are exactly the one that was known: an error where there is
/// none or more than one.
pub fn same_only_device(
    matches: &Vec<(String, FileIdentity)>,
    root: &str,
    backing_identity: FileIdentity,
) -> (result: Result<bool, AcerHwmonDiscoveryError>)
    ensures
        if matches@.len() == 0 {
            result matches Err(AcerHwmonDiscoveryError::NoDevice)
        } else if matches@.len() == 1 {
            result matches Ok(same) && same == (matches@[0].0@ == root@ && matches@[0].1
                == backing_identity)
        } else {
            result matches Err(AcerHwmonDiscoveryError::AmbiguousDevices { count }) && count
                == matches@.len()
        },
{
    if matches.len() == 0 {
        return Err(AcerHwmonDiscoveryError::NoDevice);
    }
    if matches.len() > 1 {
        return Err(AcerHwmonDiscoveryError::AmbiguousDevices { count: matches.len() });
    }
    Ok(same_text(matches[0].0.as_str(), root) && matches[0].1 == backing_identity)
}

/// Decides whether permissions are the expected ones.
pub fn judge_permissions(
    path: &str,
    expected: FilePermissions,
    actual: FilePermissions,
) -> (result: Result<(), AcerHwmonDiscoveryError>)
    ensures
        if actual == expected {
            result is Ok
        } else {
            result matches Err(
                AcerHwmonDiscoveryError::InvalidPermissions { path: p, expected: e, actual: a },
            ) && p@ == path@ && e == expected && a == actual
        },
{
    if actual == expected {
        Ok(())
    } else {
        Err(
            AcerHwmonDiscoveryError::InvalidPermissions {
                path: path.to_owned(),
                expected,
                actual,
            },
        )
    }
}

fn require_permissions<F>(files: &mut F, path: &str, expected: FilePermissions) -> (result: Result<
    (),
    AcerHwmonDiscoveryError,
>) where F: IdentityBoundReadAccess + ?Sized
    ensures
        grows(old(files).history(), final(files).history()),
        permissions_are_judged(
            old(files).history(),
            final(files).history(),
            path@,
            expected,
            error_of(result),
        ),
{
    broadcast use group_grows;

    let ghost asked = files.history();
    let answer = files.permissions(path);
    assert(permissions_came(asked, files.history(), path@, answer));
    match answer {
        Ok(actual) => judge_permissions(path, expected, actual),
        Err(error) => Err(AcerHwmonDiscoveryError::Platform(error)),
    }
}

fn require_permissions_bound_before<F>(
    files: &mut F,
    root: &str,
    backing_identity: FileIdentity,
    child: &str,
    child_identity: FileIdentity,
    expected: FilePermissions,
    deadline: u128,
) -> (result: Result<(), AcerHwmonDiscoveryError>) where
    F: BoundedIdentityBoundFileAccess + ?Sized,

    ensures
        grows(old(files).history(), final(files).history()),
        permissions_are_judged_before(old(files).history(), final(files).history(), 
            root@,
            backing_identity,
            child@,
            child_identity,
            expected,
            deadline,
            error_of(result),
        ),
{
    broadcast use group_grows;

    let ghost asked = files.history();
    let answer = files.permissions_bound_before(root,
        backing_identity,
        child,
        child_identity,
        deadline,
    );
    assert(permissions_came_before(asked, files.history(), 
        root@,
        backing_identity,
        child@,
        child_identity,
        deadline,
        answer,
    ));
    match answer {
        Ok(actual) => judge_permissions(join_path(root, child).as_str(), expected, actual),
        Err(error) => Err(AcerHwmonDiscoveryError::Platform(error)),
    }
}

/// Whether a payload names the Acer device.
pub fn names_acer(payload: &str) -> (yes: bool)
    ensures
        yes == (payload@ == "acer\n"@),
{
    same_text(payload, "acer\n")
}

/// Checks one candidate, and gives its identity where it is the Acer device.
fn judge_candidate<F>(files: &mut F, entry: &ListedEntry) -> (result: Result<
    Option<FileIdentity>,
    AcerHwmonDiscoveryError,
>) where F: IdentityBoundReadAccess + ?Sized
    ensures
        grows(old(files).history(), final(files).history()),
        candidate_is_judged(
            old(files).history(),
            final(files).history(),
            *entry,
            candidate_of(result),
        ),
{
    broadcast use group_grows;

    match validate_hwmon_entry(entry) {
        Ok(()) => {},
        Err(error) => {
            return Err(error);
        },
    }
    let path = entry.path.as_str();
    let ghost asked = files.history();
    let answer = files.identity(path);
    assert(identity_came(asked, files.history(), path@, answer));
    let identity = match answer {
        Ok(identity) => identity,
        Err(error) => {
            return Err(AcerHwmonDiscoveryError::Platform(error));
        },
    };
    let ghost asked = files.history();
    let contents = files.read_bound(path, identity, "name");
    assert(contents_came(asked, files.history(), path@, identity, "name"@, contents));
    let name = match contents {
        Ok(name) => name,
        Err(error) => {
            return Err(AcerHwmonDiscoveryError::Platform(error));
        },
    };
    if !names_acer(name.as_str()) {
        return Ok(None);
    }
    let name_path = join_path(path, "name");
    match require_permissions(files, name_path.as_str(), FilePermissions::ReadOnly) {
        Ok(()) => Ok(Some(identity)),
        Err(error) => Err(error),
    }
}

fn find_acer_devices<F>(files: &mut F, hwmon_root: &str) -> (result: Result<
    Vec<(String, FileIdentity)>,
    AcerHwmonDiscoveryError,
>) where F: IdentityBoundReadAccess + ?Sized
    ensures
        grows(old(files).history(), final(files).history()),
        search_is_made(
            old(files).history(),
            final(files).history(),
            hwmon_root@,
            search_of(result),
        ),
{
    broadcast use group_grows;

    let ghost asked = files.history();
    let listing = files.list(hwmon_root);
    assert(listing_came(asked, files.history(), hwmon_root@, listing));
    let candidates = match listing {
        Ok(candidates) => candidates,
        Err(error) => {
            return Err(AcerHwmonDiscoveryError::Platform(error));
        },
    };
    let ghost listed = files.history();
    let mut matches: Vec<(String, FileIdentity)> = Vec::new();
    let mut i: usize = 0;
    assert(found_list(matches@) =~= Seq::empty());
    while i < candidates.len()
        invariant
            i <= candidates.len(),
            listing_came(old(files).history(), listed, hwmon_root@, Ok(candidates)),
            grows(old(files).history(), files.history()),
            candidates_are_judged(
                listed,
                files.history(),
                candidates@,
                i as nat,
                Ok(found_list(matches@)),
            ),
        decreases candidates.len() - i,
    {
        broadcast use group_grows;

        let ghost found = found_list(matches@);
        let judged = judge_candidate(files, &candidates[i]);
        let ghost next = with_candidate(found, candidates@[i as int], candidate_of(judged));
        assert(candidates_are_judged(
            listed,
            files.history(),
            candidates@,
            (i + 1) as nat,
            next,
        ));
        match judged {
            Ok(None) => {},
            Ok(Some(identity)) => {
                matches.push((candidates[i].path.clone(), identity));
                assert(found_list(matches@) =~= found.push((candidates@[i as int].path@, identity)));
            },
            Err(error) => {
                proof {
                    lemma_search_ends(
                        listed,
                        files.history(),
                        candidates@,
                        (i + 1) as nat,
                        candidates@.len(),
                        error@,
                    );
                }
                return Err(error);
            },
        }
        i = i + 1;
    }
    Ok(matches)
}

/// Checks one candidate by a deadline, and gives its identity where it is the Acer device.
fn judge_candidate_before<F>(files: &mut F, entry: &ListedEntry, deadline: u128) -> (result: Result<
    Option<FileIdentity>,
    AcerHwmonDiscoveryError,
>) where F: BoundedIdentityBoundFileAccess + ?Sized
    ensures
        grows(old(files).history(), final(files).history()),
        candidate_is_judged_before(
            old(files).history(),
            final(files).history(),
            *entry,
            deadline,
            candidate_of(result),
        ),
{
    broadcast use group_grows;

    match validate_hwmon_entry(entry) {
        Ok(()) => {},
        Err(error) => {
            return Err(error);
        },
    }
    let path = entry.path.as_str();
    let ghost asked = files.history();
    let answer = files.identity_before(path, deadline);
    assert(identity_came_before(asked, files.history(), path@, deadline, answer));
    let identity = match answer {
        Ok(identity) => identity,
        Err(error) => {
            return Err(AcerHwmonDiscoveryError::Platform(error));
        },
    };
    let name_path = join_path(path, "name");
    let ghost asked = files.history();
    let name_answer = files.identity_before(name_path.as_str(), deadline);
    assert(identity_came_before(asked, files.history(), name_path@, deadline, name_answer));
    let name_identity = match name_answer {
        Ok(identity) => identity,
        Err(error) => {
            return Err(AcerHwmonDiscoveryError::Platform(error));
        },
    };
    let ghost asked = files.history();
    let contents = files.read_bound_before(path, identity, "name", name_identity, deadline);
    assert(contents_came_before(asked, files.history(), 
        path@,
        identity,
        "name"@,
        name_identity,
        deadline,
        contents,
    ));
    match contents {
        Err(error) => Err(AcerHwmonDiscoveryError::Platform(error)),
        Ok(name) => if names_acer(name.as_str()) {
            Ok(Some(identity))
        } else {
            Ok(None)
        },
    }
}

fn find_acer_devices_before<F>(files: &mut F, hwmon_root: &str, deadline: u128) -> (result: Result<
    Vec<(String, FileIdentity)>,
    AcerHwmonDiscoveryError,
>) where F: BoundedIdentityBoundFileAccess + ?Sized
    ensures
        grows(old(files).history(), final(files).history()),
        search_is_made_before(
            old(files).history(),
            final(files).history(),
            hwmon_root@,
            deadline,
            search_of(result),
        ),
{
    broadcast use group_grows;

    let ghost asked = files.history();
    let listing = files.list_before(hwmon_root, deadline);
    assert(listing_came_before(asked, files.history(), hwmon_root@, deadline, listing));
    let candidates = match listing {
        Ok(candidates) => candidates,
        Err(error) => {
            return Err(AcerHwmonDiscoveryError::Platform(error));
        },
    };
    let ghost listed = files.history();
    let mut matches: Vec<(String, FileIdentity)> = Vec::new();
    let mut i: usize = 0;
    assert(found_list(matches@) =~= Seq::empty());
    while i < candidates.len()
        invariant
            i <= candidates.len(),
            listing_came_before(
                old(files).history(),
                listed,
                hwmon_root@,
                deadline,
                Ok(candidates),
            ),
            grows(old(files).history(), files.history()),
            candidates_are_judged_before(
                listed,
                files.history(),
                candidates@,
                i as nat,
                deadline,
                Ok(found_list(matches@)),
            ),
        decreases candidates.len() - i,
    {
        let ghost found = found_list(matches@);
        broadcast use group_grows;

        let judged = judge_candidate_before(files, &candidates[i], deadline);
        let ghost next = with_candidate(found, candidates@[i as int], candidate_of(judged));
        assert(candidates_are_judged_before(
            listed,
            files.history(),
            candidates@,
            (i + 1) as nat,
            deadline,
            next,
        ));
        match judged {
            Ok(None) => {},
            Ok(Some(identity)) => {
                matches.push((candidates[i].path.clone(), identity));
                assert(found_list(matches@) =~= found.push((candidates@[i as int].path@, identity)));
            },
            Err(error) => {
                proof {
                    lemma_search_ends_before(
                        listed,
                        files.history(),
                        candidates@,
                        (i + 1) as nat,
                        candidates@.len(),
                        deadline,
                        error@,
                    );
                }
                return Err(error);
            },
        }
        i = i + 1;
    }
    Ok(matches)
}

fn require_endpoint_permissions<F>(files: &mut F, root: &str, channel: u64) -> (result: Result<
    (),
    AcerHwmonDiscoveryError,
>) where F: IdentityBoundReadAccess + ?Sized
    ensures
        grows(old(files).history(), final(files).history()),
        channel_is_judged(
            old(files).history(),
            final(files).history(),
            root@,
            channel as nat,
            error_of(result),
        ),
{
    broadcast use group_grows;

    let endpoints = endpoints(root, channel);
    match require_permissions(files, endpoints.pwm(), FilePermissions::ReadWrite) {
        Ok(()) => {},
        Err(error) => {
            return Err(error);
        },
    }
    match require_permissions(files, endpoints.enable(), FilePermissions::ReadWrite) {
        Ok(()) => {},
        Err(error) => {
            return Err(error);
        },
    }
    require_permissions(files, endpoints.tachometer(), FilePermissions::ReadOnly)
}

fn validate_exact_two_fan_abi<F>(
    files: &mut F,
    root: &str,
    backing_identity: FileIdentity,
) -> (result: Result<(), AcerHwmonDiscoveryError>) where F: IdentityBoundReadAccess + ?Sized
    ensures
        grows(old(files).history(), final(files).history()),
        abi_is_judged(
            old(files).history(),
            final(files).history(),
            root@,
            backing_identity,
            error_of(result),
        ),
{
    broadcast use group_grows;

    let ghost asked = files.history();
    let listing = files.list_bound(root, backing_identity);
    assert(bound_listing_came(asked, files.history(), root@, backing_identity, listing));
    let entries = match listing {
        Ok(entries) => entries,
        Err(error) => {
            return Err(AcerHwmonDiscoveryError::Platform(error));
        },
    };
    match validate_entry_names(root, &entries) {
        Ok(()) => {},
        Err(error) => {
            return Err(error);
        },
    }
    match require_fan_permissions(files, root) {
        Ok(()) => {},
        Err(error) => {
            return Err(error);
        },
    }
    validate_named_abi(files, root, backing_identity)
}

/// Checks the permissions of both fans' endpoints.
fn require_fan_permissions<F>(files: &mut F, root: &str) -> (result: Result<
    (),
    AcerHwmonDiscoveryError,
>) where F: IdentityBoundReadAccess + ?Sized
    ensures
        grows(old(files).history(), final(files).history()),
        channels_are_judged(
            old(files).history(),
            final(files).history(),
            root@,
            error_of(result),
        ),
{
    broadcast use group_grows;

    match require_endpoint_permissions(files, root, 1) {
        Ok(()) => {},
        Err(error) => {
            return Err(error);
        },
    }
    require_endpoint_permissions(files, root, 2)
}

/// Checks a device's name, and the permissions again.
fn validate_named_abi<F>(files: &mut F, root: &str, backing_identity: FileIdentity) -> (result:
    Result<(), AcerHwmonDiscoveryError>) where F: IdentityBoundReadAccess + ?Sized
    ensures
        grows(old(files).history(), final(files).history()),
        name_is_judged(
            old(files).history(),
            final(files).history(),
            root@,
            backing_identity,
            error_of(result),
        ),
{
    broadcast use group_grows;

    let ghost asked = files.history();
    let name = files.read_bound(root, backing_identity, "name");
    assert(contents_came(asked, files.history(), root@, backing_identity, "name"@, name));
    match name {
        Err(error) => {
            return Err(AcerHwmonDiscoveryError::Platform(error));
        },
        Ok(name) => {
            if !names_acer(name.as_str()) {
                return Err(invalid_abi(root, "Acer identity changed during discovery"));
            }
        },
    }
    match require_permissions(files, join_path(root, "name").as_str(), FilePermissions::ReadOnly) {
        Ok(()) => {},
        Err(error) => {
            return Err(error);
        },
    }
    require_fan_permissions(files, root)
}

/// The permissions that each of the six endpoints must have, in binding order.
pub(crate) fn endpoint_permissions(index: usize) -> (permissions: FilePermissions)
    ensures
        permissions == permissions_at(index as int),
{
    if index == 2 || index == 5 {
        FilePermissions::ReadOnly
    } else {
        FilePermissions::ReadWrite
    }
}

fn validate_exact_two_fan_abi_before<F>(
    files: &mut F,
    device: &AcerHwmonDevice,
    deadline: u128,
) -> (result: Result<(), AcerHwmonDiscoveryError>) where
    F: BoundedIdentityBoundFileAccess + ?Sized,

    requires
        device_is_bound(device@),
    ensures
        grows(old(files).history(), final(files).history()),
        abi_is_judged_before(
            old(files).history(),
            final(files).history(),
            device@,
            deadline,
            error_of(result),
        ),
{
    broadcast use group_grows;

    let root = device.root();
    let backing_identity = device.backing_identity();
    let ghost asked = files.history();
    let listing = files.list_bound_before(root, backing_identity, deadline);
    assert(bound_listing_came_before(asked, files.history(), root@, backing_identity, deadline, listing));
    let entries = match listing {
        Ok(entries) => entries,
        Err(error) => {
            return Err(AcerHwmonDiscoveryError::Platform(error));
        },
    };
    match validate_entry_names(root, &entries) {
        Ok(()) => {},
        Err(error) => {
            return Err(error);
        },
    }
    let name_path = join_path(root, "name");
    let ghost asked = files.history();
    let answer = files.identity_before(name_path.as_str(), deadline);
    assert(identity_came_before(asked, files.history(), name_path@, deadline, answer));
    let name_identity = match answer {
        Ok(identity) => identity,
        Err(error) => {
            return Err(AcerHwmonDiscoveryError::Platform(error));
        },
    };
    let ghost asked = files.history();
    let name = files.read_bound_before(root, backing_identity, "name", name_identity, deadline);
    assert(contents_came_before(asked, files.history(), 
        root@,
        backing_identity,
        "name"@,
        name_identity,
        deadline,
        name,
    ));
    match name {
        Err(error) => {
            return Err(AcerHwmonDiscoveryError::Platform(error));
        },
        Ok(name) => {
            if !names_acer(name.as_str()) {
                return Err(invalid_abi(root, "Acer identity changed after discovery"));
            }
        },
    }
    let ghost named = files.history();
    match require_permissions_bound_before(
        files,
        root,
        backing_identity,
        "name",
        name_identity,
        FilePermissions::ReadOnly,
        deadline,
    ) {
        Ok(()) => {},
        Err(error) => {
            return Err(error);
        },
    }
    let result = require_binding_permissions(files, device, deadline);
    assert(named_abi_is_judged_before(
        named,
        files.history(),
        device@,
        name_identity,
        deadline,
        error_of(result),
    ));
    result
}

/// Checks the permissions of all six endpoints by a deadline.
fn require_binding_permissions<F>(
    files: &mut F,
    device: &AcerHwmonDevice,
    deadline: u128,
) -> (result:
    Result<(), AcerHwmonDiscoveryError>) where F: BoundedIdentityBoundFileAccess + ?Sized
    requires
        device_is_bound(device@),
    ensures
        grows(old(files).history(), final(files).history()),
        bindings_are_judged_before(
            old(files).history(),
            final(files).history(),
            device@,
            deadline,
            error_of(result),
        ),
{
    broadcast use group_grows;

    let root = device.root();
    let backing_identity = device.backing_identity();
    let bindings = device.endpoint_bindings();
    let mut i: usize = 0;
    while i < bindings.len()
        invariant
            i <= bindings.len(),
            bindings@.len() == 6,
            grows(old(files).history(), files.history()),
            root@ == device@.root,
            backing_identity == device@.backing_identity,
            forall|k: int|
                0 <= k < 6 ==> (#[trigger] bindings@[k]).0@ == binding_at(device@, k).0
                    && bindings@[k].1 == binding_at(device@, k).1,
            first_bindings_are_accepted(
                old(files).history(),
                files.history(),
                device@,
                i as nat,
                deadline,
            ),
        decreases bindings.len() - i,
    {
        broadcast use group_grows;

        let ghost asked = files.history();
        let result = require_permissions_bound_before(
            files,
            root,
            backing_identity,
            bindings[i].0.as_str(),
            bindings[i].1,
            endpoint_permissions(i),
            deadline,
        );
        assert(binding_is_judged_before(
            asked,
            files.history(),
            device@,
            i as int,
            deadline,
            error_of(result),
        ));
        match result {
            Ok(()) => {},
            Err(error) => {
                return Err(error);
            },
        }
        assert(first_bindings_are_accepted(
            old(files).history(),
            asked,
            device@,
            ((i + 1) - 1) as nat,
            deadline,
        ));
        assert(binding_is_judged_before(
            asked,
            files.history(),
            device@,
            (i + 1) as nat - 1,
            deadline,
            None,
        ));
        assert(first_bindings_are_accepted(
            old(files).history(),
            files.history(),
            device@,
            (i + 1) as nat,
            deadline,
        ));
        i = i + 1;
    }
    Ok(())
}

/// The canonical endpoints of a fan channel, not yet bound.
fn endpoints(root: &str, channel: u64) -> (endpoints: FanEndpoints)
    ensures
        endpoints@.pwm == child_path(root@, "pwm"@ + decimal_text(channel as nat)),
        endpoints@.enable == child_path(root@, "pwm"@ + decimal_text(channel as nat) + "_enable"@),
        endpoints@.tachometer == child_path(
            root@,
            "fan"@ + decimal_text(channel as nat) + "_input"@,
        ),
        endpoints@.pwm_identity is None,
        endpoints@.enable_identity is None,
        endpoints@.tachometer_identity is None,
{
    let number = decimal(channel);
    FanEndpoints {
        pwm: join_path(root, join("pwm", number.as_str()).as_str()),
        pwm_identity: None,
        enable: join_path(root, join3("pwm", number.as_str(), "_enable").as_str()),
        enable_identity: None,
        tachometer: join_path(root, join3("fan", number.as_str(), "_input").as_str()),
        tachometer_identity: None,
    }
}

/// What binding a fan's endpoints gives.
pub open spec fn binding_of(result: Result<FanEndpoints, AcerHwmonDiscoveryError>) -> Result<
    FanEndpointsModel,
    DiscoveryErrorModel,
> {
    match result {
        Ok(endpoints) => Ok(endpoints@),
        Err(error) => Err(error@),
    }
}

/// Whether the identities of a fan's endpoints were asked for in order, up to the first error, and
/// what that gives.
pub open spec fn binding_is_made(
    before: Calls,
    after: Calls,
    root: Seq<char>,
    channel: nat,
    binding: Result<FanEndpointsModel, DiscoveryErrorModel>,
) -> bool {
    let pwm = child_path(root, "pwm"@ + decimal_text(channel));
    let enable = child_path(root, "pwm"@ + decimal_text(channel) + "_enable"@);
    let tachometer = child_path(root, "fan"@ + decimal_text(channel) + "_input"@);
    match binding {
        Ok(endpoints) => {
            &&& endpoints_are_bound(endpoints, root, channel)
            &&& after == before.push(
                MachineCall::Identity { path: pwm, answer: Ok(endpoints.pwm_identity->0) },
            ).push(
                MachineCall::Identity { path: enable, answer: Ok(endpoints.enable_identity->0) },
            ).push(
                MachineCall::Identity {
                    path: tachometer,
                    answer: Ok(endpoints.tachometer_identity->0),
                },
            )
        },
        Err(error) => error matches DiscoveryErrorModel::Platform(e) && {
            ||| identity_came(before, after, pwm, Err(e))
            ||| exists|first: FileIdentity|
                after == (#[trigger] before.push(
                    MachineCall::Identity { path: pwm, answer: Ok(first) },
                )).push(MachineCall::Identity { path: enable, answer: Err(e) })
            ||| exists|first: FileIdentity, second: FileIdentity|
                after == (#[trigger] before.push(
                    MachineCall::Identity { path: pwm, answer: Ok(first) },
                ).push(MachineCall::Identity { path: enable, answer: Ok(second) })).push(
                    MachineCall::Identity { path: tachometer, answer: Err(e) },
                )
        },
    }
}

/// What binding both fans' endpoints gives.
pub open spec fn bindings_of(
    result: Result<(FanEndpoints, FanEndpoints), AcerHwmonDiscoveryError>,
) -> Result<(FanEndpointsModel, FanEndpointsModel), DiscoveryErrorModel> {
    match result {
        Ok(fans) => Ok((fans.0@, fans.1@)),
        Err(error) => Err(error@),
    }
}

/// Whether both fans' endpoints were bound twice, up to the first failure, and what that gives: the
/// bindings where each came back the same.
pub open spec fn bindings_are_made(
    before: Calls,
    after: Calls,
    root: Seq<char>,
    bindings: Result<(FanEndpointsModel, FanEndpointsModel), DiscoveryErrorModel>,
) -> bool {
    ||| bindings matches Err(error) && binding_is_made(before, after, root, 1, Err(error))
    ||| exists|between: Calls, cpu: FanEndpointsModel|
        #[trigger] binding_is_made(before, between, root, 1, Ok(cpu))
            && gpu_binding_is_made(between, after, root, cpu, bindings)
}

/// The part of that from the GPU fan's first binding on.
pub open spec fn gpu_binding_is_made(
    before: Calls,
    after: Calls,
    root: Seq<char>,
    cpu: FanEndpointsModel,
    bindings: Result<(FanEndpointsModel, FanEndpointsModel), DiscoveryErrorModel>,
) -> bool {
    ||| bindings matches Err(error) && binding_is_made(before, after, root, 2, Err(error))
    ||| exists|between: Calls, gpu: FanEndpointsModel|
        #[trigger] binding_is_made(before, between, root, 2, Ok(gpu))
            && cpu_binding_is_remade(between, after, root, cpu, gpu, bindings)
}

/// The error of endpoints that were bound to other identities the second time.
pub open spec fn rebinding_error(root: Seq<char>) -> DiscoveryErrorModel {
    DiscoveryErrorModel::InvalidAbi {
        path: root,
        reason: "endpoint identity changed during discovery"@,
    }
}

/// The part of that from the CPU fan's second binding on.
pub open spec fn cpu_binding_is_remade(
    before: Calls,
    after: Calls,
    root: Seq<char>,
    cpu: FanEndpointsModel,
    gpu: FanEndpointsModel,
    bindings: Result<(FanEndpointsModel, FanEndpointsModel), DiscoveryErrorModel>,
) -> bool {
    ||| bindings matches Err(error) && binding_is_made(before, after, root, 1, Err(error))
    ||| exists|between: Calls, again: FanEndpointsModel|
        #[trigger] binding_is_made(before, between, root, 1, Ok(again)) && if again != cpu {
            after == between && bindings == Err::<(FanEndpointsModel, FanEndpointsModel), _>(
                rebinding_error(root),
            )
        } else {
            gpu_binding_is_remade(between, after, root, cpu, gpu, bindings)
        }
}

/// The part of that on the GPU fan's second binding.
pub open spec fn gpu_binding_is_remade(
    before: Calls,
    after: Calls,
    root: Seq<char>,
    cpu: FanEndpointsModel,
    gpu: FanEndpointsModel,
    bindings: Result<(FanEndpointsModel, FanEndpointsModel), DiscoveryErrorModel>,
) -> bool {
    ||| bindings matches Err(error) && binding_is_made(before, after, root, 2, Err(error))
    ||| exists|again: FanEndpointsModel|
        #[trigger] binding_is_made(before, after, root, 2, Ok(again)) && bindings == if again
            != gpu {
            Err(rebinding_error(root))
        } else {
            Ok((cpu, gpu))
        }
}

fn bind_endpoints<F>(files: &mut F, root: &str, channel: u64) -> (result: Result<
    FanEndpoints,
    AcerHwmonDiscoveryError,
>) where F: IdentityBoundReadAccess + ?Sized
    ensures
        grows(old(files).history(), final(files).history()),
        binding_is_made(
            old(files).history(),
            final(files).history(),
            root@,
            channel as nat,
            binding_of(result),
        ),
{
    broadcast use group_grows;

    let mut endpoints = endpoints(root, channel);
    let ghost asked = files.history();
    let pwm = files.identity(endpoints.pwm.as_str());
    assert(identity_came(asked, files.history(), endpoints.pwm@, pwm));
    match pwm {
        Ok(identity) => {
            endpoints.pwm_identity = Some(identity);
        },
        Err(error) => {
            return Err(AcerHwmonDiscoveryError::Platform(error));
        },
    }
    let ghost asked = files.history();
    let enable = files.identity(endpoints.enable.as_str());
    assert(identity_came(asked, files.history(), endpoints.enable@, enable));
    match enable {
        Ok(identity) => {
            endpoints.enable_identity = Some(identity);
        },
        Err(error) => {
            return Err(AcerHwmonDiscoveryError::Platform(error));
        },
    }
    let ghost asked = files.history();
    let tachometer = files.identity(endpoints.tachometer.as_str());
    assert(identity_came(asked, files.history(), endpoints.tachometer@, tachometer));
    match tachometer {
        Ok(identity) => {
            endpoints.tachometer_identity = Some(identity);
        },
        Err(error) => {
            return Err(AcerHwmonDiscoveryError::Platform(error));
        },
    }
    Ok(endpoints)
}

/// Whether two bindings of the same channel hold the same identities.
fn same_binding(left: &FanEndpoints, right: &FanEndpoints) -> (same: bool)
    ensures
        same == (left@.pwm_identity == right@.pwm_identity && left@.enable_identity
            == right@.enable_identity && left@.tachometer_identity == right@.tachometer_identity),
{
    same_identity(left.pwm_identity, right.pwm_identity) && same_identity(
        left.enable_identity,
        right.enable_identity,
    ) && same_identity(left.tachometer_identity, right.tachometer_identity)
}

fn same_identity(left: Option<FileIdentity>, right: Option<FileIdentity>) -> (same: bool)
    ensures
        same == (left == right),
{
    match (left, right) {
        (Some(left), Some(right)) => left == right,
        (None, None) => true,
        _ => false,
    }
}

fn bind_twice<F>(files: &mut F, root: &str) -> (result: Result<
    (FanEndpoints, FanEndpoints),
    AcerHwmonDiscoveryError,
>) where F: IdentityBoundReadAccess + ?Sized
    ensures
        grows(old(files).history(), final(files).history()),
        bindings_are_made(old(files).history(), final(files).history(), root@, bindings_of(result)),
{
    broadcast use group_grows;

    let cpu = match bind_endpoints(files, root, 1) {
        Ok(endpoints) => endpoints,
        Err(error) => {
            return Err(error);
        },
    };
    let gpu = match bind_endpoints(files, root, 2) {
        Ok(endpoints) => endpoints,
        Err(error) => {
            return Err(error);
        },
    };
    let cpu_again = match bind_endpoints(files, root, 1) {
        Ok(endpoints) => endpoints,
        Err(error) => {
            return Err(error);
        },
    };
    if !same_binding(&cpu, &cpu_again) {
        return Err(invalid_abi(root, "endpoint identity changed during discovery"));
    }
    let gpu_again = match bind_endpoints(files, root, 2) {
        Ok(endpoints) => endpoints,
        Err(error) => {
            return Err(error);
        },
    };
    if !same_binding(&gpu, &gpu_again) {
        return Err(invalid_abi(root, "endpoint identity changed during discovery"));
    }
    Ok((cpu, gpu))
}

/// What the devices that a search found amount to: an error where there is none or more than one.
pub open spec fn only_found(found: Seq<FoundDevice>) -> Result<FoundDevice, DiscoveryErrorModel> {
    if found.len() == 0 {
        Err(DiscoveryErrorModel::NoDevice)
    } else if found.len() > 1 {
        Err(DiscoveryErrorModel::AmbiguousDevices { count: found.len() as int })
    } else {
        Ok(found[0])
    }
}

/// Takes the one device that a search found, if it is the only one.
pub fn only_device(found: Vec<(String, FileIdentity)>) -> (result: Result<
    (String, FileIdentity),
    AcerHwmonDiscoveryError,
>)
    ensures
        match result {
            Ok(device) => only_found(found_list(found@)) == Ok::<FoundDevice, DiscoveryErrorModel>(
                (device.0@, device.1),
            ),
            Err(error) => only_found(found_list(found@)) == Err::<FoundDevice, _>(error@),
        },
{
    let mut found = found;
    if found.len() > 1 {
        return Err(AcerHwmonDiscoveryError::AmbiguousDevices { count: found.len() });
    }
    match found.pop() {
        Some(device) => Ok(device),
        None => Err(AcerHwmonDiscoveryError::NoDevice),
    }
}

/// Whether the first call listed a directory, and a path is that of an acceptable candidate that came
/// back directly under it.
pub open spec fn lies_under(
    before: Calls,
    after: Calls,
    hwmon_root: Seq<char>,
    root: Seq<char>,
) -> bool {
    exists|entries: Vec<ListedEntry>, i: int|
        {
            &&& before.len() < after.len()
            &&& after[before.len() as int] == (MachineCall::List {
                root: hwmon_root,
                answer: Ok(entries),
            })
            &&& 0 <= i < entries@.len()
            &&& (#[trigger] entries@[i]).path@ == root
            &&& candidate_error(entries@[i]) is None
        }
}

/// Every device that a search found is one of the candidates.
proof fn lemma_found_is_candidate(
    before: Calls,
    after: Calls,
    entries: Seq<ListedEntry>,
    count: nat,
    found: Seq<FoundDevice>,
    k: int,
) -> (i: int)
    requires
        candidates_are_judged(before, after, entries, count, Ok(found)),
        0 <= k < found.len(),
    ensures
        0 <= i < count,
        entries[i].path@ == found[k].0,
        candidate_error(entries[i]) is None,
    decreases count,
{
    let (between, earlier, outcome) = choose|
        between: Calls,
        earlier: Seq<FoundDevice>,
        outcome: Result<Option<FileIdentity>, DiscoveryErrorModel>,
    |
        {
            &&& candidates_are_judged(before, between, entries, (count - 1) as nat, Ok(earlier))
            &&& #[trigger] candidate_is_judged(between, after, entries[count - 1], outcome)
            &&& Ok::<Seq<FoundDevice>, DiscoveryErrorModel>(found) == #[trigger] with_candidate(
                earlier,
                entries[count - 1],
                outcome,
            )
        };
    if k < earlier.len() {
        lemma_found_is_candidate(before, between, entries, (count - 1) as nat, earlier, k)
    } else {
        count - 1
    }
}

/// A search leads on from the calls before it.
proof fn lemma_candidates_grow(
    before: Calls,
    after: Calls,
    entries: Seq<ListedEntry>,
    count: nat,
    search: Result<Seq<FoundDevice>, DiscoveryErrorModel>,
)
    requires
        candidates_are_judged(before, after, entries, count, search),
    ensures
        grows(before, after),
    decreases count,
{
    broadcast use group_grows;

    if count > 0 {
        if search is Err && candidates_are_judged(
            before,
            after,
            entries,
            (count - 1) as nat,
            search,
        ) {
            lemma_candidates_grow(before, after, entries, (count - 1) as nat, search);
        } else {
            let (between, found, outcome) = choose|
                between: Calls,
                found: Seq<FoundDevice>,
                outcome: Result<Option<FileIdentity>, DiscoveryErrorModel>,
            |
                {
                    &&& candidates_are_judged(
                        before,
                        between,
                        entries,
                        (count - 1) as nat,
                        Ok(found),
                    )
                    &&& #[trigger] candidate_is_judged(between, after, entries[count - 1], outcome)
                    &&& search == #[trigger] with_candidate(found, entries[count - 1], outcome)
                };
            lemma_candidates_grow(before, between, entries, (count - 1) as nat, Ok(found));
        }
    }
}

/// What a discovery gives.
pub open spec fn discovery_of(result: Result<AcerHwmonDevice, AcerHwmonDiscoveryError>) -> Result<
    DeviceModel,
    DiscoveryErrorModel,
> {
    match result {
        Ok(device) => Ok(device@),
        Err(error) => Err(error@),
    }
}

/// Whether a directory was searched for the one device, that device was checked, searched for and
/// checked again, and its endpoints were bound, up to the first error.
pub open spec fn discovery_is_made(
    before: Calls,
    after: Calls,
    hwmon_root: Seq<char>,
    outcome: Result<DeviceModel, DiscoveryErrorModel>,
) -> bool {
    exists|searched: Calls, search: Result<Seq<FoundDevice>, DiscoveryErrorModel>|
        #[trigger] search_is_made(before, searched, hwmon_root, search) && match search {
            Err(error) => after == searched && outcome == Err::<DeviceModel, _>(error),
            Ok(found) => match only_found(found) {
                Err(error) => after == searched && outcome == Err::<DeviceModel, _>(error),
                Ok(device) => found_device_is_discovered(
                    searched,
                    after,
                    hwmon_root,
                    device,
                    outcome,
                ),
            },
        }
}

/// The part of that after the first search.
pub open spec fn found_device_is_discovered(
    before: Calls,
    after: Calls,
    hwmon_root: Seq<char>,
    device: FoundDevice,
    outcome: Result<DeviceModel, DiscoveryErrorModel>,
) -> bool {
    ||| outcome matches Err(error) && abi_is_judged(
        before,
        after,
        device.0,
        device.1,
        Some(error),
    )
    ||| exists|between: Calls|
        #[trigger] abi_is_judged(before, between, device.0, device.1, None)
            && rediscovery_is_made(between, after, hwmon_root, device, outcome)
}

/// The part of that from the second search on.
pub open spec fn rediscovery_is_made(
    before: Calls,
    after: Calls,
    hwmon_root: Seq<char>,
    device: FoundDevice,
    outcome: Result<DeviceModel, DiscoveryErrorModel>,
) -> bool {
    exists|searched: Calls, search: Result<Seq<FoundDevice>, DiscoveryErrorModel>|
        #[trigger] search_is_made(before, searched, hwmon_root, search) && match search {
            Err(error) => after == searched && outcome == Err::<DeviceModel, _>(error),
            Ok(found) => match only_found(found) {
                Err(error) => after == searched && outcome == Err::<DeviceModel, _>(error),
                Ok(again) => if again != device {
                    after == searched && outcome == Err::<DeviceModel, _>(
                        DiscoveryErrorModel::InvalidAbi {
                            path: device.0,
                            reason: "Acer hwmon identity changed"@,
                        },
                    )
                } else {
                    found_device_is_bound(searched, after, hwmon_root, device, outcome)
                },
            },
        }
}

/// The part of that after the second search.
pub open spec fn found_device_is_bound(
    before: Calls,
    after: Calls,
    hwmon_root: Seq<char>,
    device: FoundDevice,
    outcome: Result<DeviceModel, DiscoveryErrorModel>,
) -> bool {
    ||| outcome matches Err(error) && abi_is_judged(
        before,
        after,
        device.0,
        device.1,
        Some(error),
    )
    ||| exists|between: Calls|
        #[trigger] abi_is_judged(before, between, device.0, device.1, None) && match outcome {
            Err(error) => bindings_are_made(between, after, device.0, Err(error)),
            Ok(bound) => {
                &&& bound.hwmon_root == hwmon_root
                &&& bound.root == device.0
                &&& bound.backing_identity == device.1
                &&& bindings_are_made(between, after, device.0, Ok((bound.cpu, bound.gpu)))
            },
        }
}

/// Finds the one Acer hwmon device and binds its endpoints.
///
/// A device that is returned lies directly under the directory and has the six canonical endpoints
/// under its root, each bound to an identity. An error is the first that the answers gave.
pub fn discover_acer_hwmon<F>(files: &mut F, hwmon_root: &str) -> (result: Result<
    AcerHwmonDevice,
    AcerHwmonDiscoveryError,
>) where F: IdentityBoundReadAccess + ?Sized
    ensures
        grows(old(files).history(), final(files).history()),
        discovery_is_made(
            old(files).history(),
            final(files).history(),
            hwmon_root@,
            discovery_of(result),
        ),
        result matches Ok(device) ==> device@.hwmon_root == hwmon_root@ && device_is_bound(device@)
            && lies_under(old(files).history(), final(files).history(), hwmon_root@, device@.root),
{
    broadcast use group_grows;

    let search = find_acer_devices(files, hwmon_root);
    assert(search_is_made(
        old(files).history(),
        files.history(),
        hwmon_root@,
        search_of(search),
    ));
    let matches = match search {
        Ok(matches) => matches,
        Err(error) => {
            return Err(error);
        },
    };
    let ghost found = found_list(matches@);
    let (root, backing_identity) = match only_device(matches) {
        Ok(device) => device,
        Err(error) => {
            return Err(error);
        },
    };
    let ghost searched = files.history();
    proof {
        let (listed, listing) = choose|
            listed: Calls,
            listing: Result<Vec<ListedEntry>, PlatformError>,
        |
            #[trigger] listing_came(old(files).history(), listed, hwmon_root@, listing)
                && match listing {
                Err(e) => false,
                Ok(entries) => candidates_are_judged(
                    listed,
                    searched,
                    entries@,
                    entries@.len(),
                    Ok(found),
                ),
            };
        let entries = listing->Ok_0;
        lemma_candidates_grow(listed, searched, entries@, entries@.len(), Ok(found));
        let i = lemma_found_is_candidate(
            listed,
            searched,
            entries@,
            entries@.len(),
            found,
            0,
        );
        assert(entries@[i].path@ == root@);
        assert(lies_under(old(files).history(), searched, hwmon_root@, root@));
    }
    match validate_exact_two_fan_abi(files, root.as_str(), backing_identity) {
        Ok(()) => {},
        Err(error) => {
            return Err(error);
        },
    }
    let result = rediscover(files, hwmon_root, root, backing_identity);
    assert(lies_under(old(files).history(), files.history(), hwmon_root@, root@));
    result
}

/// Searches for a device again, checks it again and binds its endpoints.
fn rediscover<F>(
    files: &mut F,
    hwmon_root: &str,
    root: String,
    backing_identity: FileIdentity,
) -> (result: Result<AcerHwmonDevice, AcerHwmonDiscoveryError>) where
    F: IdentityBoundReadAccess + ?Sized,

    ensures
        grows(old(files).history(), final(files).history()),
        rediscovery_is_made(
            old(files).history(),
            final(files).history(),
            hwmon_root@,
            (root@, backing_identity),
            discovery_of(result),
        ),
        result matches Ok(device) ==> device@.hwmon_root == hwmon_root@ && device_is_bound(device@)
            && device@.root == root@,
{
    broadcast use group_grows;

    let search = find_acer_devices(files, hwmon_root);
    assert(search_is_made(
        old(files).history(),
        files.history(),
        hwmon_root@,
        search_of(search),
    ));
    let final_matches = match search {
        Ok(matches) => matches,
        Err(error) => {
            return Err(error);
        },
    };
    match same_only_device(&final_matches, root.as_str(), backing_identity) {
        Ok(true) => {},
        Ok(false) => {
            return Err(invalid_abi(root.as_str(), "Acer hwmon identity changed"));
        },
        Err(error) => {
            return Err(error);
        },
    }
    bind_found(files, hwmon_root, root, backing_identity)
}

/// Checks a device that was found again, and binds its endpoints.
fn bind_found<F>(
    files: &mut F,
    hwmon_root: &str,
    root: String,
    backing_identity: FileIdentity,
) -> (result: Result<AcerHwmonDevice, AcerHwmonDiscoveryError>) where
    F: IdentityBoundReadAccess + ?Sized,

    ensures
        grows(old(files).history(), final(files).history()),
        found_device_is_bound(
            old(files).history(),
            final(files).history(),
            hwmon_root@,
            (root@, backing_identity),
            discovery_of(result),
        ),
        result matches Ok(device) ==> device@.hwmon_root == hwmon_root@ && device_is_bound(device@)
            && device@.root == root@,
{
    broadcast use group_grows;

    let ghost device = (root@, backing_identity);
    match validate_exact_two_fan_abi(files, root.as_str(), backing_identity) {
        Ok(()) => {},
        Err(error) => {
            return Err(error);
        },
    }
    assert(abi_is_judged(
        old(files).history(),
        files.history(),
        device.0,
        device.1,
        None,
    ));
    match bind_twice(files, root.as_str()) {
        Ok((cpu, gpu)) => Ok(
            AcerHwmonDevice {
                hwmon_root: hwmon_root.to_owned(),
                root,
                backing_identity,
                cpu,
                gpu,
            },
        ),
        Err(error) => Err(error),
    }
}

} // verus!
