//! Discovery and sampling of the CPU's coretemp sensors.

use vstd::prelude::*;
use vstd::string::*;
use crate::acer_hwmon::{found_list, FoundDevice};
use crate::platform::{
    bound_listing_came, child_path, contents_came, identity_came, join_path, listing_came,
    FileIdentity, IdentityBoundReadAccess, ListedEntry, PlatformError, PlatformErrorKind,
};
use crate::text::{
    all_digits, begins_with, char_is_digit, chars_of, decimal, decimal_text, decimal_value,
    ends_with_text, finishes_with, is_digit, is_ordered, join, join3, order_is_total,
    order_is_transitive, parse_unsigned, same_text, starts_with_text, texts_are_ordered,
};
use crate::machine::{group_grows, grows, Calls, MachineCall};

verus! {

broadcast use vstd::string::group_string_axioms;

/// One selected temperature channel.
#[derive(Debug, PartialEq, Eq)]
pub struct CoretempChannel {
    pub index: String,
    pub label: String,
    pub is_package: bool,
}

/// The contents of a channel.
pub struct ChannelModel {
    pub index: Seq<char>,
    pub label: Seq<char>,
    pub is_package: bool,
}

impl View for CoretempChannel {
    type V = ChannelModel;

    open spec fn view(&self) -> ChannelModel {
        ChannelModel { index: self.index@, label: self.label@, is_package: self.is_package }
    }
}

impl Clone for CoretempChannel {
    fn clone(&self) -> (copy: CoretempChannel)
        ensures
            copy == *self,
    {
        CoretempChannel {
            index: self.index.clone(),
            label: self.label.clone(),
            is_package: self.is_package,
        }
    }
}

/// The contents of a list of channels.
pub open spec fn channel_list(channels: Seq<CoretempChannel>) -> Seq<ChannelModel> {
    channels.map_values(|channel: CoretempChannel| channel@)
}

/// The discovered sensors.
#[derive(Debug, PartialEq, Eq)]
pub struct CoretempDevice {
    hwmon_root: String,
    root: String,
    backing_identity: FileIdentity,
    channels: Vec<CoretempChannel>,
}

/// The contents of a device.
pub struct CoretempModel {
    pub hwmon_root: Seq<char>,
    pub root: Seq<char>,
    pub backing_identity: FileIdentity,
    pub channels: Seq<ChannelModel>,
}

impl View for CoretempDevice {
    type V = CoretempModel;

    closed spec fn view(&self) -> CoretempModel {
        CoretempModel {
            hwmon_root: self.hwmon_root@,
            root: self.root@,
            backing_identity: self.backing_identity,
            channels: channel_list(self.channels@),
        }
    }
}

impl Clone for CoretempDevice {
    fn clone(&self) -> (copy: CoretempDevice)
        ensures
            copy@ == self@,
    {
        let channels = self.channels.clone();
        assert(channels@ =~= self.channels@);
        CoretempDevice {
            hwmon_root: self.hwmon_root.clone(),
            root: self.root.clone(),
            backing_identity: self.backing_identity,
            channels,
        }
    }
}

/// Why no trustworthy temperature can be had.
#[derive(Debug, PartialEq, Eq)]
pub enum CoretempError {
    Platform(PlatformError),
    NoDevice,
    AmbiguousDevices { count: usize },
    MissingPackageChannel,
    InvalidAbi { path: String, reason: String },
    InvalidSample { path: String, reason: String },
}

/// The contents of an error.
pub enum CoretempErrorModel {
    Platform(PlatformError),
    NoDevice,
    AmbiguousDevices { count: int },
    MissingPackageChannel,
    InvalidAbi { path: Seq<char>, reason: Seq<char> },
    InvalidSample { path: Seq<char>, reason: Seq<char> },
}

impl View for CoretempError {
    type V = CoretempErrorModel;

    open spec fn view(&self) -> CoretempErrorModel {
        match *self {
            CoretempError::Platform(error) => CoretempErrorModel::Platform(error),
            CoretempError::NoDevice => CoretempErrorModel::NoDevice,
            CoretempError::AmbiguousDevices { count } => CoretempErrorModel::AmbiguousDevices {
                count: count as int,
            },
            CoretempError::MissingPackageChannel => CoretempErrorModel::MissingPackageChannel,
            CoretempError::InvalidAbi { path, reason } => CoretempErrorModel::InvalidAbi {
                path: path@,
                reason: reason@,
            },
            CoretempError::InvalidSample { path, reason } => CoretempErrorModel::InvalidSample {
                path: path@,
                reason: reason@,
            },
        }
    }
}

impl Clone for CoretempError {
    fn clone(&self) -> (copy: CoretempError)
        ensures
            copy@ == self@,
    {
        match self {
            CoretempError::Platform(error) => CoretempError::Platform(error.clone()),
            CoretempError::NoDevice => CoretempError::NoDevice,
            CoretempError::AmbiguousDevices { count } => CoretempError::AmbiguousDevices {
                count: *count,
            },
            CoretempError::MissingPackageChannel => CoretempError::MissingPackageChannel,
            CoretempError::InvalidAbi { path, reason } => CoretempError::InvalidAbi {
                path: path.clone(),
                reason: reason.clone(),
            },
            CoretempError::InvalidSample { path, reason } => CoretempError::InvalidSample {
                path: path.clone(),
                reason: reason.clone(),
            },
        }
    }
}

impl CoretempError {
    /// The text of the message.
    pub open spec fn text(self) -> Seq<char> {
        match self {
            CoretempError::Platform(error) => "coretemp access failed: "@ + error.detail@,
            CoretempError::NoDevice => "no coretemp hwmon device found"@,
            CoretempError::AmbiguousDevices { count } => "found "@ + decimal_text(count as nat)
                + " coretemp hwmon devices"@,
            CoretempError::MissingPackageChannel => "coretemp has no package temperature channel"@,
            CoretempError::InvalidAbi { path, reason } => "invalid coretemp ABI at "@ + path@
                + ": "@ + reason@,
            CoretempError::InvalidSample { path, reason } => "invalid coretemp sample at "@ + path@
                + ": "@ + reason@,
        }
    }

    /// The message shown to an operator.
    pub fn message(&self) -> (text: String)
        ensures
            text@ == self.text(),
    {
        match self {
            CoretempError::Platform(error) => join("coretemp access failed: ", error.message()),
            CoretempError::NoDevice => "no coretemp hwmon device found".to_owned(),
            CoretempError::AmbiguousDevices { count } => join3(
                "found ",
                decimal(*count as u64).as_str(),
                " coretemp hwmon devices",
            ),
            CoretempError::MissingPackageChannel =>
                "coretemp has no package temperature channel".to_owned(),
            CoretempError::InvalidAbi { path, reason } => {
                let mut text = join3("invalid coretemp ABI at ", path.as_str(), ": ");
                text.append(reason.as_str());
                text
            },
            CoretempError::InvalidSample { path, reason } => {
                let mut text = join3("invalid coretemp sample at ", path.as_str(), ": ");
                text.append(reason.as_str());
                text
            },
        }
    }
}

fn invalid_abi(path: &str, reason: &str) -> (error: CoretempError)
    ensures
        error matches CoretempError::InvalidAbi { path: p, reason: r } && p@ == path@ && r@
            == reason@,
{
    CoretempError::InvalidAbi { path: path.to_owned(), reason: reason.to_owned() }
}

fn invalid_sample(path: &str, reason: &str) -> (error: CoretempError)
    ensures
        error matches CoretempError::InvalidSample { path: p, reason: r } && p@ == path@ && r@
            == reason@,
{
    CoretempError::InvalidSample { path: path.to_owned(), reason: reason.to_owned() }
}

/// A decimal number without a leading zero.
pub open spec fn positive_decimal(text: Seq<char>) -> bool {
    text.len() > 0 && text[0] != '0' && all_digits(text)
}

/// The same, or zero.
pub open spec fn plain_decimal(text: Seq<char>) -> bool {
    text == "0"@ || positive_decimal(text)
}

fn is_positive_decimal(text: &str) -> (yes: bool)
    ensures
        yes == positive_decimal(text@),
{
    let count = text.unicode_len();
    if count == 0 || text.get_char(0) == '0' {
        return false;
    }
    let mut i: usize = 0;
    while i < count
        invariant
            i <= count,
            count == text@.len(),
            forall|k: int| 0 <= k < i ==> is_digit(#[trigger] text@[k]),
        decreases count - i,
    {
        if !char_is_digit(text.get_char(i)) {
            return false;
        }
        i = i + 1;
    }
    true
}

fn is_plain_decimal(text: &str) -> (yes: bool)
    ensures
        yes == plain_decimal(text@),
{
    same_text(text, "0") || is_positive_decimal(text)
}

/// Whether a directory entry can be a sensor device.
pub open spec fn candidate_defect(entry: ListedEntry) -> Option<Seq<char>> {
    if !entry.is_direct_child {
        Some("hwmon candidate is not a direct child"@)
    } else if !(entry.name matches Some(name) && begins_with(name@, "hwmon"@) && plain_decimal(
        name@.skip(5),
    )) {
        Some("malformed hwmon candidate name"@)
    } else {
        None
    }
}

/// Whether a result refuses with a path and a reason.
pub open spec fn abi_refusal(
    result: Result<(), CoretempError>,
    path: Seq<char>,
    reason: Option<Seq<char>>,
) -> bool {
    match reason {
        Some(text) => result matches Err(CoretempError::InvalidAbi { path: p, reason: r }) && p@
            == path && r@ == text,
        None => result is Ok,
    }
}

/// Decides [`candidate_defect`].
pub fn validate_coretemp_entry(entry: &ListedEntry) -> (result: Result<(), CoretempError>)
    ensures
        abi_refusal(result, entry.path@, candidate_defect(*entry)),
{
    if !entry.is_direct_child {
        return Err(invalid_abi(entry.path.as_str(), "hwmon candidate is not a direct child"));
    }
    proof {
        reveal_strlit("hwmon");
    }
    let valid = match &entry.name {
        Some(name) => starts_with_text(name.as_str(), "hwmon") && {
            let count = name.as_str().unicode_len();
            let rest = name.as_str().substring_char(5, count);
            assert(rest@ =~= name@.skip(5));
            is_plain_decimal(rest)
        },
        None => false,
    };
    if valid {
        Ok(())
    } else {
        Err(invalid_abi(entry.path.as_str(), "malformed hwmon candidate name"))
    }
}

/// What a file name tells of a temperature label.
pub enum LabelName {
    /// The file holds no temperature label.
    Unrelated,
    Malformed,
    Channel(Seq<char>),
}

/// The channel that a label's file name belongs to.
pub open spec fn label_name(name: Seq<char>) -> LabelName {
    if !(begins_with(name, "temp"@) && finishes_with(name, "_label"@) && name.len() >= 10) {
        LabelName::Unrelated
    } else if !positive_decimal(name.subrange(4, name.len() - 6)) {
        LabelName::Malformed
    } else {
        LabelName::Channel(name.subrange(4, name.len() - 6))
    }
}

/// Finds the channel that a label's file name belongs to.
pub fn temperature_label_index(name: &str) -> (result: Result<Option<String>, CoretempError>)
    ensures
        match label_name(name@) {
            LabelName::Unrelated => result matches Ok(None),
            LabelName::Malformed => result matches Err(CoretempError::InvalidAbi { path, reason })
                && path@ == name@ && reason@ == "malformed temperature label filename"@,
            LabelName::Channel(index) => result matches Ok(Some(found)) && found@ == index,
        },
{
    let count = name.unicode_len();
    if !starts_with_text(name, "temp") || !ends_with_text(name, "_label") || count < 10 {
        return Ok(None);
    }
    let index = name.substring_char(4, count - 6);
    if !is_positive_decimal(index) {
        return Err(invalid_abi(name, "malformed temperature label filename"));
    }
    Ok(Some(index.to_owned()))
}

/// What a label's contents tell.
pub enum LabelReading {
    /// Why the contents are no label.
    Invalid(Seq<char>),
    /// A label of something else than the package or a core.
    Unselected,
    Selected { label: Seq<char>, is_package: bool },
}

/// Reads a label's contents.
pub open spec fn label_reading(payload: Seq<char>) -> LabelReading {
    if !(payload.len() > 0 && payload.last() == '\n') {
        LabelReading::Invalid("channel label must end with one newline"@)
    } else {
        let label = payload.drop_last();
        if label.contains('\n') {
            LabelReading::Invalid("channel label contains an embedded newline"@)
        } else if begins_with(label, "Package id "@) {
            if plain_decimal(label.skip(11)) {
                LabelReading::Selected { label, is_package: true }
            } else {
                LabelReading::Invalid("malformed package/core channel label"@)
            }
        } else if begins_with(label, "Core "@) {
            if plain_decimal(label.skip(5)) {
                LabelReading::Selected { label, is_package: false }
            } else {
                LabelReading::Invalid("malformed package/core channel label"@)
            }
        } else {
            LabelReading::Unselected
        }
    }
}

fn holds_newline(text: &str) -> (yes: bool)
    ensures
        yes == text@.contains('\n'),
{
    let chars = chars_of(text);
    let mut i: usize = 0;
    while i < chars.len()
        invariant
            i <= chars.len(),
            chars@ == text@,
            forall|k: int| 0 <= k < i ==> chars@[k] != '\n',
        decreases chars.len() - i,
    {
        if chars[i] == '\n' {
            return true;
        }
        i = i + 1;
    }
    false
}

/// Selects a label of the package or of a core.
pub fn selected_label(payload: &str, path: &str) -> (result: Result<
    Option<(String, bool)>,
    CoretempError,
>)
    ensures
        match label_reading(payload@) {
            LabelReading::Invalid(text) => result matches Err(
                CoretempError::InvalidAbi { path: p, reason },
            ) && p@ == path@ && reason@ == text,
            LabelReading::Unselected => result matches Ok(None),
            LabelReading::Selected { label, is_package } => result matches Ok(Some(found))
                && found.0@ == label && found.1 == is_package,
        },
{
    proof {
        reveal_strlit("Package id ");
        reveal_strlit("Core ");
    }
    let count = payload.unicode_len();
    if count == 0 || payload.get_char(count - 1) != '\n' {
        return Err(invalid_abi(path, "channel label must end with one newline"));
    }
    let label = payload.substring_char(0, count - 1);
    assert(label@ =~= payload@.drop_last());
    if holds_newline(label) {
        return Err(invalid_abi(path, "channel label contains an embedded newline"));
    }
    let (is_package, start): (bool, usize) = if starts_with_text(label, "Package id ") {
        (true, 11)
    } else if starts_with_text(label, "Core ") {
        (false, 5)
    } else {
        return Ok(None);
    };
    let identifier = label.substring_char(start, count - 1);
    assert(identifier@ =~= label@.skip(start as int));
    if !is_plain_decimal(identifier) {
        return Err(invalid_abi(path, "malformed package/core channel label"));
    }
    Ok(Some((label.to_owned(), is_package)))
}

/// What a numeric file holds, or why it holds no number.
pub open spec fn sysfs_number(payload: Seq<char>) -> Result<int, Seq<char>> {
    if !(payload.len() > 0 && payload.last() == '\n') {
        Err("numeric input must end with one newline"@)
    } else {
        let number = payload.drop_last();
        if number.len() == 0 || !all_digits(number) {
            Err("numeric input is malformed"@)
        } else if decimal_value(number) > i64::MAX {
            Err("numeric input is outside the supported integer range"@)
        } else {
            Ok(decimal_value(number) as int)
        }
    }
}

/// Reads a numeric file's contents.
pub fn parse_number(payload: &str, path: &str) -> (result: Result<i64, CoretempError>)
    ensures
        match sysfs_number(payload@) {
            Ok(number) => result matches Ok(found) && found == number,
            Err(text) => result matches Err(CoretempError::InvalidSample { path: p, reason })
                && p@ == path@ && reason@ == text,
        },
{
    let count = payload.unicode_len();
    if count == 0 || payload.get_char(count - 1) != '\n' {
        return Err(invalid_sample(path, "numeric input must end with one newline"));
    }
    let number = payload.substring_char(0, count - 1);
    assert(number@ =~= payload@.drop_last());
    let chars = chars_of(number);
    if chars.len() == 0 || !are_digits(&chars) {
        return Err(invalid_sample(path, "numeric input is malformed"));
    }
    assert(chars@[0] != '+');
    match parse_unsigned(chars.as_slice(), i64::MAX as u64) {
        Some(value) => Ok(value as i64),
        None => Err(
            invalid_sample(path, "numeric input is outside the supported integer range"),
        ),
    }
}

pub(crate) fn are_digits(chars: &Vec<char>) -> (yes: bool)
    ensures
        yes == all_digits(chars@),
{
    let mut i: usize = 0;
    while i < chars.len()
        invariant
            i <= chars.len(),
            forall|k: int| 0 <= k < i ==> is_digit(#[trigger] chars@[k]),
        decreases chars.len() - i,
    {
        if !char_is_digit(chars[i]) {
            return false;
        }
        i = i + 1;
    }
    true
}

/// What is wrong with a temperature and its maximum, and whether the maximum is at fault.
pub open spec fn reading_defect(input: i64, tjmax: i64) -> Option<(bool, Seq<char>)> {
    if !(70_000 <= tjmax <= 125_000) {
        Some(
            (
                true,
                "TjMax "@ + decimal_text(tjmax as nat)
                    + " mC is outside the documented coretemp range"@,
            ),
        )
    } else if tjmax % 1_000 != 0 {
        Some(
            (
                true,
                "TjMax "@ + decimal_text(tjmax as nat)
                    + " mC does not match coretemp's 1 C resolution"@,
            ),
        )
    } else if !(0 <= input <= tjmax) {
        Some(
            (
                false,
                "temperature "@ + decimal_text(input as nat) + " mC is outside 0..="@
                    + decimal_text(tjmax as nat) + " mC"@,
            ),
        )
    } else if input % 1_000 != 0 {
        Some(
            (
                false,
                "temperature "@ + decimal_text(input as nat)
                    + " mC does not match coretemp's 1 C resolution"@,
            ),
        )
    } else {
        None
    }
}

/// Judges a temperature and its maximum.
pub fn judge_reading(input: i64, tjmax: i64, input_path: &str, crit_path: &str) -> (result: Result<
    (),
    CoretempError,
>)
    requires
        0 <= input,
        0 <= tjmax,
    ensures
        match reading_defect(input, tjmax) {
            Some((at_maximum, text)) => result matches Err(
                CoretempError::InvalidSample { path, reason },
            ) && reason@ == text && path@ == if at_maximum {
                crit_path@
            } else {
                input_path@
            },
            None => result is Ok,
        },
{
    if tjmax < 70_000 || tjmax > 125_000 {
        return Err(
            invalid_sample(
                crit_path,
                join3(
                    "TjMax ",
                    decimal(tjmax as u64).as_str(),
                    " mC is outside the documented coretemp range",
                ).as_str(),
            ),
        );
    }
    if tjmax % 1_000 != 0 {
        return Err(
            invalid_sample(
                crit_path,
                join3(
                    "TjMax ",
                    decimal(tjmax as u64).as_str(),
                    " mC does not match coretemp's 1 C resolution",
                ).as_str(),
            ),
        );
    }
    if input > tjmax {
        let mut text = join3("temperature ", decimal(input as u64).as_str(), " mC is outside 0..=");
        text.append(decimal(tjmax as u64).as_str());
        text.append(" mC");
        return Err(invalid_sample(input_path, text.as_str()));
    }
    if input % 1_000 != 0 {
        return Err(
            invalid_sample(
                input_path,
                join3(
                    "temperature ",
                    decimal(input as u64).as_str(),
                    " mC does not match coretemp's 1 C resolution",
                ).as_str(),
            ),
        );
    }
    Ok(())
}

/// Judges an optional alarm file: absent or clear is fine.
pub fn judge_flag(
    contents: Result<String, PlatformError>,
    path: &str,
    description: &str,
) -> (result: Result<
    (),
    CoretempError,
>)
    ensures
        match contents {
            Ok(payload) => if payload@ == "0\n"@ {
                result is Ok
            } else {
                result matches Err(CoretempError::InvalidSample { path: p, reason }) && p@ == path@
                    && reason@ == if payload@ == "1\n"@ {
                    description@ + " is asserted"@
                } else {
                    description@ + " is not a sysfs boolean"@
                }
            },
            Err(error) => if error.kind == PlatformErrorKind::NotFound {
                result is Ok
            } else {
                result matches Err(CoretempError::Platform(e)) && e == error
            },
        },
{
    match contents {
        Ok(payload) => if same_text(payload.as_str(), "0\n") {
            Ok(())
        } else if same_text(payload.as_str(), "1\n") {
            Err(invalid_sample(path, join(description, " is asserted").as_str()))
        } else {
            Err(invalid_sample(path, join(description, " is not a sysfs boolean").as_str()))
        },
        Err(error) => if error.kind() == PlatformErrorKind::NotFound {
            Ok(())
        } else {
            Err(CoretempError::Platform(error))
        },
    }
}

/// Whether channels stand in the order of their labels.
pub open spec fn labels_are_ordered(channels: Seq<ChannelModel>) -> bool {
    forall|i: int, j: int|
        0 <= i <= j < channels.len() ==> is_ordered(
            (#[trigger] channels[i]).label,
            (#[trigger] channels[j]).label,
        )
}

/// Whether no label occurs twice.
pub open spec fn labels_are_distinct(channels: Seq<ChannelModel>) -> bool {
    forall|i: int, j: int|
        0 <= i < j < channels.len() ==> (#[trigger] channels[i]).label != (
        #[trigger] channels[j]).label
}

/// Whether channels are what a discovery yields: ordered, distinct, with the package among them.
pub open spec fn channels_are_valid(channels: Seq<ChannelModel>) -> bool {
    &&& labels_are_ordered(channels)
    &&& labels_are_distinct(channels)
    &&& exists|i: int| 0 <= i < channels.len() && (#[trigger] channels[i]).is_package
}

fn label_is_known(channels: &Vec<CoretempChannel>, label: &str) -> (yes: bool)
    ensures
        yes == exists|i: int|
            0 <= i < channels@.len() && (#[trigger] channel_list(channels@)[i]).label == label@,
{
    let ghost models = channel_list(channels@);
    let mut i: usize = 0;
    while i < channels.len()
        invariant
            i <= channels.len(),
            models == channel_list(channels@),
            forall|k: int| 0 <= k < i ==> (#[trigger] models[k]).label != label@,
        decreases channels.len() - i,
    {
        assert(models[i as int] == channels@[i as int]@);
        if same_text(channels[i].label.as_str(), label) {
            return true;
        }
        i = i + 1;
    }
    false
}

fn has_package(channels: &Vec<CoretempChannel>) -> (yes: bool)
    ensures
        yes == exists|i: int|
            0 <= i < channels@.len() && (#[trigger] channel_list(channels@)[i]).is_package,
{
    let ghost models = channel_list(channels@);
    let mut i: usize = 0;
    while i < channels.len()
        invariant
            i <= channels.len(),
            models == channel_list(channels@),
            forall|k: int| 0 <= k < i ==> !(#[trigger] models[k]).is_package,
        decreases channels.len() - i,
    {
        assert(models[i as int] == channels@[i as int]@);
        if channels[i].is_package {
            return true;
        }
        i = i + 1;
    }
    false
}

/// Puts a channel in its place among ordered ones.
fn insert_ordered(channels: &mut Vec<CoretempChannel>, channel: CoretempChannel)
    requires
        labels_are_ordered(channel_list(old(channels)@)),
        labels_are_distinct(channel_list(old(channels)@)),
        forall|i: int|
            0 <= i < old(channels)@.len() ==> (#[trigger] channel_list(old(channels)@)[i]).label
                != channel@.label,
    ensures
        labels_are_ordered(channel_list(final(channels)@)),
        labels_are_distinct(channel_list(final(channels)@)),
        exists|place: int|
            0 <= place <= old(channels)@.len() && #[trigger] old(channels)@.insert(place, channel)
                == final(channels)@,
{
    let ghost before = channel_list(channels@);
    let mut place: usize = 0;
    while place < channels.len() && texts_are_ordered(
        channels[place].label.as_str(),
        channel.label.as_str(),
    )
        invariant
            place <= channels.len(),
            before == channel_list(channels@),
            forall|k: int| 0 <= k < place ==> is_ordered(
                (#[trigger] before[k]).label,
                channel@.label,
            ),
        decreases channels.len() - place,
    {
        assert(before[place as int] == channels@[place as int]@);
        place = place + 1;
    }
    let ghost start = place as int;
    proof {
        assert forall|k: int| start <= k < before.len() implies is_ordered(
            channel@.label,
            (#[trigger] before[k]).label,
        ) by {
            assert(before[start] == channels@[start]@);
            order_is_total(before[start].label, channel@.label);
            assert(is_ordered(before[start].label, before[k].label));
            order_is_transitive(channel@.label, before[start].label, before[k].label);
        }
        order_is_total(channel@.label, channel@.label);
    }
    channels.insert(place, channel);
    proof {
        let after = channel_list(channels@);
        assert(after =~= before.insert(start, channel@));
        assert forall|i: int, j: int| 0 <= i <= j < after.len() implies is_ordered(
            (#[trigger] after[i]).label,
            (#[trigger] after[j]).label,
        ) by {
            if i < start && j > start {
                assert(after[i] == before[i] && after[j] == before[j - 1]);
            } else if i < start && j < start {
                assert(after[i] == before[i] && after[j] == before[j]);
            } else if i > start {
                assert(after[i] == before[i - 1] && after[j] == before[j - 1]);
            } else if i == start && j > start {
                assert(after[j] == before[j - 1]);
            } else if j == start && i < start {
                assert(after[i] == before[i]);
            }
        }
        assert forall|i: int, j: int| 0 <= i < j < after.len() implies (#[trigger] after[i]).label
            != (#[trigger] after[j]).label by {
            if i < start && j > start {
                assert(after[i] == before[i] && after[j] == before[j - 1]);
            } else if i < start && j < start {
                assert(after[i] == before[i] && after[j] == before[j]);
            } else if i > start {
                assert(after[i] == before[i - 1] && after[j] == before[j - 1]);
            } else if i == start {
                assert(after[j] == before[j - 1]);
            } else {
                assert(after[i] == before[i]);
            }
        }
        assert(old(channels)@.insert(start, channel) == channels@);
    }
}

/// Whether a candidate was checked in order, up to the first error: its entry, its identity and its
/// name.
pub open spec fn candidate_is_judged(
    before: Calls,
    after: Calls,
    entry: ListedEntry,
    outcome: Result<Option<FileIdentity>, CoretempErrorModel>,
) -> bool {
    match candidate_defect(entry) {
        Some(reason) => after == before && outcome == Err::<Option<FileIdentity>, _>(
            CoretempErrorModel::InvalidAbi { path: entry.path@, reason },
        ),
        None => candidate_identity_is_judged(before, after, entry, outcome),
    }
}

/// The part of that check from the identity on.
pub open spec fn candidate_identity_is_judged(
    before: Calls,
    after: Calls,
    entry: ListedEntry,
    outcome: Result<Option<FileIdentity>, CoretempErrorModel>,
) -> bool {
    exists|known: Calls, answer: Result<FileIdentity, PlatformError>|
        #[trigger] identity_came(before, known, entry.path@, answer) && match answer {
            Err(e) => after == known && outcome == Err::<Option<FileIdentity>, _>(
                CoretempErrorModel::Platform(e),
            ),
            Ok(identity) => candidate_name_is_judged(known, after, entry, identity, outcome),
        }
}

/// Whether a candidate's name was read, and tells whether it is the coretemp device.
pub open spec fn candidate_name_is_judged(
    before: Calls,
    after: Calls,
    entry: ListedEntry,
    identity: FileIdentity,
    outcome: Result<Option<FileIdentity>, CoretempErrorModel>,
) -> bool {
    exists|answer: Result<String, PlatformError>|
        #[trigger] contents_came(before, after, entry.path@, identity, "name"@, answer) && outcome
            == match answer {
            Err(e) => Err(CoretempErrorModel::Platform(e)),
            Ok(name) => if name@ == "coretemp\n"@ {
                Ok(Some(identity))
            } else {
                Ok(None)
            },
        }
}

/// The devices found after one more candidate.
pub open spec fn with_candidate(
    found: Seq<FoundDevice>,
    entry: ListedEntry,
    outcome: Result<Option<FileIdentity>, CoretempErrorModel>,
) -> Result<Seq<FoundDevice>, CoretempErrorModel> {
    match outcome {
        Err(error) => Err(error),
        Ok(None) => Ok(found),
        Ok(Some(identity)) => Ok(found.push((entry.path@, identity))),
    }
}

/// Whether the first candidates were checked in order, up to the first error.
pub open spec fn candidates_are_judged(
    before: Calls,
    after: Calls,
    entries: Seq<ListedEntry>,
    count: nat,
    search: Result<Seq<FoundDevice>, CoretempErrorModel>,
) -> bool
    decreases count,
{
    if count == 0 {
        after == before && search == Ok::<Seq<FoundDevice>, CoretempErrorModel>(Seq::empty())
    } else {
        ||| search is Err && candidates_are_judged(
            before,
            after,
            entries,
            (count - 1) as nat,
            search,
        )
        ||| exists|
            between: Calls,
            found: Seq<FoundDevice>,
            outcome: Result<Option<FileIdentity>, CoretempErrorModel>,
        |
            {
                &&& candidates_are_judged(
                    before,
                    between,
                    entries,
                    (count - 1) as nat,
                    Ok(found),
                )
                &&& #[trigger] candidate_is_judged(between, after, entries[count - 1], outcome)
                &&& search == #[trigger] with_candidate(found, entries[count - 1], outcome)
            }
    }
}

/// An error settles a search however many candidates follow.
proof fn lemma_search_ends(
    before: Calls,
    after: Calls,
    entries: Seq<ListedEntry>,
    count: nat,
    total: nat,
    error: CoretempErrorModel,
)
    requires
        count <= total,
        candidates_are_judged(before, after, entries, count, Err(error)),
    ensures
        candidates_are_judged(before, after, entries, total, Err(error)),
    decreases total - count,
{
    if count < total {
        lemma_search_ends(before, after, entries, count + 1, total, error);
    }
}

/// Whether the first call listed a directory, and a path is that of an acceptable candidate that came
/// back directly under it.
pub open spec fn lies_under(
    before: Calls,
    after: Calls,
    hwmon_root: Seq<char>,
    root: Seq<char>,
) -> bool {
    exists|entries: Vec<ListedEntry>, i: int|
        {
            &&& before.len() < after.len()
            &&& after[before.len() as int] == (MachineCall::List {
                root: hwmon_root,
                answer: Ok(entries),
            })
            &&& 0 <= i < entries@.len()
            &&& (#[trigger] entries@[i]).path@ == root
            &&& candidate_defect(entries@[i]) is None
        }
}

/// Every device that a search found is one of the candidates.
proof fn lemma_found_is_candidate(
    before: Calls,
    after: Calls,
    entries: Seq<ListedEntry>,
    count: nat,
    found: Seq<FoundDevice>,
    k: int,
) -> (i: int)
    requires
        candidates_are_judged(before, after, entries, count, Ok(found)),
        0 <= k < found.len(),
    ensures
        0 <= i < count,
        entries[i].path@ == found[k].0,
        candidate_defect(entries[i]) is None,
    decreases count,
{
    let (between, earlier, outcome) = choose|
        between: Calls,
        earlier: Seq<FoundDevice>,
        outcome: Result<Option<FileIdentity>, CoretempErrorModel>,
    |
        {
            &&& candidates_are_judged(before, between, entries, (count - 1) as nat, Ok(earlier))
            &&& #[trigger] candidate_is_judged(between, after, entries[count - 1], outcome)
            &&& Ok::<Seq<FoundDevice>, CoretempErrorModel>(found) == #[trigger] with_candidate(
                earlier,
                entries[count - 1],
                outcome,
            )
        };
    if k < earlier.len() {
        lemma_found_is_candidate(before, between, entries, (count - 1) as nat, earlier, k)
    } else {
        count - 1
    }
}

/// The one device found, or why there is not exactly one.
pub open spec fn only_found(found: Seq<FoundDevice>) -> Result<FoundDevice, CoretempErrorModel> {
    if found.len() == 0 {
        Err(CoretempErrorModel::NoDevice)
    } else if found.len() > 1 {
        Err(CoretempErrorModel::AmbiguousDevices { count: found.len() as int })
    } else {
        Ok(found[0])
    }
}

/// What a choice among the devices found gives.
pub open spec fn choice_of(
    result: Result<(String, FileIdentity), CoretempError>,
) -> Result<FoundDevice, CoretempErrorModel> {
    match result {
        Ok(device) => Ok((device.0@, device.1)),
        Err(error) => Err(error@),
    }
}

/// Takes the one device found.
pub fn only_coretemp(found: Vec<(String, FileIdentity)>) -> (result: Result<
    (String, FileIdentity),
    CoretempError,
>)
    ensures
        choice_of(result) == only_found(found_list(found@)),
{
    let mut found = found;
    let count: usize = found.len();
    if count > 1 {
        return Err(CoretempError::AmbiguousDevices { count });
    }
    match found.pop() {
        Some(device) => Ok(device),
        None => Err(CoretempError::NoDevice),
    }
}

/// Whether the directory was listed and its candidates were checked in order, and the one device
/// among them is what came of it.
pub open spec fn device_came(
    before: Calls,
    after: Calls,
    hwmon_root: Seq<char>,
    device: Result<FoundDevice, CoretempErrorModel>,
) -> bool {
    exists|listed: Calls, listing: Result<Vec<ListedEntry>, PlatformError>|
        #[trigger] listing_came(before, listed, hwmon_root, listing) && match listing {
            Err(e) => after == listed && device == Err::<FoundDevice, _>(
                CoretempErrorModel::Platform(e),
            ),
            Ok(entries) => device_is_among(listed, after, entries@, device),
        }
}

/// Whether candidates were checked in order, and the one device among them is what came of it.
pub open spec fn device_is_among(
    before: Calls,
    after: Calls,
    entries: Seq<ListedEntry>,
    device: Result<FoundDevice, CoretempErrorModel>,
) -> bool {
    exists|search: Result<Seq<FoundDevice>, CoretempErrorModel>|
        #[trigger] candidates_are_judged(before, after, entries, entries.len(), search) && device
            == match search {
            Err(e) => Err(e),
            Ok(found) => only_found(found),
        }
}

/// What one candidate gives.
pub open spec fn candidate_of(result: Result<Option<FileIdentity>, CoretempError>) -> Result<
    Option<FileIdentity>,
    CoretempErrorModel,
> {
    match result {
        Ok(found) => Ok(found),
        Err(error) => Err(error@),
    }
}

/// Checks one candidate, and gives its identity where it is the coretemp device.
fn judge_candidate<F>(files: &mut F, entry: &ListedEntry) -> (result: Result<
    Option<FileIdentity>,
    CoretempError,
>) where F: IdentityBoundReadAccess + ?Sized
    ensures
        grows(old(files).history(), final(files).history()),
        candidate_is_judged(
            old(files).history(),
            final(files).history(),
            *entry,
            candidate_of(result),
        ),
{
    broadcast use group_grows;

    match validate_coretemp_entry(entry) {
        Ok(()) => {},
        Err(error) => {
            return Err(error);
        },
    }
    let ghost asked = files.history();
    let answer = files.identity(entry.path.as_str());
    assert(identity_came(asked, files.history(), entry.path@, answer));
    let identity = match answer {
        Ok(identity) => identity,
        Err(error) => {
            return Err(CoretempError::Platform(error));
        },
    };
    let ghost asked = files.history();
    let answer = files.read_bound(entry.path.as_str(), identity, "name");
    assert(contents_came(asked, files.history(), entry.path@, identity, "name"@, answer));
    match answer {
        Ok(name) => if same_text(name.as_str(), "coretemp\n") {
            Ok(Some(identity))
        } else {
            Ok(None)
        },
        Err(error) => Err(CoretempError::Platform(error)),
    }
}

fn find_unique_coretemp<F>(files: &mut F, hwmon_root: &str) -> (result: Result<
    (String, FileIdentity),
    CoretempError,
>) where F: IdentityBoundReadAccess + ?Sized
    ensures
        grows(old(files).history(), final(files).history()),
        device_came(old(files).history(), final(files).history(), hwmon_root@, choice_of(result)),
        result matches Ok(device) ==> lies_under(
            old(files).history(),
            final(files).history(),
            hwmon_root@,
            device.0@,
        ),
{
    broadcast use group_grows;

    let ghost asked = files.history();
    let listing = files.list(hwmon_root);
    assert(listing_came(asked, files.history(), hwmon_root@, listing));
    let candidates = match listing {
        Ok(candidates) => candidates,
        Err(error) => {
            return Err(CoretempError::Platform(error));
        },
    };
    let ghost listed = files.history();
    let mut matches: Vec<(String, FileIdentity)> = Vec::new();
    let mut i: usize = 0;
    assert(found_list(matches@) =~= Seq::empty());
    while i < candidates.len()
        invariant
            i <= candidates.len(),
            listing_came(old(files).history(), listed, hwmon_root@, Ok(candidates)),
            grows(listed, files.history()),
            candidates_are_judged(
                listed,
                files.history(),
                candidates@,
                i as nat,
                Ok(found_list(matches@)),
            ),
        decreases candidates.len() - i,
    {
        broadcast use group_grows;

        let ghost found = found_list(matches@);
        let judged = judge_candidate(files, &candidates[i]);
        let ghost next = with_candidate(found, candidates@[i as int], candidate_of(judged));
        assert(candidates_are_judged(
            listed,
            files.history(),
            candidates@,
            (i + 1) as nat,
            next,
        ));
        match judged {
            Ok(None) => {},
            Ok(Some(identity)) => {
                matches.push((candidates[i].path.clone(), identity));
                assert(found_list(matches@) =~= found.push((candidates@[i as int].path@, identity)));
            },
            Err(error) => {
                proof {
                    lemma_search_ends(
                        listed,
                        files.history(),
                        candidates@,
                        (i + 1) as nat,
                        candidates@.len(),
                        error@,
                    );
                }
                return Err(error);
            },
        }
        i = i + 1;
    }
    let ghost found = found_list(matches@);
    let result = only_coretemp(matches);
    proof {
        if result is Ok {
            let place = lemma_found_is_candidate(
                listed,
                files.history(),
                candidates@,
                candidates@.len(),
                found,
                0,
            );
            assert(candidates@[place].path@ == found[0].0);
        }
    }
    result
}

fn entry_is_repeated(entries: &Vec<ListedEntry>, count: usize) -> (yes: bool)
    requires
        count < entries@.len(),
    ensures
        yes == exists|j: int|
            0 <= j < count && (#[trigger] entries@[j]).path@ == entries@[count as int].path@,
{
    let mut i: usize = 0;
    while i < count
        invariant
            i <= count < entries@.len(),
            forall|j: int|
                0 <= j < i ==> (#[trigger] entries@[j]).path@ != entries@[count as int].path@,
        decreases count - i,
    {
        if same_text(entries[i].path.as_str(), entries[count].path.as_str()) {
            return true;
        }
        i = i + 1;
    }
    false
}

/// What is wrong with the entry of a device's directory at a place.
pub open spec fn entry_defect(entries: Seq<ListedEntry>, index: int) -> Option<Seq<char>> {
    let entry = entries[index];
    if !entry.is_direct_child {
        Some("channel entry is not a direct child: "@ + entry.path@)
    } else if exists|j: int| 0 <= j < index && (#[trigger] entries[j]).path@ == entry.path@ {
        Some("duplicate channel entry: "@ + entry.path@)
    } else if entry.name is None {
        Some("non-UTF-8 channel entry"@)
    } else {
        None
    }
}

/// Judges the entry of a device's directory at a place.
pub fn validate_channel_entry(
    root: &str,
    entries: &Vec<ListedEntry>,
    index: usize,
) -> (result: Result<
    (),
    CoretempError,
>)
    requires
        index < entries@.len(),
    ensures
        abi_refusal(result, root@, entry_defect(entries@, index as int)),
{
    let entry = &entries[index];
    if !entry.is_direct_child {
        return Err(
            invalid_abi(
                root,
                join("channel entry is not a direct child: ", entry.path.as_str()).as_str(),
            ),
        );
    }
    if entry_is_repeated(entries, index) {
        return Err(
            invalid_abi(root, join("duplicate channel entry: ", entry.path.as_str()).as_str()),
        );
    }
    if entry.name.is_none() {
        return Err(invalid_abi(root, "non-UTF-8 channel entry"));
    }
    Ok(())
}

/// Whether a label is among those of channels.
pub open spec fn label_is_taken(channels: Seq<ChannelModel>, label: Seq<char>) -> bool {
    exists|i: int| 0 <= i < channels.len() && (#[trigger] channels[i]).label == label
}

/// What a label's contents add to the channels found so far.
pub open spec fn channel_of(
    known: Seq<ChannelModel>,
    path: Seq<char>,
    index: Seq<char>,
    payload: Seq<char>,
) -> Result<Option<ChannelModel>, CoretempErrorModel> {
    match label_reading(payload) {
        LabelReading::Invalid(reason) => Err(CoretempErrorModel::InvalidAbi { path, reason }),
        LabelReading::Unselected => Ok(None),
        LabelReading::Selected { label, is_package } => if label_is_taken(known, label) {
            Err(
                CoretempErrorModel::InvalidAbi {
                    path,
                    reason: "duplicate selected channel label "@ + label,
                },
            )
        } else {
            Ok(Some(ChannelModel { index, label, is_package }))
        },
    }
}

/// Whether an entry of a device's directory was checked, and its label was read where it is one.
pub open spec fn entry_is_read(
    before: Calls,
    after: Calls,
    device: FoundDevice,
    entries: Seq<ListedEntry>,
    place: int,
    known: Seq<ChannelModel>,
    outcome: Result<Option<ChannelModel>, CoretempErrorModel>,
) -> bool {
    let entry = entries[place];
    match entry_defect(entries, place) {
        Some(reason) => after == before && outcome == Err::<Option<ChannelModel>, _>(
            CoretempErrorModel::InvalidAbi { path: device.0, reason },
        ),
        None => {
            let name = entry.name->0@;
            match label_name(name) {
                LabelName::Unrelated => after == before && outcome == Ok::<
                    Option<ChannelModel>,
                    CoretempErrorModel,
                >(None),
                LabelName::Malformed => after == before && outcome == Err::<
                    Option<ChannelModel>,
                    _,
                >(
                    CoretempErrorModel::InvalidAbi {
                        path: name,
                        reason: "malformed temperature label filename"@,
                    },
                ),
                LabelName::Channel(index) => label_is_read(
                    before,
                    after,
                    device,
                    entry,
                    index,
                    known,
                    outcome,
                ),
            }
        },
    }
}

/// Whether a label was read, and the channel is what came of it.
pub open spec fn label_is_read(
    before: Calls,
    after: Calls,
    device: FoundDevice,
    entry: ListedEntry,
    index: Seq<char>,
    known: Seq<ChannelModel>,
    outcome: Result<Option<ChannelModel>, CoretempErrorModel>,
) -> bool {
    exists|answer: Result<String, PlatformError>|
        #[trigger] contents_came(
            before,
            after,
            device.0,
            device.1,
            entry.name->0@,
            answer,
        ) && outcome
            == match answer {
            Err(e) => Err(CoretempErrorModel::Platform(e)),
            Ok(payload) => channel_of(known, entry.path@, index, payload@),
        }
}

/// Whether channels are ordered ones with one more in its place.
pub open spec fn is_inserted(
    before: Seq<ChannelModel>,
    channel: ChannelModel,
    after: Seq<ChannelModel>,
) -> bool {
    &&& labels_are_ordered(after)
    &&& exists|place: int|
        0 <= place <= before.len() && after == #[trigger] before.insert(place, channel)
}

/// Whether a search is one that goes on by an entry.
pub open spec fn goes_on_with(
    before: Seq<ChannelModel>,
    outcome: Result<Option<ChannelModel>, CoretempErrorModel>,
    search: Result<Seq<ChannelModel>, CoretempErrorModel>,
) -> bool {
    match outcome {
        Err(error) => search == Err::<Seq<ChannelModel>, _>(error),
        Ok(None) => search == Ok::<_, CoretempErrorModel>(before),
        Ok(Some(channel)) => search matches Ok(after) && is_inserted(before, channel, after),
    }
}

/// Whether the first entries of a device's directory were read in order, up to the first error.
pub open spec fn channels_are_read(
    before: Calls,
    after: Calls,
    device: FoundDevice,
    entries: Seq<ListedEntry>,
    count: nat,
    search: Result<Seq<ChannelModel>, CoretempErrorModel>,
) -> bool
    decreases count,
{
    if count == 0 {
        after == before && search == Ok::<Seq<ChannelModel>, CoretempErrorModel>(Seq::empty())
    } else {
        ||| search is Err && channels_are_read(
            before,
            after,
            device,
            entries,
            (count - 1) as nat,
            search,
        )
        ||| exists|
            between: Calls,
            known: Seq<ChannelModel>,
            outcome: Result<Option<ChannelModel>, CoretempErrorModel>,
        |
            {
                &&& channels_are_read(
                    before,
                    between,
                    device,
                    entries,
                    (count - 1) as nat,
                    Ok(known),
                )
                &&& #[trigger] entry_is_read(
                    between,
                    after,
                    device,
                    entries,
                    count - 1,
                    known,
                    outcome,
                )
                &&& #[trigger] goes_on_with(known, outcome, search)
            }
    }
}

/// An error settles the channels however many entries follow.
proof fn lemma_reading_ends(
    before: Calls,
    after: Calls,
    device: FoundDevice,
    entries: Seq<ListedEntry>,
    count: nat,
    total: nat,
    error: CoretempErrorModel,
)
    requires
        count <= total,
        channels_are_read(before, after, device, entries, count, Err(error)),
    ensures
        channels_are_read(before, after, device, entries, total, Err(error)),
    decreases total - count,
{
    if count < total {
        lemma_reading_ends(before, after, device, entries, count + 1, total, error);
    }
}

/// Whether the package is among channels.
pub open spec fn package_is_among(channels: Seq<ChannelModel>) -> bool {
    exists|i: int| 0 <= i < channels.len() && (#[trigger] channels[i]).is_package
}

/// Whether a device's directory was listed and its entries were read in order, and the channels are
/// what came of it.
pub open spec fn channels_came(
    before: Calls,
    after: Calls,
    device: FoundDevice,
    channels: Result<Seq<ChannelModel>, CoretempErrorModel>,
) -> bool {
    exists|listed: Calls, listing: Result<Vec<ListedEntry>, PlatformError>|
        #[trigger] bound_listing_came(before, listed, device.0, device.1, listing) && match listing {
            Err(e) => after == listed && channels == Err::<Seq<ChannelModel>, _>(
                CoretempErrorModel::Platform(e),
            ),
            Ok(entries) => channels_are_among(listed, after, device, entries@, channels),
        }
}

/// Whether the entries of a device's directory were read in order, and the channels with the package
/// among them are what came of it.
pub open spec fn channels_are_among(
    before: Calls,
    after: Calls,
    device: FoundDevice,
    entries: Seq<ListedEntry>,
    channels: Result<Seq<ChannelModel>, CoretempErrorModel>,
) -> bool {
    exists|search: Result<Seq<ChannelModel>, CoretempErrorModel>|
        #[trigger] channels_are_read(before, after, device, entries, entries.len(), search)
            && channels
            == match search {
            Err(e) => Err(e),
            Ok(found) => if package_is_among(found) {
                Ok(found)
            } else {
                Err(CoretempErrorModel::MissingPackageChannel)
            },
        }
}

/// Reads one entry of a device's directory.
fn read_entry<F>(
    files: &mut F,
    root: &str,
    backing_identity: FileIdentity,
    entries: &Vec<ListedEntry>,
    place: usize,
    channels: &Vec<CoretempChannel>,
) -> (result: Result<Option<CoretempChannel>, CoretempError>) where
    F: IdentityBoundReadAccess + ?Sized,

    requires
        place < entries@.len(),
    ensures
        grows(old(files).history(), final(files).history()),
        entry_is_read(old(files).history(), final(files).history(), (root@, backing_identity),
            entries@,
            place as int,
            channel_list(channels@),
            entry_outcome(result),
        ),
        result matches Ok(Some(channel)) ==> !label_is_taken(
            channel_list(channels@),
            channel@.label,
        ),
{
    broadcast use group_grows;

    match validate_channel_entry(root, entries, place) {
        Ok(()) => {},
        Err(error) => {
            return Err(error);
        },
    }
    let entry = &entries[place];
    let name = entry.name.as_ref().unwrap().as_str();
    let index = match temperature_label_index(name) {
        Ok(index) => index,
        Err(error) => {
            return Err(error);
        },
    };
    let index = match index {
        Some(index) => index,
        None => {
            return Ok(None);
        },
    };
    let ghost asked = files.history();
    let answer = files.read_bound(root, backing_identity, name);
    let ghost device = (root@, backing_identity);
    assert(contents_came(asked, files.history(), device.0, device.1, entry.name->0@, answer));
    let payload = match answer {
        Ok(payload) => payload,
        Err(error) => {
            return Err(CoretempError::Platform(error));
        },
    };
    match selected_label(payload.as_str(), entry.path.as_str()) {
        Err(error) => Err(error),
        Ok(None) => Ok(None),
        Ok(Some((label, is_package))) => {
            if label_is_known(channels, label.as_str()) {
                return Err(
                    invalid_abi(
                        entry.path.as_str(),
                        join("duplicate selected channel label ", label.as_str()).as_str(),
                    ),
                );
            }
            Ok(Some(CoretempChannel { index, label, is_package }))
        },
    }
}

/// What an entry gives.
pub open spec fn entry_outcome(
    result: Result<Option<CoretempChannel>, CoretempError>,
) -> Result<Option<ChannelModel>, CoretempErrorModel> {
    match result {
        Ok(Some(channel)) => Ok(Some(channel@)),
        Ok(None) => Ok(None),
        Err(error) => Err(error@),
    }
}

/// What the reading of a device's channels gives.
pub open spec fn channels_outcome(
    result: Result<Vec<CoretempChannel>, CoretempError>,
) -> Result<Seq<ChannelModel>, CoretempErrorModel> {
    match result {
        Ok(channels) => Ok(channel_list(channels@)),
        Err(error) => Err(error@),
    }
}

fn discover_channels<F>(
    files: &mut F,
    root: &str,
    backing_identity: FileIdentity,
) -> (result: Result<
    Vec<CoretempChannel>,
    CoretempError,
>) where F: IdentityBoundReadAccess + ?Sized
    ensures
        grows(old(files).history(), final(files).history()),
        channels_came(
            old(files).history(),
            final(files).history(),
            (root@, backing_identity),
            channels_outcome(result),
        ),
        result matches Ok(channels) ==> channels_are_valid(channel_list(channels@)),
{
    broadcast use group_grows;

    let ghost device = (root@, backing_identity);
    let ghost asked = files.history();
    let listing = files.list_bound(root, backing_identity);
    assert(bound_listing_came(asked, files.history(), device.0, device.1, listing));
    let entries = match listing {
        Ok(entries) => entries,
        Err(error) => {
            return Err(CoretempError::Platform(error));
        },
    };
    let ghost listed = files.history();
    let mut channels: Vec<CoretempChannel> = Vec::new();
    let mut i: usize = 0;
    assert(channel_list(channels@) =~= Seq::empty());
    while i < entries.len()
        invariant
            i <= entries.len(),
            device == (root@, backing_identity),
            bound_listing_came(
                old(files).history(),
                listed,
                device.0,
                device.1,
                Ok(entries),
            ),
            grows(old(files).history(), files.history()),
            channels_are_read(
                listed,
                files.history(),
                device,
                entries@,
                i as nat,
                Ok(channel_list(channels@)),
            ),
            labels_are_ordered(channel_list(channels@)),
            labels_are_distinct(channel_list(channels@)),
        decreases entries.len() - i,
    {
        broadcast use group_grows;

        let ghost before = channel_list(channels@);
        let ghost asked = files.history();
        let read = read_entry(files, root, backing_identity, &entries, i, &channels);
        let ghost outcome = entry_outcome(read);
        assert(entry_is_read(
            asked,
            files.history(),
            device,
            entries@,
            (i + 1) as nat - 1,
            before,
            outcome,
        ));
        match read {
            Err(error) => {
                proof {
                    assert(goes_on_with(before, outcome, Err(error@)));
                    lemma_reading_ends(
                        listed,
                        files.history(),
                        device,
                        entries@,
                        (i + 1) as nat,
                        entries@.len(),
                        error@,
                    );
                }
                return Err(error);
            },
            Ok(None) => {
                assert(goes_on_with(before, outcome, Ok(before)));
            },
            Ok(Some(channel)) => {
                let ghost earlier = channels@;
                insert_ordered(&mut channels, channel);
                proof {
                    let place = choose|place: int|
                        0 <= place <= earlier.len() && #[trigger] earlier.insert(place, channel)
                            == channels@;
                    assert(channel_list(channels@) =~= before.insert(place, channel@));
                    assert(goes_on_with(before, outcome, Ok(channel_list(channels@))));
                }
            },
        }
        i = i + 1;
    }
    if !has_package(&channels) {
        return Err(CoretempError::MissingPackageChannel);
    }
    Ok(channels)
}

fn same_channels(left: &Vec<CoretempChannel>, right: &Vec<CoretempChannel>) -> (same: bool)
    ensures
        same == (channel_list(left@) == channel_list(right@)),
{
    let ghost a = channel_list(left@);
    let ghost b = channel_list(right@);
    if left.len() != right.len() {
        assert(a.len() != b.len());
        return false;
    }
    let mut i: usize = 0;
    while i < left.len()
        invariant
            i <= left.len(),
            left.len() == right.len(),
            a == channel_list(left@),
            b == channel_list(right@),
            forall|k: int| 0 <= k < i ==> a[k] == b[k],
        decreases left.len() - i,
    {
        if !(same_text(left[i].index.as_str(), right[i].index.as_str()) && same_text(
            left[i].label.as_str(),
            right[i].label.as_str(),
        ) && left[i].is_package == right[i].is_package) {
            assert(a[i as int] != b[i as int]);
            return false;
        }
        assert(a[i as int] == b[i as int]);
        i = i + 1;
    }
    assert(a =~= b);
    true
}

/// What a discovery gives.
pub open spec fn discovery_of(result: Result<CoretempDevice, CoretempError>) -> Result<
    CoretempModel,
    CoretempErrorModel,
> {
    match result {
        Ok(device) => Ok(device@),
        Err(error) => Err(error@),
    }
}

/// Whether the device was found, its channels were read, and both were confirmed, and a discovery is
/// what came of it.
pub open spec fn discovery_came(
    before: Calls,
    after: Calls,
    hwmon_root: Seq<char>,
    outcome: Result<CoretempModel, CoretempErrorModel>,
) -> bool {
    exists|found: Calls, device: Result<FoundDevice, CoretempErrorModel>|
        #[trigger] device_came(before, found, hwmon_root, device) && match device {
            Err(e) => after == found && outcome == Err::<CoretempModel, _>(e),
            Ok(device) => channels_discovery_came(found, after, hwmon_root, device, outcome),
        }
}

/// The part of a discovery that follows the first look for the device.
pub open spec fn channels_discovery_came(
    before: Calls,
    after: Calls,
    hwmon_root: Seq<char>,
    device: FoundDevice,
    outcome: Result<CoretempModel, CoretempErrorModel>,
) -> bool {
    exists|read: Calls, channels: Result<Seq<ChannelModel>, CoretempErrorModel>|
        #[trigger] channels_came(before, read, device, channels) && match channels {
            Err(e) => after == read && outcome == Err::<CoretempModel, _>(e),
            Ok(channels) => confirmation_came(
                read,
                after,
                hwmon_root,
                device,
                channels,
                outcome,
            ),
        }
}

/// The part of a discovery that looks for the same device again.
pub open spec fn confirmation_came(
    before: Calls,
    after: Calls,
    hwmon_root: Seq<char>,
    device: FoundDevice,
    channels: Seq<ChannelModel>,
    outcome: Result<CoretempModel, CoretempErrorModel>,
) -> bool {
    exists|found: Calls, again: Result<FoundDevice, CoretempErrorModel>|
        #[trigger] device_came(before, found, hwmon_root, again) && match again {
            Err(e) => after == found && outcome == Err::<CoretempModel, _>(e),
            Ok(again) => if again != device {
                after == found && outcome == Err::<CoretempModel, _>(
                    CoretempErrorModel::InvalidAbi {
                        path: device.0,
                        reason: "coretemp backing device changed during discovery"@,
                    },
                )
            } else {
                channels_confirmation_came(
                    found,
                    after,
                    hwmon_root,
                    device,
                    channels,
                    outcome,
                )
            },
        }
}

/// The part of a discovery that reads the same channels again.
pub open spec fn channels_confirmation_came(
    before: Calls,
    after: Calls,
    hwmon_root: Seq<char>,
    device: FoundDevice,
    channels: Seq<ChannelModel>,
    outcome: Result<CoretempModel, CoretempErrorModel>,
) -> bool {
    exists|again: Result<Seq<ChannelModel>, CoretempErrorModel>|
        #[trigger] channels_came(before, after, device, again) && outcome == match again {
            Err(e) => Err(e),
            Ok(again) => if again != channels {
                Err(
                    CoretempErrorModel::InvalidAbi {
                        path: device.0,
                        reason: "coretemp channel labels changed during discovery"@,
                    },
                )
            } else {
                Ok(
                    CoretempModel {
                        hwmon_root,
                        root: device.0,
                        backing_identity: device.1,
                        channels,
                    },
                )
            },
        }
}

/// Finds the one coretemp device and its selected channels, twice, and only where both agree.
///
/// Whatever the files hold, the device that is returned lies directly under the directory that was
/// listed, and its channels are ordered, distinct, and have the package among them.
pub fn discover_coretemp<F>(files: &mut F, hwmon_root: &str) -> (result: Result<
    CoretempDevice,
    CoretempError,
>) where F: IdentityBoundReadAccess + ?Sized
    ensures
        grows(old(files).history(), final(files).history()),
        discovery_came(
            old(files).history(),
            final(files).history(),
            hwmon_root@,
            discovery_of(result),
        ),
        result matches Ok(device) ==> device@.hwmon_root == hwmon_root@ && channels_are_valid(
            device@.channels,
        ) && lies_under(old(files).history(), final(files).history(), hwmon_root@, device@.root),
{
    broadcast use group_grows;

    let found = find_unique_coretemp(files, hwmon_root);
    let (root, backing_identity) = match found {
        Ok(found) => found,
        Err(error) => {
            return Err(error);
        },
    };
    let ghost device = (root@, backing_identity);
    let channels = discover_channels(files, root.as_str(), backing_identity);
    let channels = match channels {
        Ok(channels) => channels,
        Err(error) => {
            return Err(error);
        },
    };
    let result = confirm_coretemp(files, hwmon_root, root, backing_identity, channels);
    result
}

/// Looks for the same device and reads the same channels again.
fn confirm_coretemp<F>(
    files: &mut F,
    hwmon_root: &str,
    root: String,
    backing_identity: FileIdentity,
    channels: Vec<CoretempChannel>,
) -> (result: Result<CoretempDevice, CoretempError>) where F: IdentityBoundReadAccess + ?Sized
    ensures
        grows(old(files).history(), final(files).history()),
        confirmation_came(old(files).history(), final(files).history(), hwmon_root@,
            (root@, backing_identity),
            channel_list(channels@),
            discovery_of(result),
        ),
        result matches Ok(device) ==> device@ == (CoretempModel {
            hwmon_root: hwmon_root@,
            root: root@,
            backing_identity,
            channels: channel_list(channels@),
        }),
{
    broadcast use group_grows;

    let found = find_unique_coretemp(files, hwmon_root);
    let (final_root, final_identity) = match found {
        Ok(found) => found,
        Err(error) => {
            return Err(error);
        },
    };
    if !same_text(final_root.as_str(), root.as_str()) || final_identity != backing_identity {
        return Err(
            invalid_abi(root.as_str(), "coretemp backing device changed during discovery"),
        );
    }
    let again = discover_channels(files, root.as_str(), backing_identity);
    let final_channels = match again {
        Ok(channels) => channels,
        Err(error) => {
            return Err(error);
        },
    };
    if !same_channels(&final_channels, &channels) {
        return Err(
            invalid_abi(root.as_str(), "coretemp channel labels changed during discovery"),
        );
    }
    Ok(CoretempDevice { hwmon_root: hwmon_root.to_owned(), root, backing_identity, channels })
}

/// What an optional alarm file tells: absent or clear is fine.
pub open spec fn flag_error(
    contents: Result<String, PlatformError>,
    path: Seq<char>,
    description: Seq<char>,
) -> Option<CoretempErrorModel> {
    match contents {
        Ok(payload) => if payload@ == "0\n"@ {
            None
        } else {
            Some(
                CoretempErrorModel::InvalidSample {
                    path,
                    reason: if payload@ == "1\n"@ {
                        description + " is asserted"@
                    } else {
                        description + " is not a sysfs boolean"@
                    },
                },
            )
        },
        Err(error) => if error.kind == PlatformErrorKind::NotFound {
            None
        } else {
            Some(CoretempErrorModel::Platform(error))
        },
    }
}

/// The file of a channel.
pub open spec fn channel_file(index: Seq<char>, suffix: Seq<char>) -> Seq<char> {
    "temp"@ + index + "_"@ + suffix
}

/// Whether an alarm file of a channel was read, and what it tells is what came of it.
pub open spec fn flag_came(
    before: Calls,
    after: Calls,
    device: FoundDevice,
    index: Seq<char>,
    suffix: Seq<char>,
    description: Seq<char>,
    error: Option<CoretempErrorModel>,
) -> bool {
    let child = channel_file(index, suffix);
    exists|contents: Result<String, PlatformError>|
        #[trigger] contents_came(before, after, device.0, device.1, child, contents) && error
            == flag_error(
            contents,
            child_path(device.0, child),
            description,
        )
}

/// Whether both alarms of a channel were read, and tell nothing or the error.
pub open spec fn alarms_came(
    before: Calls,
    after: Calls,
    device: FoundDevice,
    index: Seq<char>,
    error: Option<CoretempErrorModel>,
) -> bool {
    ||| error is Some && flag_came(before, after, device, index, "fault"@, "fault"@, error)
    ||| exists|between: Calls|
        #[trigger] flag_came(before, between, device, index, "fault"@, "fault"@, None)
            && flag_came(
            between,
            after,
            device,
            index,
            "crit_alarm"@,
            "critical alarm"@,
            error,
        )
}

/// Whether a numeric file of a channel was read, and the number is what came of it.
pub open spec fn number_came(
    before: Calls,
    after: Calls,
    device: FoundDevice,
    child: Seq<char>,
    number: Result<i64, CoretempErrorModel>,
) -> bool {
    exists|contents: Result<String, PlatformError>|
        #[trigger] contents_came(before, after, device.0, device.1, child, contents) && match contents {
            Err(e) => number == Err::<i64, _>(CoretempErrorModel::Platform(e)),
            Ok(payload) => match sysfs_number(payload@) {
                Ok(value) => number matches Ok(found) && found == value,
                Err(reason) => number == Err::<i64, _>(
                    CoretempErrorModel::InvalidSample { path: child_path(device.0, child), reason },
                ),
            },
        }
}

/// The error of a temperature and its maximum.
pub open spec fn reading_error(
    root: Seq<char>,
    index: Seq<char>,
    input: i64,
    tjmax: i64,
) -> Option<CoretempErrorModel> {
    match reading_defect(input, tjmax) {
        None => None,
        Some((at_maximum, reason)) => Some(
            CoretempErrorModel::InvalidSample {
                path: child_path(
                    root,
                    if at_maximum {
                        "temp"@ + index + "_crit"@
                    } else {
                        "temp"@ + index + "_input"@
                    },
                ),
                reason,
            },
        ),
    }
}

/// Whether a channel was read in order, up to the first error: its alarms, its temperature and its
/// maximum, and its alarms again.
pub open spec fn channel_came(
    before: Calls,
    after: Calls,
    device: FoundDevice,
    index: Seq<char>,
    outcome: Result<i64, CoretempErrorModel>,
) -> bool {
    ||| outcome matches Err(e) && alarms_came(before, after, device, index, Some(e))
    ||| exists|between: Calls|
        #[trigger] alarms_came(before, between, device, index, None) && input_came(
            between,
            after,
            device,
            index,
            outcome,
        )
}

/// The part of that from the temperature on.
pub open spec fn input_came(
    before: Calls,
    after: Calls,
    device: FoundDevice,
    index: Seq<char>,
    outcome: Result<i64, CoretempErrorModel>,
) -> bool {
    exists|read: Calls, input: Result<i64, CoretempErrorModel>|
        #[trigger] number_came(before, read, device, "temp"@ + index + "_input"@, input)
            && match input {
            Err(e) => after == read && outcome == Err::<i64, _>(e),
            Ok(input) => maximum_came(read, after, device, index, input, outcome),
        }
}

/// The part of that from the maximum on.
pub open spec fn maximum_came(
    before: Calls,
    after: Calls,
    device: FoundDevice,
    index: Seq<char>,
    input: i64,
    outcome: Result<i64, CoretempErrorModel>,
) -> bool {
    exists|read: Calls, tjmax: Result<i64, CoretempErrorModel>|
        #[trigger] number_came(before, read, device, "temp"@ + index + "_crit"@, tjmax)
            && match tjmax {
            Err(e) => after == read && outcome == Err::<i64, _>(e),
            Ok(tjmax) => match reading_error(device.0, index, input, tjmax) {
                Some(e) => after == read && outcome == Err::<i64, _>(e),
                None => match outcome {
                    Err(e) => alarms_came(read, after, device, index, Some(e)),
                    Ok(reading) => reading == input && alarms_came(
                        read,
                        after,
                        device,
                        index,
                        None,
                    ),
                },
            },
        }
}

/// What a number gives.
pub open spec fn number_of(result: Result<i64, CoretempError>) -> Result<i64, CoretempErrorModel> {
    match result {
        Ok(number) => Ok(number),
        Err(error) => Err(error@),
    }
}

/// What a check gives.
pub open spec fn check_of(result: Result<(), CoretempError>) -> Option<CoretempErrorModel> {
    match result {
        Ok(_) => None,
        Err(error) => Some(error@),
    }
}

fn reject_asserted_flag<F>(
    files: &mut F,
    root: &str,
    backing_identity: FileIdentity,
    index: &str,
    suffix: &str,
    description: &str,
) -> (result: Result<(), CoretempError>) where F: IdentityBoundReadAccess + ?Sized
    ensures
        grows(old(files).history(), final(files).history()),
        flag_came(old(files).history(), final(files).history(), (root@, backing_identity),
            index@,
            suffix@,
            description@,
            check_of(result),
        ),
{
    broadcast use group_grows;

    let mut child = join3("temp", index, "_");
    child.append(suffix);
    let path = join_path(root, child.as_str());
    let ghost asked = files.history();
    let contents = files.read_bound(root, backing_identity, child.as_str());
    assert(child@ == channel_file(index@, suffix@));
    let ghost device = (root@, backing_identity);
    assert(contents_came(asked, files.history(), device.0, device.1, child@, contents));
    judge_flag(contents, path.as_str(), description)
}

/// Reads both alarms of a channel.
fn reject_alarms<F>(
    files: &mut F,
    root: &str,
    backing_identity: FileIdentity,
    index: &str,
) -> (result:
    Result<(), CoretempError>) where F: IdentityBoundReadAccess + ?Sized
    ensures
        grows(old(files).history(), final(files).history()),
        alarms_came(
            old(files).history(),
            final(files).history(),
            (root@, backing_identity),
            index@,
            check_of(result),
        ),
{
    broadcast use group_grows;

    match reject_asserted_flag(files, root, backing_identity, index, "fault", "fault") {
        Ok(()) => {},
        Err(error) => {
            return Err(error);
        },
    }
    reject_asserted_flag(files, root, backing_identity, index, "crit_alarm", "critical alarm")
}

fn read_number<F>(
    files: &mut F,
    root: &str,
    backing_identity: FileIdentity,
    child: &str,
) -> (result: Result<i64, CoretempError>) where F: IdentityBoundReadAccess + ?Sized
    ensures
        grows(old(files).history(), final(files).history()),
        number_came(
            old(files).history(),
            final(files).history(),
            (root@, backing_identity),
            child@,
            number_of(result),
        ),
        result matches Ok(number) ==> number >= 0,
{
    broadcast use group_grows;

    let ghost asked = files.history();
    let contents = files.read_bound(root, backing_identity, child);
    let ghost device = (root@, backing_identity);
    assert(contents_came(asked, files.history(), device.0, device.1, child@, contents));
    match contents {
        Ok(payload) => parse_number(payload.as_str(), join_path(root, child).as_str()),
        Err(error) => Err(CoretempError::Platform(error)),
    }
}

/// Reads one channel, with its alarms checked before and after.
fn sample_channel<F>(
    files: &mut F,
    root: &str,
    backing_identity: FileIdentity,
    channel: &CoretempChannel,
) -> (result: Result<i64, CoretempError>) where F: IdentityBoundReadAccess + ?Sized
    ensures
        grows(old(files).history(), final(files).history()),
        channel_came(
            old(files).history(),
            final(files).history(),
            (root@, backing_identity),
            channel@.index,
            number_of(result),
        ),
        result matches Ok(input) ==> is_reading(input),
{
    broadcast use group_grows;

    let index = channel.index.as_str();
    let ghost device = (root@, backing_identity);
    match reject_alarms(files, root, backing_identity, index) {
        Ok(()) => {},
        Err(error) => {
            return Err(error);
        },
    }
    let input_child = join3("temp", index, "_input");
    let crit_child = join3("temp", index, "_crit");
    let input: i64 = match read_number(files, root, backing_identity, input_child.as_str()) {
        Ok(input) => input,
        Err(error) => {
            return Err(error);
        },
    };
    let tjmax: i64 = match read_number(files, root, backing_identity, crit_child.as_str()) {
        Ok(tjmax) => tjmax,
        Err(error) => {
            return Err(error);
        },
    };
    match judge_reading(
        input,
        tjmax,
        join_path(root, input_child.as_str()).as_str(),
        join_path(root, crit_child.as_str()).as_str(),
    ) {
        Ok(()) => {},
        Err(error) => {
            assert(reading_error(root@, index@, input, tjmax) == Some(error@));
            return Err(error);
        },
    }
    match reject_alarms(files, root, backing_identity, index) {
        Ok(()) => Ok(input),
        Err(error) => Err(error),
    }
}

/// Whether the first channels were read in order, up to the first error.
pub open spec fn readings_came(
    before: Calls,
    after: Calls,
    model: CoretempModel,
    count: nat,
    readings: Result<Seq<i64>, CoretempErrorModel>,
) -> bool
    decreases count,
{
    if count == 0 {
        after == before && readings == Ok::<Seq<i64>, CoretempErrorModel>(Seq::empty())
    } else {
        ||| readings is Err && readings_came(before, after, model, (count - 1) as nat, readings)
        ||| exists|between: Calls, earlier: Seq<i64>, outcome: Result<i64, CoretempErrorModel>|
            {
                &&& readings_came(before, between, model, (count - 1) as nat, Ok(earlier))
                &&& #[trigger] channel_came(
                    between,
                    after,
                    (model.root, model.backing_identity),
                    model.channels[count - 1].index,
                    outcome,
                )
                &&& readings == #[trigger] with_reading(earlier, outcome)
            }
    }
}

/// The readings after one more channel.
pub open spec fn with_reading(
    earlier: Seq<i64>,
    outcome: Result<i64, CoretempErrorModel>,
) -> Result<Seq<i64>, CoretempErrorModel> {
    match outcome {
        Err(e) => Err(e),
        Ok(reading) => Ok(earlier.push(reading)),
    }
}

/// An error settles the readings however many channels follow.
proof fn lemma_readings_end(
    before: Calls,
    after: Calls,
    model: CoretempModel,
    count: nat,
    total: nat,
    error: CoretempErrorModel,
)
    requires
        count <= total,
        readings_came(before, after, model, count, Err(error)),
    ensures
        readings_came(before, after, model, total, Err(error)),
    decreases total - count,
{
    if count < total {
        lemma_readings_end(before, after, model, count + 1, total, error);
    }
}

/// Whether a device was found again, its channels were read in order, and it was found once more, and
/// the hottest reading is what came of it.
pub open spec fn sample_came(
    before: Calls,
    after: Calls,
    model: CoretempModel,
    outcome: Result<i64, CoretempErrorModel>,
) -> bool {
    exists|found: Calls, first: Result<CoretempModel, CoretempErrorModel>|
        #[trigger] discovery_came(before, found, model.hwmon_root, first) && match first {
            Err(e) => after == found && outcome == Err::<i64, _>(e),
            Ok(device) => if device != model {
                after == found && outcome == Err::<i64, _>(
                    CoretempErrorModel::InvalidAbi {
                        path: model.root,
                        reason: "coretemp identity or channel labels changed before sampling"@,
                    },
                )
            } else {
                channels_are_sampled(found, after, model, outcome)
            },
        }
}

/// The part of a sample that follows the first discovery.
pub open spec fn channels_are_sampled(
    before: Calls,
    after: Calls,
    model: CoretempModel,
    outcome: Result<i64, CoretempErrorModel>,
) -> bool {
    exists|read: Calls, readings: Result<Seq<i64>, CoretempErrorModel>|
        #[trigger] readings_came(before, read, model, model.channels.len(), readings)
            && match readings {
            Err(e) => after == read && outcome == Err::<i64, _>(e),
            Ok(readings) => hottest_came(read, after, model, readings, outcome),
        }
}

/// The part of a sample that follows the readings.
pub open spec fn hottest_came(
    before: Calls,
    after: Calls,
    model: CoretempModel,
    readings: Seq<i64>,
    outcome: Result<i64, CoretempErrorModel>,
) -> bool {
    exists|last: Result<CoretempModel, CoretempErrorModel>|
        #[trigger] discovery_came(before, after, model.hwmon_root, last) && match last {
            Err(e) => outcome == Err::<i64, _>(e),
            Ok(found) => if found != model {
                outcome == Err::<i64, _>(
                    CoretempErrorModel::InvalidAbi {
                        path: model.root,
                        reason: "coretemp identity or channel labels changed during sampling"@,
                    },
                )
            } else {
                outcome matches Ok(hottest) && readings.contains(hottest) && forall|i: int|
                    0 <= i < readings.len() ==> #[trigger] readings[i] <= hottest
            },
        }
}

/// Whether a temperature is one that a channel may give: within some accepted maximum, with nothing
/// wrong about either.
pub open spec fn is_reading(input: i64) -> bool {
    exists|tjmax: i64| #[trigger] reading_defect(input, tjmax) is None
}

/// Whether a temperature is the hottest of one accepted reading per channel.
pub open spec fn is_hottest_sample(hottest: i64, channels: nat) -> bool {
    exists|readings: Seq<i64>|
        {
            &&& #[trigger] readings.len() == channels
            &&& readings.contains(hottest)
            &&& forall|i: int|
                0 <= i < readings.len() ==> is_reading(#[trigger] readings[i]) && readings[i]
                    <= hottest
        }
}

/// An accepted sample is a whole number of degrees between freezing and the highest maximum.
pub proof fn accepted_samples_are_plausible(hottest: i64, channels: nat)
    requires
        is_hottest_sample(hottest, channels),
    ensures
        0 <= hottest <= 125_000,
        hottest % 1_000 == 0,
{
    let readings = choose|readings: Seq<i64>|
        {
            &&& #[trigger] readings.len() == channels
            &&& readings.contains(hottest)
            &&& forall|i: int|
                0 <= i < readings.len() ==> is_reading(#[trigger] readings[i]) && readings[i]
                    <= hottest
        };
    let i = choose|i: int| 0 <= i < readings.len() && readings[i] == hottest;
    assert(is_reading(readings[i]));
}

/// The hottest of several readings.
pub fn hottest_of(readings: &Vec<i64>) -> (hottest: i64)
    requires
        readings@.len() > 0,
    ensures
        readings@.contains(hottest),
        forall|i: int| 0 <= i < readings@.len() ==> #[trigger] readings@[i] <= hottest,
{
    let mut hottest: i64 = readings[0];
    let mut i: usize = 1;
    while i < readings.len()
        invariant
            1 <= i <= readings.len(),
            readings@.contains(hottest),
            forall|k: int| 0 <= k < i ==> #[trigger] readings@[k] <= hottest,
        decreases readings.len() - i,
    {
        if readings[i] > hottest {
            hottest = readings[i];
        }
        i = i + 1;
    }
    hottest
}

impl CoretempDevice {
    pub fn root(&self) -> (path: &str)
        ensures
            path@ == self@.root,
    {
        self.root.as_str()
    }

    /// Whether another discovery found exactly the same.
    pub fn same_as(&self, other: &CoretempDevice) -> (same: bool)
        ensures
            same == (self@ == other@),
    {
        same_text(self.hwmon_root.as_str(), other.hwmon_root.as_str()) && same_text(
            self.root.as_str(),
            other.root.as_str(),
        ) && self.backing_identity == other.backing_identity && same_channels(
            &self.channels,
            &other.channels,
        )
    }

    /// Reads one fail-closed CPU sample, in millicelsius, after revalidating the discovered
    /// identity and labels: the hottest of all channels.
    pub fn sample<F>(&self, files: &mut F) -> (result: Result<i64, CoretempError>) where
        F: IdentityBoundReadAccess + ?Sized,

        requires
            channels_are_valid(self@.channels),
        ensures
            sample_came(old(files).history(), final(files).history(), self@, number_of(result)),
            result matches Ok(hottest) ==> is_hottest_sample(hottest, self@.channels.len()),
    {
        let ghost asked = files.history();
        let found = discover_coretemp(files, self.hwmon_root.as_str());
        assert(discovery_came(
            asked,
            files.history(),
            self@.hwmon_root,
            discovery_of(found),
        ));
        let before = match found {
            Ok(device) => device,
            Err(error) => {
                return Err(error);
            },
        };
        if !before.same_as(self) {
            return Err(
                invalid_abi(
                    self.root.as_str(),
                    "coretemp identity or channel labels changed before sampling",
                ),
            );
        }
        let ghost found_at = files.history();
        let mut readings: Vec<i64> = Vec::new();
        let mut i: usize = 0;
        while i < self.channels.len()
            invariant
                i <= self.channels.len(),
                discovery_came(old(files).history(), found_at, self@.hwmon_root, Ok(self@)),
                readings_came(found_at, files.history(), self@, i as nat, Ok(readings@)),
                readings@.len() == i,
                forall|k: int| 0 <= k < readings@.len() ==> is_reading(#[trigger] readings@[k]),
            decreases self.channels.len() - i,
        {
            let ghost earlier = readings@;
            let ghost sampled_at = files.history();
            let sampled = sample_channel(
                files,
                self.root.as_str(),
                self.backing_identity,
                &self.channels[i],
            );
            assert(self@.channels[i as int] == self.channels@[i as int]@);
            assert(channel_came(
                sampled_at,
                files.history(),
                (self@.root, self@.backing_identity),
                self@.channels[(i + 1) as nat - 1].index,
                number_of(sampled),
            ));
            assert(readings_came(
                found_at,
                files.history(),
                self@,
                (i + 1) as nat,
                with_reading(earlier, number_of(sampled)),
            ));
            match sampled {
                Ok(reading) => {
                    readings.push(reading);
                },
                Err(error) => {
                    proof {
                        lemma_readings_end(
                            found_at,
                            files.history(),
                            self@,
                            (i + 1) as nat,
                            self@.channels.len(),
                            error@,
                        );
                    }
                    return Err(error);
                },
            }
            i = i + 1;
        }
        let ghost read_at = files.history();
        assert(readings_came(found_at, read_at, self@, self@.channels.len(), Ok(readings@)));
        let ghost asked = files.history();
        let found = discover_coretemp(files, self.hwmon_root.as_str());
        assert(discovery_came(
            asked,
            files.history(),
            self@.hwmon_root,
            discovery_of(found),
        ));
        let after = match found {
            Ok(device) => device,
            Err(error) => {
                return Err(error);
            },
        };
        if !after.same_as(&before) {
            return Err(
                invalid_abi(
                    self.root.as_str(),
                    "coretemp identity or channel labels changed during sampling",
                ),
            );
        }
        let hottest: i64 = hottest_of(&readings);
        proof {
            assert(readings@.len() == self@.channels.len());
            assert(hottest_came(read_at, files.history(), self@, readings@, Ok(hottest)));
        }
        Ok(hottest)
    }
}

} // verus!
