use std::collections::BTreeMap;

use fan_control_core::trace::History;
use fan_control_core::config::{
    Component, ConfigValidationError, CurvePointConfig, DemandCurveError, FanConfig, FansConfig,
    Profile, ProfileConfig, ProfilesConfig, ValidatedConfig,
};
use fan_control_core::coretemp::{
    discover_coretemp, hottest_of, judge_flag, judge_reading, only_coretemp, parse_number,
    selected_label, temperature_label_index, CoretempError,
};
use fan_control_core::demand::{FanOutputs, Pwm};
use fan_control_core::envelope::{
    first_below, validate_against_protected_envelope, EnvelopeValidationError,
};
use fan_control_core::external_power::{
    judge_passes, observe_external_power, read_online_state, read_supply_kind, ExternalPower,
    MainsSupply, SupplyReading,
};
use fan_control_core::platform::{
    deadline_after, join_path, FileAccess, FileIdentity, FilePermissions, IdentityBoundReadAccess,
    ListedEntry, PlatformError, PlatformErrorKind, MAXIMUM_DURATION_NANOS,
};
use fan_control_core::startup::StartupStatus;
use fan_control_core::tachometer::Fan;
use fan_control_core::text::{
    decimal, is_identifier, is_lower_hex, parse_trimmed_unsigned, texts_are_ordered, trims_to,
};

struct Files {
    files: BTreeMap<String, String>,
    reads: usize,
    change_after: Option<(usize, String, String)>,
}

fn files(entries: &[(&str, &str)]) -> Files {
    Files {
        files: entries
            .iter()
            .map(|(path, contents)| (path.to_string(), contents.to_string()))
            .collect(),
        reads: 0,
        change_after: None,
    }
}

impl Files {
    fn entries(&self, root: &str) -> Vec<ListedEntry> {
        let mut names: Vec<String> = self
            .files
            .keys()
            .filter_map(|path| path.strip_prefix(&format!("{root}/")))
            .map(|rest| rest.split('/').next().unwrap().to_owned())
            .collect();
        names.dedup();
        names
            .into_iter()
            .map(|name| ListedEntry {
                path: format!("{root}/{name}"),
                is_direct_child: true,
                name: Some(name),
            })
            .collect()
    }

    fn contents(&mut self, path: &str) -> Result<String, PlatformError> {
        self.reads += 1;
        if let Some((count, path, contents)) = self.change_after.clone() {
            if self.reads > count {
                self.files.insert(path, contents);
            }
        }
        self.files.get(path).cloned().ok_or(PlatformError {
            kind: PlatformErrorKind::NotFound,
            detail: "missing".to_owned(),
        })
    }
}

impl fan_control_core::machine::Machine for Files {
    fn history(&self) -> History<fan_control_core::machine::MachineCall> {
        unreachable!()
    }
}

impl FileAccess for Files {
    fn list(&mut self, root: &str) -> Result<Vec<ListedEntry>, PlatformError> {
        Ok(self.entries(root))
    }

    fn read(&mut self, path: &str) -> Result<String, PlatformError> {
        self.contents(path)
    }
}

impl IdentityBoundReadAccess for Files {
    fn identity(&mut self, path: &str) -> Result<FileIdentity, PlatformError> {
        Ok(FileIdentity {
            device: 1,
            inode: path.len() as u64,
        })
    }

    fn permissions(&mut self, _: &str) -> Result<FilePermissions, PlatformError> {
        Ok(FilePermissions::ReadOnly)
    }

    fn list_bound(
        &mut self,
        root: &str,
        _: FileIdentity,
    ) -> Result<Vec<ListedEntry>, PlatformError> {
        Ok(self.entries(root))
    }

    fn read_bound(
        &mut self,
        root: &str,
        _: FileIdentity,
        child: &str,
    ) -> Result<String, PlatformError> {
        self.contents(&format!("{root}/{child}"))
    }
}

fn coretemp() -> Files {
    files(&[
        ("/h/hwmon0/name", "acer\n"),
        ("/h/hwmon2/name", "coretemp\n"),
        ("/h/hwmon2/temp1_label", "Package id 0\n"),
        ("/h/hwmon2/temp1_input", "61000\n"),
        ("/h/hwmon2/temp1_crit", "100000\n"),
        ("/h/hwmon2/temp2_label", "Core 0\n"),
        ("/h/hwmon2/temp2_input", "64000\n"),
        ("/h/hwmon2/temp2_crit", "100000\n"),
        ("/h/hwmon2/temp2_crit_alarm", "0\n"),
    ])
}

#[test]
fn coretemp_samples_the_hottest_channel() {
    let mut files = coretemp();
    let device = discover_coretemp(&mut files, "/h").unwrap();
    assert_eq!(device.root(), "/h/hwmon2");
    assert_eq!(device.sample(&mut files), Ok(64_000));
    let again = discover_coretemp(&mut files, "/h").unwrap();
    assert!(device.same_as(&again));
    let copy = device.clone();
    assert_eq!(copy, device);
    assert_eq!(copy.sample(&mut files), Ok(64_000));
}

#[test]
fn coretemp_refuses_untrustworthy_samples() {
    let mut hot = coretemp();
    let device = discover_coretemp(&mut hot, "/h").unwrap();
    hot.files
        .insert("/h/hwmon2/temp2_input".to_owned(), "101000\n".to_owned());
    assert_eq!(
        device.sample(&mut hot).unwrap_err().message(),
        "invalid coretemp sample at /h/hwmon2/temp2_input: temperature 101000 mC is outside 0..=100000 mC"
    );
    let mut alarm = coretemp();
    alarm
        .files
        .insert("/h/hwmon2/temp2_crit_alarm".to_owned(), "1\n".to_owned());
    assert!(matches!(
        device.sample(&mut alarm),
        Err(CoretempError::InvalidSample { .. })
    ));
    let mut gone = coretemp();
    gone.files.remove("/h/hwmon2/temp1_label");
    assert_eq!(
        discover_coretemp(&mut gone, "/h").unwrap_err(),
        CoretempError::MissingPackageChannel
    );
    let mut none = files(&[("/h/hwmon0/name", "acer\n")]);
    assert_eq!(
        discover_coretemp(&mut none, "/h").unwrap_err(),
        CoretempError::NoDevice
    );
    let mut two = coretemp();
    two.files
        .insert("/h/hwmon0/name".to_owned(), "coretemp\n".to_owned());
    assert_eq!(
        discover_coretemp(&mut two, "/h").unwrap_err(),
        CoretempError::AmbiguousDevices { count: 2 }
    );
}

#[test]
fn coretemp_needs_exactly_one_device() {
    let identity = FileIdentity { device: 1, inode: 2 };
    let one = ("/h/hwmon2".to_owned(), identity);
    assert_eq!(only_coretemp(vec![]), Err(CoretempError::NoDevice));
    assert_eq!(only_coretemp(vec![one.clone()]), Ok(one.clone()));
    assert_eq!(
        only_coretemp(vec![one.clone(), one.clone(), one]),
        Err(CoretempError::AmbiguousDevices { count: 3 })
    );
}

#[test]
fn coretemp_labels_must_be_distinct_and_stay() {
    let mut twice = coretemp();
    twice
        .files
        .insert("/h/hwmon2/temp3_label".to_owned(), "Core 0\n".to_owned());
    assert_eq!(
        discover_coretemp(&mut twice, "/h").unwrap_err().message(),
        "invalid coretemp ABI at /h/hwmon2/temp3_label: duplicate selected channel label Core 0"
    );
    let mut changed = coretemp();
    let device = discover_coretemp(&mut changed, "/h").unwrap();
    changed
        .files
        .insert("/h/hwmon2/temp2_label".to_owned(), "Core 1\n".to_owned());
    assert_eq!(
        device.sample(&mut changed).unwrap_err().message(),
        "invalid coretemp ABI at /h/hwmon2: coretemp identity or channel labels changed before sampling"
    );
}

#[test]
fn coretemp_texts_are_exact() {
    assert_eq!(
        selected_label("Package id 0\n", "p"),
        Ok(Some(("Package id 0".to_owned(), true)))
    );
    assert_eq!(
        selected_label("Core 12\n", "p"),
        Ok(Some(("Core 12".to_owned(), false)))
    );
    assert_eq!(selected_label("Tdie\n", "p"), Ok(None));
    assert!(selected_label("Core x\n", "p").is_err());
    assert!(selected_label("Core 0", "p").is_err());
    assert_eq!(
        temperature_label_index("temp12_label"),
        Ok(Some("12".to_owned()))
    );
    assert_eq!(temperature_label_index("temp1_input"), Ok(None));
    assert!(temperature_label_index("temp0_label").is_err());
    assert_eq!(parse_number("61000\n", "p"), Ok(61_000));
    assert!(parse_number("61000", "p").is_err());
    assert!(parse_number("-1\n", "p").is_err());
    assert!(parse_number("9223372036854775808\n", "p").is_err());
    assert_eq!(judge_reading(61_000, 100_000, "i", "c"), Ok(()));
    assert!(judge_reading(61_500, 100_000, "i", "c").is_err());
    assert!(judge_reading(61_000, 69_000, "i", "c").is_err());
    assert!(judge_reading(61_000, 100_500, "i", "c").is_err());
    assert_eq!(judge_flag(Ok("0\n".to_owned()), "p", "alarm"), Ok(()));
    assert_eq!(
        judge_flag(Ok("1\n".to_owned()), "p", "alarm").unwrap_err().message(),
        "invalid coretemp sample at p: alarm is asserted"
    );
    assert_eq!(hottest_of(&vec![3, 9, 4]), 9);
}

fn supply(path: &str, online: bool) -> MainsSupply {
    MainsSupply {
        path: path.to_owned(),
        online,
    }
}

#[test]
fn external_power_needs_two_identical_passes() {
    let on = [
        ("/p/AC/type", "Mains\n"),
        ("/p/AC/online", "1\n"),
        ("/p/BAT1/type", "Battery\n"),
    ];
    assert_eq!(
        observe_external_power(&mut files(&on), "/p"),
        ExternalPower::Connected
    );
    let off = [("/p/AC/type", "Mains\n"), ("/p/AC/online", "0\n")];
    assert_eq!(
        observe_external_power(&mut files(&off), "/p"),
        ExternalPower::Disconnected
    );
    let mut changing = files(&on);
    changing.change_after = Some((3, "/p/AC/online".to_owned(), "0\n".to_owned()));
    assert_eq!(
        observe_external_power(&mut changing, "/p"),
        ExternalPower::Unknown
    );
    let battery = [("/p/BAT1/type", "Battery\n")];
    assert_eq!(
        observe_external_power(&mut files(&battery), "/p"),
        ExternalPower::Unknown
    );
    let unreadable = [("/p/AC/type", "Mains\n")];
    assert_eq!(
        observe_external_power(&mut files(&unreadable), "/p"),
        ExternalPower::Unknown
    );
    let odd = [("/p/AC/type", "USB\n")];
    assert_eq!(
        observe_external_power(&mut files(&odd), "/p"),
        ExternalPower::Unknown
    );
    assert_eq!(
        judge_passes(
            &Some(vec![supply("a", true), supply("b", false)]),
            &Some(vec![supply("b", false), supply("a", true)])
        ),
        ExternalPower::Unknown
    );
    assert_eq!(
        judge_passes(
            &Some(vec![supply("a", true), supply("b", true)]),
            &Some(vec![supply("b", true), supply("a", true)])
        ),
        ExternalPower::Connected
    );
    assert_eq!(read_supply_kind("Mains"), SupplyReading::Unusable);
    assert_eq!(read_supply_kind("Battery\n"), SupplyReading::Battery);
    assert_eq!(read_online_state("1\n"), Some(true));
    assert_eq!(read_online_state("2\n"), None);
}

fn points(values: &[(i64, i64)]) -> Vec<CurvePointConfig> {
    values
        .iter()
        .map(|(temperature_c, demand_percent)| CurvePointConfig {
            temperature_c: *temperature_c,
            demand_percent: *demand_percent,
        })
        .collect()
}

fn config(
    floor: i64,
    curve: &[(i64, i64)],
) -> Result<ValidatedConfig, ConfigValidationError> {
    let profile = || ProfileConfig {
        cpu_curve: points(curve),
        gpu_curve: points(curve),
    };
    ValidatedConfig::from_parts(
        FansConfig {
            cpu: FanConfig {
                minimum_duty_percent: floor,
            },
            gpu: FanConfig {
                minimum_duty_percent: floor,
            },
        },
        ProfilesConfig {
            ac: profile(),
            battery: profile(),
        },
    )
}

#[test]
fn configurations_are_validated() {
    let valid = config(40, &[(50, 40), (90, 100)]).unwrap();
    assert_eq!(valid.floor(Fan::Cpu), 40);
    assert_eq!(valid.curve(Profile::Battery, Component::Gpu).len(), 2);
    assert_eq!(
        config(101, &[(50, 40)]).unwrap_err(),
        ConfigValidationError::FloorOutOfRange { fan: Fan::Cpu }
    );
    assert_eq!(
        config(40, &[]).unwrap_err(),
        ConfigValidationError::Curve {
            profile: Profile::Ac,
            component: Component::Cpu,
            error: DemandCurveError::Empty,
        }
    );
    assert_eq!(
        config(40, &[(50, 40), (50, 60)]).unwrap_err(),
        ConfigValidationError::Curve {
            profile: Profile::Ac,
            component: Component::Cpu,
            error: DemandCurveError::NotStrictlyIncreasing,
        }
    );
}

#[test]
fn candidates_stay_above_the_protected_envelope() {
    let protected = config(40, &[(50, 40), (90, 100)]).unwrap();
    let same = config(40, &[(50, 40), (90, 100)]).unwrap();
    let accepted = validate_against_protected_envelope(same, &protected).unwrap();
    assert_eq!(accepted.config().floor(Fan::Gpu), 40);
    assert_eq!(accepted.into_config().floor(Fan::Cpu), 40);
    let low_floor = config(39, &[(50, 40), (90, 100)]).unwrap();
    assert_eq!(
        validate_against_protected_envelope(low_floor, &protected)
            .unwrap_err()
            .message(),
        "CPU fan floor 39% is below protected floor 40%"
    );
    let dip = config(40, &[(50, 40), (70, 69), (90, 100)]).unwrap();
    assert_eq!(
        validate_against_protected_envelope(dip, &protected).unwrap_err(),
        EnvelopeValidationError::CurveBelowProtected {
            profile: Profile::Ac,
            component: Component::Cpu,
            temperature_celsius: 70,
        }
    );
    let late = points(&[(60, 50), (90, 100)]);
    let base = points(&[(50, 40), (60, 55), (90, 100)]);
    assert_eq!(first_below(&late, &base), Some(60));
    assert_eq!(first_below(&base, &late), Some(50));
    assert_eq!(first_below(&base, &base), None);
    assert_eq!(
        EnvelopeValidationError::CurveBelowProtected {
            profile: Profile::Battery,
            component: Component::Gpu,
            temperature_celsius: -5,
        }
        .message(),
        "battery.gpu curve is below its protected envelope at -5 \u{b0}C"
    );
}

#[test]
fn duties_round_up() {
    assert_eq!(Pwm::from_demand(100, 1).value(), 255);
    assert_eq!(Pwm::from_demand(0, 7).value(), 0);
    assert_eq!(Pwm::from_demand(40, 1).value(), 102);
    assert_eq!(Pwm::from_demand(6_325, 100).value(), 162);
    assert_eq!(Pwm::from_demand(58, 1).value(), 148);
    assert_eq!(Pwm::from_demand(1, 4_000_000_000).value(), 1);
    assert_eq!(FanOutputs::maximum().cpu_pwm(), Pwm::maximum());
    assert_eq!(FanOutputs::maximum().gpu_pwm().value(), 255);
}

#[test]
fn texts_and_moments() {
    assert_eq!(decimal(0), "0");
    assert_eq!(decimal(u64::MAX), "18446744073709551615");
    assert_eq!(parse_trimmed_unsigned(" +12\n", 255), Some(12));
    assert_eq!(parse_trimmed_unsigned("256", 255), None);
    assert_eq!(parse_trimmed_unsigned("", 255), None);
    assert!(trims_to("\t2\n", "2"));
    assert!(!trims_to("2 2", "2"));
    assert!(is_identifier("pt31553-q1"));
    assert!(!is_identifier(""));
    assert!(is_lower_hex("0af", 3));
    assert!(!is_lower_hex("0AF", 3));
    assert!(texts_are_ordered("Core 10", "Core 2"));
    assert!(!texts_are_ordered("b", "a"));
    assert_eq!(join_path("/a", "b"), "/a/b");
    assert_eq!(join_path("/a/", "b"), "/a/b");
    assert_eq!(deadline_after(1, 2), Some(3));
    assert_eq!(deadline_after(MAXIMUM_DURATION_NANOS, 1), None);
    assert_eq!(
        StartupStatus::UnqualifiedNotConfigured.message(),
        "unqualified/not configured"
    );
}
