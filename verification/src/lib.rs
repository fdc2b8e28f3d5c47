//! Verified decision logic for the PT315-53 fan-control executables.

pub mod acer_hwmon;
pub mod arming;
pub mod authority;
pub mod authority_calls;
pub mod authority_laws;
pub mod baseline;
pub mod baseline_calls;
pub mod baseline_laws;
pub mod baseline_record;
pub mod calibration;
pub mod calibration_build;
pub mod calibration_laws;
pub mod calibration_record;
pub mod calibration_session;
pub mod compatibility;
pub mod compatibility_laws;
pub mod config;
pub mod config_laws;
pub mod control_cycle;
pub mod controller_calls;
pub mod coretemp;
pub mod coretemp_laws;
pub mod demand;
pub mod diagnostic_events;
pub mod diagnostic_fields;
pub mod diagnostic_ids;
pub mod diagnostics;
pub mod diagnostics_laws;
pub mod discovery_laws;
pub mod endpoint_io;
pub mod endpoint_laws;
pub mod endurance;
pub mod endurance_calls;
pub mod endurance_laws;
pub mod endurance_matrix;
pub mod endurance_plan;
pub mod endurance_record;
pub mod endurance_run_laws;
pub mod endurance_schedule;
pub mod endurance_shutdown;
pub mod endurance_steps;
pub mod envelope;
pub mod evidence;
pub mod evidence_laws;
pub mod evidence_rules;
pub mod external_power;
pub mod final_state;
pub mod hash;
pub mod journal;
pub mod lifecycle;
pub mod lifecycle_calls;
pub mod lifecycle_checkpoint;
pub mod lifecycle_contents;
pub mod lifecycle_gate;
pub mod lifecycle_reboot;
pub mod lifecycle_laws;
pub mod lifecycle_record;
pub mod lifecycle_rules;
pub mod lifecycle_run;
pub mod lifecycle_run_laws;
pub mod lifecycle_steps;
pub mod machine;
pub mod matched_calls;
pub mod matched_steps;
pub mod matrix_laws;
pub mod moves;
pub mod handover_laws;
pub mod handover_steps;
pub mod cycle_laws;
pub mod cycle_steps;
pub mod lifecycle_end_laws;
pub mod lifecycle_fold;
pub mod endurance_fold;
pub mod baseline_steps;
pub mod matched_control;
pub mod matched_laws;
pub mod matched_plan;
pub mod matched_record;
pub mod matched_workload;
pub mod order;
pub mod observations;
pub mod plan_laws;
pub mod platform;
pub mod policy_calls;
pub mod power_laws;
pub mod publication;
pub mod publication_laws;
pub mod run_log;
pub mod select;
pub mod session_laws;
pub mod startup;
pub mod step_laws;
pub mod tachometer;
pub mod tachometer_laws;
pub mod tachometer_policy;
pub mod text;
pub mod text_laws;
pub mod trace;
pub mod thermal;
pub mod thermal_laws;
