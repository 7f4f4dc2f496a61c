//! Assembles the parameters of an experiment launch request and decides,
//! from the server's answer, how the launch went.
use vstd::prelude::*;

pub mod image;
pub mod json;
pub mod outcome;
pub mod params;
pub mod recipients;
pub mod text;

verus! {

/// The endpoint that launches an experiment.
pub const LAUNCH_URL: &'static str = "https://hyperion.antithesis.com/api/v1/launch_experiment/basic_test";

/// How long the launch request may take, in seconds.
pub const REQUEST_TIMEOUT_SECS: u64 = 30;

/// The duration used when none is given, in minutes.
pub const DEFAULT_DURATION: &'static str = "15";

/// The description used when none is given.
pub const DEFAULT_DESCRIPTION: &'static str = "Basic test run";

} // verus!
