//! Configuration validation: mapping the user's routing intent onto the
//! device registry before any system state is touched.
//!
//! `validate` resolves the two configured device names against a registry
//! snapshot and checks the pitch factor, rejecting the configuration on the
//! first violated rule — pitch, then the capture side, then the playback
//! side. Only a configuration that passes every rule yields a
//! `ResolvedRouting`, which downstream components act on without
//! re-validating. Validation therefore strictly precedes every mutation of
//! platform state.

use vstd::prelude::*;
use crate::device::{AudioDevice, Registry, is_first_match, no_match, lemma_first_match_unique};
use crate::platform::Scope;

verus! {

/// The user's routing intent: which device captures, which plays back, and
/// the pitch-shift factor in thousandths (`1000` leaves the pitch
/// unchanged). A factor of zero or below is invalid.
#[derive(Debug)]
pub struct RoutingConfig {
    pub pitch_milli: i64,
    pub input_name: String,
    pub output_name: String,
}

/// Why a configuration was rejected; `role` names the side at fault. Every
/// variant is fatal and is reported before any device-state mutation.
#[derive(Debug)]
pub enum ConfigError {
    /// The pitch factor is zero or negative.
    InvalidPitch,
    /// No device of the registry carries the configured name.
    UnknownDevice { name: String, role: Scope },
    /// The named device exists but has no stream on the required scope.
    UnsupportedRole { name: String, role: Scope },
}

/// A validated routing, bound to device ids: safe to act on without further
/// checks.
#[derive(Clone, Copy, PartialEq, Eq, Structural, Debug)]
pub struct ResolvedRouting {
    pub input_id: u32,
    pub output_id: u32,
    pub pitch_milli: i64,
}

/// Whether a device has a stream on the given scope.
pub open spec fn supports(d: AudioDevice, role: Scope) -> bool {
    match role {
        Scope::Input => d.supports_input,
        Scope::Output => d.supports_output,
    }
}

/// A name resolves for a role when the earliest device carrying it has a
/// stream on that scope.
pub open spec fn resolvable(devs: Seq<AudioDevice>, name: Seq<char>, role: Scope) -> bool {
    exists|i: int| #[trigger] is_first_match(devs, name, i) && supports(devs[i], role)
}

/// The index of the earliest device carrying a name.
pub open spec fn first_match_of(devs: Seq<AudioDevice>, name: Seq<char>) -> int {
    choose|i: int| is_first_match(devs, name, i)
}

/// The outcome of validation, rule by rule in the order they are checked:
/// the pitch factor first, then existence and capability of the capture
/// side, then existence and capability of the playback side.
pub open spec fn spec_validate(c: RoutingConfig, reg: Registry) -> Result<ResolvedRouting, ConfigError> {
    let devs = reg.devices@;
    if c.pitch_milli <= 0 {
        Err(ConfigError::InvalidPitch)
    } else if no_match(devs, c.input_name@) {
        Err(ConfigError::UnknownDevice { name: c.input_name, role: Scope::Input })
    } else if !devs[first_match_of(devs, c.input_name@)].supports_input {
        Err(ConfigError::UnsupportedRole { name: c.input_name, role: Scope::Input })
    } else if no_match(devs, c.output_name@) {
        Err(ConfigError::UnknownDevice { name: c.output_name, role: Scope::Output })
    } else if !devs[first_match_of(devs, c.output_name@)].supports_output {
        Err(ConfigError::UnsupportedRole { name: c.output_name, role: Scope::Output })
    } else {
        Ok(ResolvedRouting {
            input_id: devs[first_match_of(devs, c.input_name@)].id,
            output_id: devs[first_match_of(devs, c.output_name@)].id,
            pitch_milli: c.pitch_milli,
        })
    }
}

/// Validates a configuration against a registry snapshot. Succeeds exactly
/// when the pitch factor is positive and both named devices resolve for
/// their roles; otherwise returns the error of the first violated rule, as
/// `spec_validate` lays the rules out.
pub fn validate(config: &RoutingConfig, registry: &Registry) -> (r: Result<ResolvedRouting, ConfigError>)
    ensures
        r == spec_validate(*config, *registry),
        (r is Ok) <==> {
            &&& config.pitch_milli > 0
            &&& resolvable(registry.devices@, config.input_name@, Scope::Input)
            &&& resolvable(registry.devices@, config.output_name@, Scope::Output)
        },
{
    let ghost devs = registry.devices@;
    if config.pitch_milli <= 0 {
        return Err(ConfigError::InvalidPitch);
    }
    let input_ix: usize = match registry.find(&config.input_name) {
        Some(i) => i,
        None => {
            return Err(ConfigError::UnknownDevice {
                name: config.input_name.clone(),
                role: Scope::Input,
            });
        },
    };
    proof {
        lemma_first_match_unique(devs, config.input_name@, first_match_of(devs, config.input_name@), input_ix as int);
    }
    if !registry.devices[input_ix].supports_input {
        proof {
            if resolvable(devs, config.input_name@, Scope::Input) {
                let i = choose|i: int| is_first_match(devs, config.input_name@, i)
                    && supports(devs[i], Scope::Input);
                lemma_first_match_unique(devs, config.input_name@, i, input_ix as int);
            }
        }
        return Err(ConfigError::UnsupportedRole {
            name: config.input_name.clone(),
            role: Scope::Input,
        });
    }
    let output_ix: usize = match registry.find(&config.output_name) {
        Some(i) => i,
        None => {
            return Err(ConfigError::UnknownDevice {
                name: config.output_name.clone(),
                role: Scope::Output,
            });
        },
    };
    proof {
        lemma_first_match_unique(devs, config.output_name@, first_match_of(devs, config.output_name@), output_ix as int);
    }
    if !registry.devices[output_ix].supports_output {
        proof {
            if resolvable(devs, config.output_name@, Scope::Output) {
                let i = choose|i: int| is_first_match(devs, config.output_name@, i)
                    && supports(devs[i], Scope::Output);
                lemma_first_match_unique(devs, config.output_name@, i, output_ix as int);
            }
        }
        return Err(ConfigError::UnsupportedRole {
            name: config.output_name.clone(),
            role: Scope::Output,
        });
    }
    Ok(ResolvedRouting {
        input_id: registry.devices[input_ix].id,
        output_id: registry.devices[output_ix].id,
        pitch_milli: config.pitch_milli,
    })
}

} // verus!
