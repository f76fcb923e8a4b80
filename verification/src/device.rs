//! The device registry: an immutable snapshot of the hardware audio
//! endpoints the platform reports, built from raw per-device query answers.
//!
//! The surrounding binary performs the platform queries and hands their raw
//! answers over as one `DeviceProbe` per endpoint; `build_registry` turns
//! those into a registry, or rejects the whole snapshot on the first failed
//! query. Names are the external identity keys; where two endpoints share a
//! name, the registry resolves it to the earliest one in enumeration order.

use vstd::prelude::*;
use crate::platform::PlatformQueryError;

verus! {

/// One hardware audio endpoint as the registry reports it: its platform
/// handle, its display name, and whether any capture or playback stream
/// exists on it.
#[derive(Debug)]
pub struct AudioDevice {
    pub id: u32,
    pub name: String,
    pub supports_input: bool,
    pub supports_output: bool,
}

/// The raw answers of the three per-device platform queries, before any
/// interpretation: the display name, the number of capture streams, and the
/// number of playback streams, each either a value or a failing status code.
#[derive(Debug)]
pub struct DeviceProbe {
    pub id: u32,
    pub name: Result<String, i32>,
    pub input_streams: Result<u32, i32>,
    pub output_streams: Result<u32, i32>,
}

/// All three queries of a probe answered.
pub open spec fn probe_ok(p: DeviceProbe) -> bool {
    &&& p.name is Ok
    &&& p.input_streams is Ok
    &&& p.output_streams is Ok
}

/// The status code of the first failed query of a probe, in the order the
/// queries are made: name, then capture streams, then playback streams.
pub open spec fn probe_status(p: DeviceProbe) -> i32 {
    if p.name is Err {
        p.name->Err_0
    } else if p.input_streams is Err {
        p.input_streams->Err_0
    } else {
        p.output_streams->Err_0
    }
}

/// A registry entry is what its probe reported: same handle, same name, and
/// a scope is supported exactly when the probe counted a stream on it.
pub open spec fn reflects_probe(d: AudioDevice, p: DeviceProbe) -> bool {
    &&& probe_ok(p)
    &&& d.id == p.id
    &&& d.name@ == p.name->Ok_0@
    &&& d.supports_input == (p.input_streams->Ok_0 > 0)
    &&& d.supports_output == (p.output_streams->Ok_0 > 0)
}

/// Index `i` is the earliest probe whose queries did not all answer.
pub open spec fn first_failed_probe(probes: Seq<DeviceProbe>, i: int) -> bool {
    &&& 0 <= i < probes.len()
    &&& !probe_ok(probes[i])
    &&& forall|j: int| 0 <= j < i ==> probe_ok(#[trigger] probes[j])
}

/// No device of the sequence carries this name.
pub open spec fn no_match(devs: Seq<AudioDevice>, name: Seq<char>) -> bool {
    forall|j: int| 0 <= j < devs.len() ==> (#[trigger] devs[j].name@) != name
}

/// Index `i` is the earliest device of the sequence carrying this name.
pub open spec fn is_first_match(devs: Seq<AudioDevice>, name: Seq<char>, i: int) -> bool {
    &&& 0 <= i < devs.len()
    &&& devs[i].name@ == name
    &&& forall|j: int| 0 <= j < i ==> (#[trigger] devs[j].name@) != name
}

/// At most one index is the earliest match for a name.
pub proof fn lemma_first_match_unique(devs: Seq<AudioDevice>, name: Seq<char>, i: int, j: int)
    requires
        is_first_match(devs, name, i),
        is_first_match(devs, name, j),
    ensures
        i == j,
{
    if i < j {
        assert(devs[i].name@ != name);
    } else if j < i {
        assert(devs[j].name@ != name);
    }
}

/// An immutable snapshot of the endpoints the platform reported, in
/// enumeration order.
#[derive(Debug)]
pub struct Registry {
    pub devices: Vec<AudioDevice>,
}

impl Registry {
    /// Looks a name up, returning the index of the earliest device carrying
    /// it, or `None` when no device does.
    pub fn find(&self, name: &String) -> (r: Option<usize>)
        ensures
            match r {
                Some(i) => is_first_match(self.devices@, name@, i as int),
                None => no_match(self.devices@, name@),
            },
    {
        let mut k: usize = 0;
        while k < self.devices.len()
            invariant
                k <= self.devices.len(),
                forall|j: int| 0 <= j < k ==> (#[trigger] self.devices@[j].name@) != name@,
            decreases self.devices.len() - k,
        {
            if self.devices[k].name.eq(name) {
                return Some(k);
            }
            k = k + 1;
        }
        None
    }
}

/// Builds the registry from the raw per-device query answers, one entry per
/// probe and in probe order; fails on the earliest probe with a failed
/// query, carrying that device's id and the failing status code, and then
/// produces no partial registry.
pub fn build_registry(probes: &Vec<DeviceProbe>) -> (r: Result<Registry, PlatformQueryError>)
    ensures
        (r is Ok) <==> (forall|i: int| 0 <= i < probes@.len() ==> probe_ok(#[trigger] probes@[i])),
        r matches Ok(reg) ==> {
            &&& reg.devices@.len() == probes@.len()
            &&& forall|i: int| 0 <= i < probes@.len()
                ==> reflects_probe(#[trigger] reg.devices@[i], probes@[i])
        },
        r matches Err(e) ==> exists|i: int| {
            &&& #[trigger] first_failed_probe(probes@, i)
            &&& e.device_id == probes@[i].id
            &&& e.status == probe_status(probes@[i])
        },
{
    let mut devices: Vec<AudioDevice> = Vec::new();
    let mut k: usize = 0;
    while k < probes.len()
        invariant
            k <= probes.len(),
            devices@.len() == k,
            forall|j: int| 0 <= j < k ==> probe_ok(#[trigger] probes@[j]),
            forall|j: int| 0 <= j < k ==> reflects_probe(#[trigger] devices@[j], probes@[j]),
        decreases probes.len() - k,
    {
        let p = &probes[k];
        let name: String = match &p.name {
            Ok(n) => n.clone(),
            Err(status) => {
                proof {
                    assert(first_failed_probe(probes@, k as int));
                }
                return Err(PlatformQueryError { device_id: p.id, status: *status });
            },
        };
        let input_streams: u32 = match &p.input_streams {
            Ok(n) => *n,
            Err(status) => {
                proof {
                    assert(first_failed_probe(probes@, k as int));
                }
                return Err(PlatformQueryError { device_id: p.id, status: *status });
            },
        };
        let output_streams: u32 = match &p.output_streams {
            Ok(n) => *n,
            Err(status) => {
                proof {
                    assert(first_failed_probe(probes@, k as int));
                }
                return Err(PlatformQueryError { device_id: p.id, status: *status });
            },
        };
        devices.push(AudioDevice {
            id: p.id,
            name,
            supports_input: input_streams > 0,
            supports_output: output_streams > 0,
        });
        k = k + 1;
    }
    Ok(Registry { devices })
}

} // verus!
