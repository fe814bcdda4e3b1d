//! Decode capabilities remembered per (device, profile) pair, so that each
//! pair is negotiated once and every later query agrees with the first.
use vstd::prelude::*;
use crate::error::SetupError;
use crate::profile::{validate_capabilities, validate_spec, CapabilityReport, DecodeCapabilities, VideoProfile};

verus! {

#[derive(Clone, Copy, Debug)]
pub struct CapabilityEntry {
    pub device: u64,
    pub profile: VideoProfile,
    pub capabilities: DecodeCapabilities,
}

/// Capabilities negotiated so far, at most one entry per (device, profile).
pub struct CapabilityRegistry {
    entries: Vec<CapabilityEntry>,
    known: Ghost<Map<(u64, VideoProfile), DecodeCapabilities>>,
}

/// One negotiation against the registry's contents `m`: a known pair answers
/// from memory; an unknown one is validated and, when valid, remembered.
pub open spec fn negotiate_step(
    m: Map<(u64, VideoProfile), DecodeCapabilities>,
    device: u64,
    profile: VideoProfile,
    report: CapabilityReport,
) -> (Map<(u64, VideoProfile), DecodeCapabilities>, Result<DecodeCapabilities, SetupError>) {
    if m.contains_key((device, profile)) {
        (m, Ok(m[(device, profile)]))
    } else {
        match validate_spec(profile, report) {
            Ok(c) => (m.insert((device, profile), c), Ok(c)),
            Err(e) => (m, Err(e)),
        }
    }
}

impl CapabilityRegistry {
    /// The capabilities remembered per (device, profile).
    pub closed spec fn view(&self) -> Map<(u64, VideoProfile), DecodeCapabilities> {
        self.known@
    }

    /// Each entry is in the map under its key and each key has an entry.
    pub closed spec fn wf(&self) -> bool {
        &&& forall|i: int| 0 <= i < self.entries@.len() ==> {
            let e = #[trigger] self.entries@[i];
            &&& self.known@.contains_key((e.device, e.profile))
            &&& self.known@[(e.device, e.profile)] == e.capabilities
        }
        &&& forall|k: (u64, VideoProfile)| #[trigger] self.known@.contains_key(k) ==> exists|i: int|
            0 <= i < self.entries@.len() && (#[trigger] self.entries@[i]).device == k.0
                && self.entries@[i].profile == k.1
    }

    /// A registry that remembers nothing yet.
    pub fn new() -> (r: CapabilityRegistry)
        ensures
            r.wf(),
            r@ == Map::<(u64, VideoProfile), DecodeCapabilities>::empty(),
    {
        CapabilityRegistry { entries: Vec::new(), known: Ghost(Map::empty()) }
    }

    /// The capabilities remembered for the pair, if any.
    pub fn lookup(&self, device: u64, profile: &VideoProfile) -> (r: Option<DecodeCapabilities>)
        requires
            self.wf(),
        ensures
            self@.contains_key((device, *profile)) ==> r == Some(self@[(device, *profile)]),
            !self@.contains_key((device, *profile)) ==> r is None,
    {
        let mut i: usize = 0;
        while i < self.entries.len()
            invariant
                self.wf(),
                i <= self.entries@.len(),
                forall|j: int| 0 <= j < i ==> !((#[trigger] self.entries@[j]).device == device
                    && self.entries@[j].profile == *profile),
            decreases self.entries@.len() - i,
        {
            let e = &self.entries[i];
            if e.device == device && e.profile == *profile {
                return Some(e.capabilities);
            }
            i += 1;
        }
        None
    }

    /// Negotiates the decode capabilities of `profile` on `device`. The first
    /// successful negotiation of a pair is remembered, and every later one
    /// returns it, whatever the driver reports then.
    pub fn negotiate(&mut self, device: u64, profile: &VideoProfile, report: &CapabilityReport)
        -> (r: Result<DecodeCapabilities, SetupError>)
        requires
            old(self).wf(),
        ensures
            final(self).wf(),
            (final(self)@, r) == negotiate_step(old(self)@, device, *profile, *report),
    {
        match self.lookup(device, profile) {
            Some(c) => Ok(c),
            None => {
                let v = validate_capabilities(profile, report);
                match v {
                    Ok(c) => {
                        let ghost old_entries = self.entries@;
                        self.entries.push(CapabilityEntry { device, profile: *profile, capabilities: c });
                        self.known = Ghost(self.known@.insert((device, *profile), c));
                        assert forall|k: (u64, VideoProfile)| #[trigger] self.known@.contains_key(k) implies exists|i: int|
                            0 <= i < self.entries@.len() && (#[trigger] self.entries@[i]).device == k.0
                                && self.entries@[i].profile == k.1 by {
                            if k == (device, *profile) {
                                let n = old_entries.len() as int;
                                assert(self.entries@[n].device == k.0);
                            } else {
                                assert(old(self).known@.contains_key(k));
                                let i = choose|i: int| 0 <= i < old_entries.len() && (#[trigger] old_entries[i]).device == k.0
                                    && old_entries[i].profile == k.1;
                                assert(self.entries@[i] == old_entries[i]);
                            }
                        }
                        Ok(c)
                    },
                    Err(e) => Err(e),
                }
            },
        }
    }
}

/// Negotiating the same profile on the same device again, whatever the
/// driver reports the second time, returns the capabilities of the first
/// successful negotiation and leaves the registry as it was.
pub proof fn lemma_negotiation_idempotent(
    m: Map<(u64, VideoProfile), DecodeCapabilities>,
    device: u64,
    profile: VideoProfile,
    first: CapabilityReport,
    second: CapabilityReport,
)
    requires
        negotiate_step(m, device, profile, first).1 is Ok,
    ensures
        negotiate_step(negotiate_step(m, device, profile, first).0, device, profile, second)
            == negotiate_step(m, device, profile, first),
{
    let m1 = negotiate_step(m, device, profile, first).0;
    assert(m1.contains_key((device, profile)));
}

} // verus!
