//! The remote procedures: each one verifies the presented bearer token first,
//! and only then performs its collection or formatting step. On an invalid
//! token the distinguished authentication error is returned and no reading of
//! the host is taken.

use vstd::prelude::*;

use crate::auth::{authenticate, token_valid};
use crate::config::ServerConfig;
use crate::metrics::{
    disk_report, lemma_memory_rendered_ladder, lemma_network_rendered_ladder,
    memory_ladder_consistent, memory_rendered, memory_report, network_ladder_consistent,
    network_report, sum_received, sum_transmitted, DiskUsage, MemoryUsage, NetworkUsage,
    VolumeRaw,
};

verus! {

#[verifier::external_type_specification]
#[verifier::external_body]
pub struct ExSystem(sysinfo::System);

/// Relies on sysinfo::System::new_all: a fully loaded OS-stat handle.
#[verifier::external_body]
fn new_system() -> sysinfo::System {
    sysinfo::System::new_all()
}

/// The shared OS-stat handle for CPU and memory readings. The underlying
/// resource keeps state between refreshes (a delta-based CPU percentage needs
/// a prior sample), so a refresh-then-read pair must be exclusive: every
/// method takes the handle by `&mut`, and the caller keeps it behind one
/// mutual-exclusion lock for the duration of each pair.
///
/// The two ghost counters record how many samples of each kind have been
/// taken, so that a caller's contract can say when the handle is refreshed
/// and when it is left untouched.
pub struct SysHandle {
    pub system: sysinfo::System,
    pub cpu_samples: Ghost<nat>,
    pub mem_samples: Ghost<nat>,
}

impl SysHandle {
    /// A fresh handle with no samples taken yet.
    pub fn new_all() -> (r: SysHandle)
        ensures
            r.cpu_samples@ == 0,
            r.mem_samples@ == 0,
    {
        SysHandle { system: new_system(), cpu_samples: Ghost(0nat), mem_samples: Ghost(0nat) }
    }

    /// Relies on sysinfo::System::refresh_cpu: takes one fresh CPU sample on
    /// the handle, and touches nothing else.
    #[verifier::external_body]
    pub(crate) fn refresh_cpu(&mut self)
        ensures
            final(self).cpu_samples@ == old(self).cpu_samples@ + 1,
            final(self).mem_samples@ == old(self).mem_samples@,
    {
        self.system.refresh_cpu();
    }

    /// Relies on sysinfo::System::refresh_memory: takes one fresh memory
    /// sample on the handle, and touches nothing else.
    #[verifier::external_body]
    pub(crate) fn refresh_memory(&mut self)
        ensures
            final(self).mem_samples@ == old(self).mem_samples@ + 1,
            final(self).cpu_samples@ == old(self).cpu_samples@,
    {
        self.system.refresh_memory();
    }

    /// Relies on sysinfo::System::total_memory: the sampled RAM size, in
    /// bytes.
    #[verifier::external_body]
    pub(crate) fn total_memory(&self) -> u64 {
        self.system.total_memory()
    }

    /// Relies on sysinfo::System::used_memory: the sampled amount of RAM in
    /// use, in bytes.
    #[verifier::external_body]
    pub(crate) fn used_memory(&self) -> u64 {
        self.system.used_memory()
    }
}

/// Relies on sysinfo::Disks::new_with_refreshed_list and the Disk accessors:
/// one entry per currently mounted volume, fields copied out as plain values,
/// in the enumeration order of the operating system.
#[verifier::external_body]
fn read_volumes() -> Vec<VolumeRaw> {
    let disks = sysinfo::Disks::new_with_refreshed_list();
    disks.list().iter().map(
        |d| VolumeRaw {
            name: d.name().to_str().unwrap_or_default().to_owned(),
            file_system: d.file_system().to_str().unwrap_or_default().to_owned(),
            mount_point: d.mount_point().to_str().unwrap_or_default().to_owned(),
            total_bytes: d.total_space(),
            available_bytes: d.available_space(),
        },
    ).collect()
}

/// Relies on sysinfo::Networks::new_with_refreshed_list and NetworkData's
/// cumulative counters: one (received, transmitted) pair of byte totals per
/// interface, counted since the handle was built.
#[verifier::external_body]
fn read_interface_totals() -> Vec<(u64, u64)> {
    let networks = sysinfo::Networks::new_with_refreshed_list();
    networks.iter().map(|(_, d)| (d.total_received(), d.total_transmitted())).collect()
}

/// A per-call failure of the service.
#[derive(Debug, Clone, Copy, PartialEq, Eq)]
pub enum RpcError {
    /// The presented token was invalid — malformed, mis-signed or expired.
    /// Every such failure collapses to this one value.
    Unauthenticated,
    /// An OS-stat reading came back inconsistent; the call is abandoned
    /// without a response.
    Collection,
}

/// Decide a memory sample: convert the sampled byte counts to KB and render
/// the unit ladder, or refuse a sample in which more memory is used than
/// exists (at KB granularity) as a collection error — never a fabricated
/// response.
pub fn render_memory_sample(total_bytes: u64, used_bytes: u64) -> (r: Result<
    Vec<MemoryUsage>,
    RpcError,
>)
    ensures
        used_bytes / 1024 <= total_bytes / 1024 ==> (r matches Ok(v)
            && memory_rendered(total_bytes / 1024, used_bytes / 1024, v@)),
        used_bytes / 1024 > total_bytes / 1024 ==> (r matches Err(e) && e == RpcError::Collection),
{
    let total_kb = total_bytes / 1024;
    let used_kb = used_bytes / 1024;
    if used_kb <= total_kb {
        Ok(memory_report(total_kb, used_kb))
    } else {
        Err(RpcError::Collection)
    }
}

/// The static identity fields returned by the info procedure.
#[derive(Debug, Clone, PartialEq, Eq)]
pub struct AuthResponse {
    pub name: String,
    pub description: String,
    pub status: String,
}

/// The RPC service: the identity record, shared read-only across calls.
pub struct MyServerAdmin {
    pub config: ServerConfig,
}

impl MyServerAdmin {
    pub fn new(config: ServerConfig) -> (r: MyServerAdmin)
        ensures
            r.config == config,
    {
        MyServerAdmin { config }
    }

    /// Whether a presented token passes this service's gate at time `now`.
    pub open spec fn admits(&self, token: Seq<char>, now: u64) -> bool {
        token_valid(token, self.config.password@, now)
    }

    /// The info procedure: gate, then return the static identity fields.
    pub fn get_server_info(&self, token: &str, now: u64) -> (r: Result<AuthResponse, RpcError>)
        ensures
            self.admits(token@, now) ==> (r matches Ok(info) && {
                &&& info.name@ == self.config.name@
                &&& info.description@ == self.config.description@
                &&& info.status@ == "ok"@
            }),
            !self.admits(token@, now) ==> (r matches Err(e) && e == RpcError::Unauthenticated),
    {
        match authenticate(token, self.config.password.as_str(), now) {
            Some(_) => Ok(
                AuthResponse {
                    name: self.config.name.clone(),
                    description: self.config.description.clone(),
                    status: "ok".to_owned(),
                },
            ),
            None => Err(RpcError::Unauthenticated),
        }
    }

    /// The CPU procedure's gate and refresh: authenticate, then take exactly
    /// one fresh CPU sample on the shared handle. The gauge itself is a
    /// floating-point value that the caller reads from the still-exclusive
    /// handle after this returns; on an invalid token the handle is left
    /// entirely untouched — authentication is the first action, and no
    /// partial work precedes it.
    pub fn get_cpu_usage(&self, sys: &mut SysHandle, token: &str, now: u64) -> (r: Result<
        (),
        RpcError,
    >)
        ensures
            self.admits(token@, now) ==> r is Ok
                && final(sys).cpu_samples@ == old(sys).cpu_samples@ + 1
                && final(sys).mem_samples@ == old(sys).mem_samples@,
            !self.admits(token@, now) ==> (r matches Err(e) && e == RpcError::Unauthenticated)
                && *final(sys) == *old(sys),
    {
        match authenticate(token, self.config.password.as_str(), now) {
            Some(_) => {
                sys.refresh_cpu();
                Ok(())
            },
            None => Err(RpcError::Unauthenticated),
        }
    }

    /// The memory procedure: gate, take exactly one fresh memory sample on
    /// the shared handle, and decide it with `render_memory_sample`. On an
    /// invalid token the handle is left entirely untouched — authentication
    /// is the first action, and no partial work precedes it.
    pub fn get_memory_usage(&self, sys: &mut SysHandle, token: &str, now: u64) -> (r: Result<
        Vec<MemoryUsage>,
        RpcError,
    >)
        ensures
            !self.admits(token@, now) ==> (r matches Err(e) && e == RpcError::Unauthenticated)
                && *final(sys) == *old(sys),
            r matches Err(e) && e == RpcError::Unauthenticated ==> !self.admits(token@, now),
            self.admits(token@, now) ==> final(sys).mem_samples@ == old(sys).mem_samples@ + 1
                && final(sys).cpu_samples@ == old(sys).cpu_samples@,
            r matches Ok(v) ==> memory_ladder_consistent(v@),
    {
        match authenticate(token, self.config.password.as_str(), now) {
            Some(_) => {
                sys.refresh_memory();
                let total_bytes = sys.total_memory();
                let used_bytes = sys.used_memory();
                match render_memory_sample(total_bytes, used_bytes) {
                    Ok(rendered) => {
                        proof {
                            lemma_memory_rendered_ladder(
                                total_bytes / 1024,
                                used_bytes / 1024,
                                rendered@,
                            );
                        }
                        Ok(rendered)
                    },
                    Err(e) => Err(e),
                }
            },
            None => Err(RpcError::Unauthenticated),
        }
    }

    /// The disk procedure: gate, then enumerate the mounted volumes fresh
    /// and render each one's sizes in MB. No shared state is touched.
    pub fn get_disk_usage(&self, token: &str, now: u64) -> (r: Result<Vec<DiskUsage>, RpcError>)
        ensures
            self.admits(token@, now) ==> r is Ok,
            !self.admits(token@, now) ==> (r matches Err(e) && e == RpcError::Unauthenticated),
    {
        match authenticate(token, self.config.password.as_str(), now) {
            Some(_) => {
                let volumes = read_volumes();
                Ok(disk_report(volumes))
            },
            None => Err(RpcError::Unauthenticated),
        }
    }

    /// The network procedure: gate, then enumerate the interfaces fresh, sum
    /// their byte counters and render the unit ladder. No shared state is
    /// touched.
    pub fn get_network_usage(&self, token: &str, now: u64) -> (r: Result<
        Vec<NetworkUsage>,
        RpcError,
    >)
        ensures
            self.admits(token@, now) ==> r is Ok,
            !self.admits(token@, now) ==> (r matches Err(e) && e == RpcError::Unauthenticated),
            r matches Ok(v) ==> network_ladder_consistent(v@),
    {
        match authenticate(token, self.config.password.as_str(), now) {
            Some(_) => {
                let interfaces = read_interface_totals();
                let rendered = network_report(&interfaces);
                proof {
                    lemma_network_rendered_ladder(
                        sum_received(interfaces@),
                        sum_transmitted(interfaces@),
                        rendered@,
                    );
                }
                Ok(rendered)
            },
            None => Err(RpcError::Unauthenticated),
        }
    }
}

} // verus!
