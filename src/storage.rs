use vstd::prelude::*;
use sysinfo::{DiskExt, SystemExt};

verus! {

/// The medium under a path, as used to size the worker pool.
#[derive(Clone, Copy, Debug, PartialEq, Eq, Structural)]
pub enum StorageType {
    SSD,
    HDD,
    Removable,
    Unknown,
}

/// The hardware kind that the operating system reports for a volume.
#[derive(Clone, Copy, Debug, PartialEq, Eq, Structural)]
pub enum DiskMedium {
    SolidState,
    Rotating,
    Unreported,
}

/// One mounted volume, as plain values.
#[derive(Clone, Debug)]
pub struct Volume {
    pub mount_point: String,
    pub removable: bool,
    pub medium: DiskMedium,
}

/// `p` starts with `m`.
pub open spec fn is_prefix(m: Seq<char>, p: Seq<char>) -> bool {
    m.len() <= p.len() && p.subrange(0, m.len() as int) == m
}

/// The class that a volume gives: removable wins over the hardware kind.
pub open spec fn volume_class(removable: bool, medium: DiskMedium) -> StorageType {
    if removable {
        StorageType::Removable
    } else {
        match medium {
            DiskMedium::SolidState => StorageType::SSD,
            DiskMedium::Rotating => StorageType::HDD,
            DiskMedium::Unreported => StorageType::Unknown,
        }
    }
}

/// The class of `path` given the volumes from index `i` on: the first volume
/// whose mount point is a prefix of the path decides; none gives `Unknown`.
pub open spec fn class_from(path: Seq<char>, vols: Seq<Volume>, i: int) -> StorageType
    decreases vols.len() - i,
{
    if i < 0 || i >= vols.len() {
        StorageType::Unknown
    } else if is_prefix(vols[i].mount_point@, path) {
        volume_class(vols[i].removable, vols[i].medium)
    } else {
        class_from(path, vols, i + 1)
    }
}

pub open spec fn classify_spec(path: Seq<char>, vols: Seq<Volume>) -> StorageType {
    class_from(path, vols, 0)
}

/// Whether `mount` is a prefix of `path`, character by character.
pub fn mount_contains(mount: &str, path: &str) -> (r: bool)
    ensures
        r == is_prefix(mount@, path@),
{
    let m = mount.unicode_len();
    let p = path.unicode_len();
    if m > p {
        return false;
    }
    let mut i: usize = 0;
    while i < m
        invariant
            m == mount@.len(),
            p == path@.len(),
            m <= p,
            i <= m,
            forall|j: int| 0 <= j < i ==> path@[j] == mount@[j],
        decreases m - i,
    {
        if mount.get_char(i) != path.get_char(i) {
            assert(path@.subrange(0, m as int)[i as int] != mount@[i as int]);
            return false;
        }
        i = i + 1;
    }
    assert(path@.subrange(0, m as int) =~= mount@);
    true
}

/// Classifies a canonical path against a list of mounted volumes, taken in
/// the order given.
pub fn classify(path: &str, volumes: &Vec<Volume>) -> (r: StorageType)
    ensures
        r == classify_spec(path@, volumes@),
{
    let mut i: usize = 0;
    while i < volumes.len()
        invariant
            i <= volumes@.len(),
            class_from(path@, volumes@, 0) == class_from(path@, volumes@, i as int),
        decreases volumes.len() - i,
    {
        let v = &volumes[i];
        if mount_contains(v.mount_point.as_str(), path) {
            if v.removable {
                return StorageType::Removable;
            }
            return match v.medium {
                DiskMedium::SolidState => StorageType::SSD,
                DiskMedium::Rotating => StorageType::HDD,
                DiskMedium::Unreported => StorageType::Unknown,
            };
        }
        i = i + 1;
    }
    StorageType::Unknown
}

/// Relies on sysinfo's `System::new_all`, `refresh_disks_list` and `disks`:
/// the mounted volumes in the order sysinfo lists them. What is mounted
/// depends on the machine, so nothing is promised of the list.
#[verifier::external_body]
fn mounted_volumes() -> (r: Vec<Volume>) {
    let mut system = sysinfo::System::new_all();
    system.refresh_disks_list();
    system.disks().iter().map(|d| Volume {
        mount_point: d.mount_point().to_str().unwrap_or("").to_string(),
        removable: d.is_removable(),
        medium: match d.kind() {
            sysinfo::DiskKind::SSD => DiskMedium::SolidState,
            sysinfo::DiskKind::HDD => DiskMedium::Rotating,
            sysinfo::DiskKind::Unknown(_) => DiskMedium::Unreported,
        },
    }).collect()
}

/// Classifies a canonical path against the volumes mounted on this machine.
/// What is mounted is not known here, so any class may come back; the rule
/// that decides it is `classify`'s.
pub fn detect_storage_type(canonical_path: &str) -> (r: StorageType) {
    let volumes = mounted_volumes();
    classify(canonical_path, &volumes)
}

} // verus!
