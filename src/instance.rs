//! Choosing what to create an instance with and which device to run on.
use crate::error::{HardwareError, VlError, VlResult};
use crate::queue::{all_round, QueueProperties};
use vstd::prelude::*;

verus! {

/// Where an instance will present what it renders.
#[derive(Debug, Clone, Copy, PartialEq, Eq, Structural)]
pub enum InstanceTarget {
    /// Off-screen images only.
    Image,
    /// A window surface.
    Window,
}

/// Whether an instance for `targets` needs the surface extensions: it does
/// when one of the targets is a window.
pub fn wants_surface(targets: &[InstanceTarget]) -> (r: bool)
    ensures
        r == exists|i: int| 0 <= i < targets@.len() && targets@[i] == InstanceTarget::Window,
{
    let mut i: usize = 0;
    while i < targets.len()
        invariant
            i <= targets@.len(),
            forall|j: int| 0 <= j < i ==> targets@[j] != InstanceTarget::Window,
        decreases targets@.len() - i,
    {
        if targets[i] == InstanceTarget::Window {
            return true;
        }
        i = i + 1;
    }
    false
}

/// The first all-round family at or after `i`.
pub open spec fn first_all_round_from(families: Seq<QueueProperties>, i: int) -> Option<nat>
    decreases families.len() - i,
{
    if i < 0 || i >= families.len() {
        None
    } else if all_round(families[i]) {
        Some(i as nat)
    } else {
        first_all_round_from(families, i + 1)
    }
}

/// The first family that supports graphics, compute and transfer.
pub fn select_queue_family(families: &Vec<QueueProperties>) -> (r: Option<usize>)
    ensures
        r == (match first_all_round_from(families@, 0) {
            Some(k) => Some(k as usize),
            None => None::<usize>,
        }),
{
    let mut i: usize = 0;
    while i < families.len()
        invariant
            i <= families@.len(),
            first_all_round_from(families@, 0) == first_all_round_from(families@, i as int),
        decreases families@.len() - i,
    {
        let f = families[i];
        if f.is_graphic_support() && f.is_compute_support() && f.is_transfer_support() {
            return Some(i);
        }
        i = i + 1;
    }
    None
}

/// The device chosen among `devices` (the queue families of each): the last
/// one with an all-round family, with its first such family.
pub open spec fn chosen_device(devices: Seq<Seq<QueueProperties>>) -> Option<(nat, nat)>
    decreases devices.len(),
{
    if devices.len() == 0 {
        None
    } else {
        match first_all_round_from(devices.last(), 0) {
            Some(f) => Some(((devices.len() - 1) as nat, f)),
            None => chosen_device(devices.drop_last()),
        }
    }
}

/// Picks a physical device and queue family for graphics work, as
/// `(device index, queue family index)`; fails when no device has a family
/// that supports graphics, compute and transfer.
pub fn default_physical_device(devices: &Vec<Vec<QueueProperties>>) -> (r: VlResult<
    (usize, usize),
>)
    ensures
        match chosen_device(devices@.map_values(|d: Vec<QueueProperties>| d@)) {
            Some((d, f)) => r == Ok::<(usize, usize), VlError>((d as usize, f as usize)),
            None => r == Err::<(usize, usize), VlError>(
                VlError::HardwareError(HardwareError::NoSuitableDevice),
            ),
        },
{
    let ghost all = devices@.map_values(|d: Vec<QueueProperties>| d@);
    let mut found: Option<(usize, usize)> = None;
    let mut i: usize = 0;
    while i < devices.len()
        invariant
            i <= devices@.len(),
            all == devices@.map_values(|d: Vec<QueueProperties>| d@),
            found == (match chosen_device(all.take(i as int)) {
                Some((d, f)) => Some((d as usize, f as usize)),
                None => None::<(usize, usize)>,
            }),
            forall|d: nat, f: nat|
                chosen_device(all.take(i as int)) == Some((d, f)) ==> d < i && f
                    < devices@[d as int]@.len(),
        decreases devices@.len() - i,
    {
        let family = select_queue_family(&devices[i]);
        proof {
            let t = all.take(i as int + 1);
            assert(t.drop_last() =~= all.take(i as int));
            assert(t.last() == devices@[i as int]@);
        }
        match family {
            Some(f) => {
                proof {
                    lemma_first_all_round_bound(devices@[i as int]@, 0);
                }
                found = Some((i, f));
            },
            None => {},
        }
        i = i + 1;
    }
    proof {
        assert(all.take(i as int) =~= all);
    }
    match found {
        Some(pair) => Ok(pair),
        None => Err(VlError::HardwareError(HardwareError::NoSuitableDevice)),
    }
}

/// The first all-round family at or after `i` lies in range.
proof fn lemma_first_all_round_bound(families: Seq<QueueProperties>, i: int)
    requires
        0 <= i,
    ensures
        first_all_round_from(families, i) matches Some(k) ==> i <= k < families.len(),
    decreases families.len() - i,
{
    if i < families.len() && !all_round(families[i]) {
        lemma_first_all_round_bound(families, i + 1);
    }
}

/// Relies on ash's `vk::api_version_major`: bits 22 to 28 of a packed version.
pub assume_specification[ ash::vk::api_version_major ](version: u32) -> (r: u32)
    ensures
        r == (version >> 22u32) & 0x7fu32,
;

/// Relies on ash's `vk::api_version_minor`: bits 12 to 21 of a packed version.
pub assume_specification[ ash::vk::api_version_minor ](version: u32) -> (r: u32)
    ensures
        r == (version >> 12u32) & 0x3ffu32,
;

/// Relies on ash's `vk::api_version_patch`: bits 0 to 11 of a packed version.
pub assume_specification[ ash::vk::api_version_patch ](version: u32) -> (r: u32)
    ensures
        r == version & 0xfffu32,
;

/// The decimal digit `d`.
pub open spec fn digit(d: nat) -> char {
    if d == 0 {
        '0'
    } else if d == 1 {
        '1'
    } else if d == 2 {
        '2'
    } else if d == 3 {
        '3'
    } else if d == 4 {
        '4'
    } else if d == 5 {
        '5'
    } else if d == 6 {
        '6'
    } else if d == 7 {
        '7'
    } else if d == 8 {
        '8'
    } else {
        '9'
    }
}

/// `n` in decimal, without leading zeros.
pub open spec fn decimal(n: nat) -> Seq<char>
    decreases n,
{
    if n < 10 {
        seq![digit(n)]
    } else {
        decimal(n / 10).push(digit(n % 10))
    }
}

/// Relies on std's `format!`, whose `{}` writes a `u32` in decimal without
/// padding or sign.
#[verifier::external_body]
fn dotted(major: u32, minor: u32, patch: u32) -> (r: String)
    ensures
        r@ == decimal(major as nat) + seq!['.'] + decimal(minor as nat) + seq!['.'] + decimal(
            patch as nat,
        ),
{
    format!("{}.{}.{}", major, minor, patch)
}

/// A packed API version as `major.minor.patch`.
pub fn api_version_string(version: u32) -> (r: String)
    ensures
        r@ == decimal(((version >> 22u32) & 0x7fu32) as nat) + seq!['.'] + decimal(
            ((version >> 12u32) & 0x3ffu32) as nat,
        ) + seq!['.'] + decimal((version & 0xfffu32) as nat),
{
    let major = ash::vk::api_version_major(version);
    let minor = ash::vk::api_version_minor(version);
    let patch = ash::vk::api_version_patch(version);
    dotted(major, minor, patch)
}

} // verus!
