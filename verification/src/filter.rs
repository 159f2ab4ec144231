//! The system-path filter: a fixed denylist of path prefixes under which
//! changes are OS maintenance noise and are never forwarded. A path is
//! checked after being made relative to the watched root; an event passes the
//! filter when at least one of its affected paths falls outside every
//! denylist prefix.

use vstd::prelude::*;

use crate::event::{FsEvent, FsEventView};
use crate::paths::{spec_starts_with, spec_strip_root, str_starts_with, strip_root};

verus! {

pub open spec fn prefixes_a() -> Seq<Seq<char>> {
    seq![
        "/var/lib/snapd"@,
        "/snap/"@,
        "/var/log/"@,
        "/var/run/utmp"@,
        "/var/run/wtmp"@,
        "/var/run/btmp"@,
        "/tmp/"@,
        "/var/tmp/"@,
        "/var/cache/"@,
        "/var/lib/apt/"@,
        "/var/lib/dpkg/"@,
        "/var/lib/systemd/"@,
        "/var/lib/dbus/"@,
        "/var/lib/NetworkManager/"@,
        "/var/lib/ucf/"@,
        "/var/lib/apt/lists/"@,
        "/var/lock/"@,
        "/var/lib/lock/"@,
        "/var/lib/rpm/"@,
    ]
}

pub open spec fn prefixes_b() -> Seq<Seq<char>> {
    seq![
        "/var/lib/pacman/"@,
        "/var/run/"@,
        "/run/"@,
        "/usr/bin/"@,
        "/usr/sbin/"@,
        "/usr/lib/"@,
        "/lib/"@,
        "/lib64/"@,
        "/sbin/"@,
        "/bin/"@,
        "/tmp/.X11-unix/"@,
        "/var/lib/lightdm/"@,
        "/var/lib/gdm3/"@,
        "/var/lib/sddm/"@,
        "/var/crash/"@,
        "/var/lib/AccountsService/"@,
        "/var/lib/alsa/"@,
        "/var/lib/bluetooth/"@,
        "/var/lib/colord/"@,
    ]
}

pub open spec fn prefixes_c() -> Seq<Seq<char>> {
    seq![
        "/var/lib/connman/"@,
        "/var/lib/console-setup/"@,
        "/var/lib/dhcp/"@,
        "/var/lib/dovecot/"@,
        "/var/lib/flatpak/"@,
        "/var/lib/fwupd/"@,
        "/var/lib/gdm3/"@,
        "/var/lib/hwclock/"@,
        "/var/lib/iio-sensor-proxy/"@,
        "/var/lib/initramfs-tools/"@,
        "/var/lib/initscripts/"@,
        "/var/lib/insserv/"@,
        "/var/lib/ipsec/"@,
        "/var/lib/iscsi/"@,
        "/var/lib/kubelet/"@,
        "/var/lib/libvirt/"@,
        "/var/lib/logrotate/"@,
        "/var/lib/machines/"@,
        "/var/lib/mdadm/"@,
    ]
}

pub open spec fn prefixes_d() -> Seq<Seq<char>> {
    seq![
        "/var/lib/misc/"@,
        "/var/lib/mlocate/"@,
        "/var/lib/NetworkManager/"@,
        "/var/lib/nginx/"@,
        "/var/lib/nodm/"@,
        "/var/lib/nss/"@,
        "/var/lib/nut/"@,
        "/var/lib/openvpn/"@,
        "/var/lib/pam/"@,
        "/var/lib/pciutils/"@,
        "/var/lib/plymouth/"@,
        "/var/lib/polkit-1/"@,
        "/var/lib/postgresql/"@,
        "/var/lib/pulse/"@,
        "/var/lib/rsyslog/"@,
        "/var/lib/samba/"@,
        "/var/lib/sddm/"@,
        "/var/lib/snapd/"@,
        "/var/lib/snmp/"@,
    ]
}

pub open spec fn prefixes_e() -> Seq<Seq<char>> {
    seq![
        "/var/lib/sssd/"@,
        "/var/lib/stratisd/"@,
        "/var/lib/sudo/"@,
        "/var/lib/systemd/"@,
        "/var/lib/tor/"@,
        "/var/lib/ucf/"@,
        "/var/lib/udisks2/"@,
        "/var/lib/unattended-upgrades/"@,
        "/var/lib/upower/"@,
        "/var/lib/usbutils/"@,
        "/var/lib/vmware/"@,
        "/var/lib/xdm/"@,
        "/var/lib/xkb/"@,
        "/etc/"@,
        "/boot/"@,
        "/proc/"@,
        "/sys/"@,
        "/dev/"@,
    ]
}

/// The full denylist, in order.
pub open spec fn system_prefixes() -> Seq<Seq<char>> {
    prefixes_a() + prefixes_b() + prefixes_c() + prefixes_d() + prefixes_e()
}

/// Whether some denylist entry is a literal prefix of the root-relative path
/// `rel`.
pub open spec fn spec_denied(prefixes: Seq<Seq<char>>, rel: Seq<char>) -> bool {
    exists|i: int| 0 <= i < prefixes.len() && spec_starts_with(rel, prefixes[i])
}

/// Whether `p`, after root-stripping, falls under some denylist entry.
pub open spec fn spec_is_system_path(prefixes: Seq<Seq<char>>, p: Seq<char>) -> bool {
    spec_denied(prefixes, spec_strip_root(p))
}

/// Whether at least one affected path of `e` falls outside every denylist
/// entry after root-stripping.
pub open spec fn spec_should_forward(prefixes: Seq<Seq<char>>, e: FsEventView) -> bool {
    exists|i: int| 0 <= i < e.paths.len() && !spec_is_system_path(prefixes, e.paths[i])
}

/// The ordered set of path prefixes whose changes are never forwarded.
/// Constructed once at startup and handed by reference to whoever filters.
pub struct Denylist {
    entries: Vec<String>,
}

impl View for Denylist {
    type V = Seq<Seq<char>>;

    closed spec fn view(&self) -> Seq<Seq<char>> {
        self.entries.deep_view()
    }
}

fn push_prefixes_a(v: &mut Vec<String>)
    ensures
        final(v).deep_view() == old(v).deep_view() + prefixes_a(),
{
    let ghost old_dv = v.deep_view();
    v.push("/var/lib/snapd".to_owned());
    v.push("/snap/".to_owned());
    v.push("/var/log/".to_owned());
    v.push("/var/run/utmp".to_owned());
    v.push("/var/run/wtmp".to_owned());
    v.push("/var/run/btmp".to_owned());
    v.push("/tmp/".to_owned());
    v.push("/var/tmp/".to_owned());
    v.push("/var/cache/".to_owned());
    v.push("/var/lib/apt/".to_owned());
    v.push("/var/lib/dpkg/".to_owned());
    v.push("/var/lib/systemd/".to_owned());
    v.push("/var/lib/dbus/".to_owned());
    v.push("/var/lib/NetworkManager/".to_owned());
    v.push("/var/lib/ucf/".to_owned());
    v.push("/var/lib/apt/lists/".to_owned());
    v.push("/var/lock/".to_owned());
    v.push("/var/lib/lock/".to_owned());
    v.push("/var/lib/rpm/".to_owned());
    proof {
        assert(v.deep_view() =~= old_dv + prefixes_a());
    }
}

fn push_prefixes_b(v: &mut Vec<String>)
    ensures
        final(v).deep_view() == old(v).deep_view() + prefixes_b(),
{
    let ghost old_dv = v.deep_view();
    v.push("/var/lib/pacman/".to_owned());
    v.push("/var/run/".to_owned());
    v.push("/run/".to_owned());
    v.push("/usr/bin/".to_owned());
    v.push("/usr/sbin/".to_owned());
    v.push("/usr/lib/".to_owned());
    v.push("/lib/".to_owned());
    v.push("/lib64/".to_owned());
    v.push("/sbin/".to_owned());
    v.push("/bin/".to_owned());
    v.push("/tmp/.X11-unix/".to_owned());
    v.push("/var/lib/lightdm/".to_owned());
    v.push("/var/lib/gdm3/".to_owned());
    v.push("/var/lib/sddm/".to_owned());
    v.push("/var/crash/".to_owned());
    v.push("/var/lib/AccountsService/".to_owned());
    v.push("/var/lib/alsa/".to_owned());
    v.push("/var/lib/bluetooth/".to_owned());
    v.push("/var/lib/colord/".to_owned());
    proof {
        assert(v.deep_view() =~= old_dv + prefixes_b());
    }
}

fn push_prefixes_c(v: &mut Vec<String>)
    ensures
        final(v).deep_view() == old(v).deep_view() + prefixes_c(),
{
    let ghost old_dv = v.deep_view();
    v.push("/var/lib/connman/".to_owned());
    v.push("/var/lib/console-setup/".to_owned());
    v.push("/var/lib/dhcp/".to_owned());
    v.push("/var/lib/dovecot/".to_owned());
    v.push("/var/lib/flatpak/".to_owned());
    v.push("/var/lib/fwupd/".to_owned());
    v.push("/var/lib/gdm3/".to_owned());
    v.push("/var/lib/hwclock/".to_owned());
    v.push("/var/lib/iio-sensor-proxy/".to_owned());
    v.push("/var/lib/initramfs-tools/".to_owned());
    v.push("/var/lib/initscripts/".to_owned());
    v.push("/var/lib/insserv/".to_owned());
    v.push("/var/lib/ipsec/".to_owned());
    v.push("/var/lib/iscsi/".to_owned());
    v.push("/var/lib/kubelet/".to_owned());
    v.push("/var/lib/libvirt/".to_owned());
    v.push("/var/lib/logrotate/".to_owned());
    v.push("/var/lib/machines/".to_owned());
    v.push("/var/lib/mdadm/".to_owned());
    proof {
        assert(v.deep_view() =~= old_dv + prefixes_c());
    }
}

fn push_prefixes_d(v: &mut Vec<String>)
    ensures
        final(v).deep_view() == old(v).deep_view() + prefixes_d(),
{
    let ghost old_dv = v.deep_view();
    v.push("/var/lib/misc/".to_owned());
    v.push("/var/lib/mlocate/".to_owned());
    v.push("/var/lib/NetworkManager/".to_owned());
    v.push("/var/lib/nginx/".to_owned());
    v.push("/var/lib/nodm/".to_owned());
    v.push("/var/lib/nss/".to_owned());
    v.push("/var/lib/nut/".to_owned());
    v.push("/var/lib/openvpn/".to_owned());
    v.push("/var/lib/pam/".to_owned());
    v.push("/var/lib/pciutils/".to_owned());
    v.push("/var/lib/plymouth/".to_owned());
    v.push("/var/lib/polkit-1/".to_owned());
    v.push("/var/lib/postgresql/".to_owned());
    v.push("/var/lib/pulse/".to_owned());
    v.push("/var/lib/rsyslog/".to_owned());
    v.push("/var/lib/samba/".to_owned());
    v.push("/var/lib/sddm/".to_owned());
    v.push("/var/lib/snapd/".to_owned());
    v.push("/var/lib/snmp/".to_owned());
    proof {
        assert(v.deep_view() =~= old_dv + prefixes_d());
    }
}

fn push_prefixes_e(v: &mut Vec<String>)
    ensures
        final(v).deep_view() == old(v).deep_view() + prefixes_e(),
{
    let ghost old_dv = v.deep_view();
    v.push("/var/lib/sssd/".to_owned());
    v.push("/var/lib/stratisd/".to_owned());
    v.push("/var/lib/sudo/".to_owned());
    v.push("/var/lib/systemd/".to_owned());
    v.push("/var/lib/tor/".to_owned());
    v.push("/var/lib/ucf/".to_owned());
    v.push("/var/lib/udisks2/".to_owned());
    v.push("/var/lib/unattended-upgrades/".to_owned());
    v.push("/var/lib/upower/".to_owned());
    v.push("/var/lib/usbutils/".to_owned());
    v.push("/var/lib/vmware/".to_owned());
    v.push("/var/lib/xdm/".to_owned());
    v.push("/var/lib/xkb/".to_owned());
    v.push("/etc/".to_owned());
    v.push("/boot/".to_owned());
    v.push("/proc/".to_owned());
    v.push("/sys/".to_owned());
    v.push("/dev/".to_owned());
    proof {
        assert(v.deep_view() =~= old_dv + prefixes_e());
    }
}

impl Denylist {
    /// Builds the denylist of system path prefixes.
    pub fn new() -> (d: Denylist)
        ensures
            d@ == system_prefixes(),
    {
        let mut entries: Vec<String> = Vec::new();
        proof {
            assert(entries.deep_view() =~= Seq::<Seq<char>>::empty());
        }
        push_prefixes_a(&mut entries);
        push_prefixes_b(&mut entries);
        push_prefixes_c(&mut entries);
        push_prefixes_d(&mut entries);
        push_prefixes_e(&mut entries);
        proof {
            assert(entries.deep_view() =~= system_prefixes());
        }
        Denylist { entries }
    }

    /// Whether some denylist entry is a literal prefix of the root-relative
    /// path `rel`.
    pub fn contains_prefix_of(&self, rel: &str) -> (r: bool)
        ensures
            r == spec_denied(self@, rel@),
    {
        let mut i: usize = 0;
        while i < self.entries.len()
            invariant
                0 <= i <= self.entries@.len(),
                forall|m: int| 0 <= m < i ==> !spec_starts_with(rel@, self@[m]),
            decreases self.entries@.len() - i,
        {
            if str_starts_with(rel, self.entries[i].as_str()) {
                proof {
                    assert(spec_starts_with(rel@, self@[i as int]));
                }
                return true;
            }
            i += 1;
        }
        false
    }

    /// Whether `path`, once made relative to the watched root, falls under
    /// one of the denylist prefixes. True exactly when the root-stripped form
    /// of `path` has some fixed denylist string as a literal prefix.
    pub fn is_system_path(&self, path: &str) -> (r: bool)
        ensures
            r == spec_is_system_path(self@, path@),
    {
        let rel = strip_root(path);
        self.contains_prefix_of(rel.as_str())
    }

    /// Whether an event escapes the filter: it does when at least one of its
    /// affected paths is not a system path. An event all of whose paths are
    /// system paths is dropped entirely.
    pub fn should_forward(&self, event: &FsEvent) -> (r: bool)
        ensures
            r == spec_should_forward(self@, event@),
    {
        let mut i: usize = 0;
        while i < event.paths.len()
            invariant
                0 <= i <= event.paths@.len(),
                forall|m: int| 0 <= m < i ==> spec_is_system_path(self@, event@.paths[m]),
            decreases event.paths@.len() - i,
        {
            if !self.is_system_path(event.paths[i].as_str()) {
                proof {
                    assert(event@.paths[i as int] == event.paths@[i as int]@);
                }
                return true;
            }
            i += 1;
        }
        false
    }
}

} // verus!
