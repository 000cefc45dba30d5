//! A tap interface of the host: how it is named and flagged when it is
//! created, how its addresses are written for the host, and how one tap
//! becomes several for a device with several pairs of queues.
//!
//! The calls of the host are reached through [`TapHost`]; nothing is
//! promised of them.

use vstd::prelude::*;
use crate::errno::Error as SysError;
use crate::errno::EINVAL;

verus! {

/// The bytes of the name of an interface, with its end.
pub const IFNAMSIZ: usize = 16;

/// Flag of an interface: it is a tap.
pub const IFF_TAP: i16 = 0x0002;

/// Flag of an interface: frames come without a header of the host.
pub const IFF_NO_PI: i16 = 0x1000;

/// Flag of an interface: frames come with a header of virtio.
pub const IFF_VNET_HDR: i16 = 0x4000;

/// Flag of an interface: it has several queues.
pub const IFF_MULTI_QUEUE: i16 = 0x0100;

/// Flag of an interface: it is up.
pub const IFF_UP: i16 = 0x1;

/// Flag of an interface: it runs.
pub const IFF_RUNNING: i16 = 0x40;

/// The family of a hardware address of Ethernet.
pub const ARPHRD_ETHER: u16 = 1;

/// The family of an address of IPv4.
pub const AF_INET: u16 = 2;

/// Errors of a tap.
#[derive(Clone, Copy, Debug, PartialEq, Eq, Structural)]
pub enum Error {
    /// No socket could be made to speak to the host about interfaces.
    CreateSocket(SysError),
    /// The device of the host that makes taps could not be opened.
    OpenTun(SysError),
    /// The host did not make the tap.
    CreateTap(SysError),
    /// The tap could not be cloned.
    CloneTap(SysError),
    /// The host refused a request about the tap.
    IoctlError(SysError),
}

/// A hardware address of Ethernet.
#[derive(Clone, Copy, Debug, PartialEq, Eq)]
pub struct MacAddress {
    pub addr: [u8; 6],
}

impl MacAddress {
    /// The six bytes of the address.
    pub fn octets(&self) -> (octets: [u8; 6])
        ensures
            octets == self.addr,
    {
        self.addr
    }
}

/// An address as the host takes it: its family, and fourteen bytes whose
/// meaning the family gives.
#[derive(Clone, Copy, Debug, PartialEq, Eq)]
pub struct SockAddr {
    pub sa_family: u16,
    pub sa_data: [u8; 14],
}

/// What names an interface to the host: its name, closed by a 0 unless it
/// fills all sixteen bytes, and its flags.
#[derive(Clone, Copy, Debug, PartialEq, Eq)]
pub struct IfReq {
    pub name: [u8; 16],
    pub flags: i16,
}

/// What a request about an interface reads or sets.
#[derive(Clone, Copy, Debug, PartialEq, Eq, Structural)]
pub enum IfField {
    Addr,
    Netmask,
    HwAddr,
    Mtu,
    Flags,
}

/// The value of a field of an interface.
#[derive(Clone, Copy, Debug, PartialEq, Eq)]
pub enum IfValue {
    Address(SockAddr),
    Mtu(i32),
    Flags(i16),
}

/// The host, as far as taps need it. `Self` is an open tap.
pub trait TapHost: Sized {
    /// Opens the device of the host that makes taps and has it make the
    /// tap that `ifreq` names, or join it. Gives the tap and what the host
    /// then calls it.
    fn create(ifreq: &IfReq) -> Result<(Self, IfReq), Error>;

    /// Has reads on the tap return at once, and asks the host what it
    /// calls the tap.
    fn adopt(&self) -> Result<IfReq, Error>;

    /// A second handle to the same tap.
    fn duplicate(&self) -> Result<Self, SysError>;

    /// Reads a field of the interface that `ifreq` names.
    fn get(&self, ifreq: &IfReq, field: IfField) -> Result<IfValue, Error>;

    /// Sets a field of the interface that `ifreq` names.
    fn set(&self, ifreq: &IfReq, value: IfValue) -> Result<(), Error>;

    /// Sets what the tap leaves to the driver.
    fn set_offload(&self, flags: u32) -> Result<(), Error>;

    /// Sets the size of the header of virtio.
    fn set_vnet_hdr_size(&self, size: i32) -> Result<(), Error>;
}

/// The name of an interface as the host takes it: the first sixteen bytes
/// of `name`, and 0 behind them.
pub open spec fn spec_if_name(name: Seq<u8>) -> Seq<u8> {
    Seq::new(
        16,
        |i: int|
            if i < name.len() {
                name[i]
            } else {
                0u8
            },
    )
}

/// The name of an interface as the host takes it.
pub fn if_name(name: &[u8]) -> (out: [u8; 16])
    ensures
        out@ == spec_if_name(name@),
{
    let mut out = [0u8;16];
    let mut i: usize = 0;
    while i < 16 && i < name.len()
        invariant
            i <= 16,
            i <= name@.len(),
            forall|k: int| 0 <= k < i ==> out@[k] == name@[k],
            forall|k: int| i <= k < 16 ==> out@[k] == 0u8,
        decreases 16 - i,
    {
        out[i] = name[i];
        i += 1;
    }
    assert(out@ =~= spec_if_name(name@));
    out
}

/// The flags with which a tap is made: it is a tap without a header of
/// the host, with a header of virtio if `vnet_hdr`, and with several queues
/// if `multi_vq`.
pub open spec fn spec_tap_flags(vnet_hdr: bool, multi_vq: bool) -> i16 {
    (0x1002 + if vnet_hdr {
        0x4000int
    } else {
        0
    } + if multi_vq {
        0x0100int
    } else {
        0
    }) as i16
}

/// The flags with which a tap is made.
pub fn tap_flags(vnet_hdr: bool, multi_vq: bool) -> (flags: i16)
    ensures
        flags == spec_tap_flags(vnet_hdr, multi_vq),
        flags == IFF_TAP | IFF_NO_PI | if vnet_hdr {
            IFF_VNET_HDR
        } else {
            0
        } | if multi_vq {
            IFF_MULTI_QUEUE
        } else {
            0
        },
{
    assert(0x0002i16 | 0x1000i16 == 0x1002i16) by (bit_vector);
    assert(0x1002i16 | 0x4000i16 == 0x5002i16) by (bit_vector);
    assert(0x1002i16 | 0x0100i16 == 0x1102i16) by (bit_vector);
    assert(0x5002i16 | 0x0100i16 == 0x5102i16) by (bit_vector);
    assert(0x1002i16 | 0i16 == 0x1002i16) by (bit_vector);
    assert(0x5002i16 | 0i16 == 0x5002i16) by (bit_vector);
    let mut flags = IFF_TAP | IFF_NO_PI | if vnet_hdr {
        IFF_VNET_HDR
    } else {
        0
    };
    if multi_vq {
        flags |= IFF_MULTI_QUEUE;
    }
    flags
}

/// The hardware address that the host reported as `sa`: its first six
/// bytes, where it is one of Ethernet.
pub open spec fn spec_mac_address(sa: SockAddr) -> Result<Seq<u8>, Error> {
    if sa.sa_family != ARPHRD_ETHER {
        Err(Error::IoctlError(SysError::new_spec(EINVAL)))
    } else {
        Ok(sa.sa_data@.subrange(0, 6))
    }
}

/// The hardware address that the host reported as `sa`.
pub fn mac_address_of(sa: &SockAddr) -> (r: Result<MacAddress, Error>)
    ensures
        match r {
            Ok(mac) => spec_mac_address(*sa) == Ok::<Seq<u8>, Error>(mac.addr@),
            Err(e) => spec_mac_address(*sa) == Err::<Seq<u8>, Error>(e),
        },
{
    if sa.sa_family != ARPHRD_ETHER {
        return Err(Error::IoctlError(SysError::new(EINVAL)));
    }
    let mut addr = [0u8;6];
    let mut i: usize = 0;
    while i < 6
        invariant
            i <= 6,
            forall|k: int| 0 <= k < i ==> addr@[k] == sa.sa_data@[k],
        decreases 6 - i,
    {
        addr[i] = sa.sa_data[i];
        i += 1;
    }
    assert(addr@ =~= sa.sa_data@.subrange(0, 6));
    Ok(MacAddress { addr })
}

/// The hardware address `mac` as the host takes it: of Ethernet, the six
/// bytes first and 0 behind them.
pub fn mac_sockaddr(mac: MacAddress) -> (sa: SockAddr)
    ensures
        sa.sa_family == ARPHRD_ETHER,
        sa.sa_data@ == mac.addr@ + Seq::new(8, |i: int| 0u8),
{
    let octets = mac.octets();
    let mut sa_data = [0u8;14];
    let mut i: usize = 0;
    while i < 6
        invariant
            i <= 6,
            octets == mac.addr,
            forall|k: int| 0 <= k < i ==> sa_data@[k] == octets@[k],
            forall|k: int| i <= k < 14 ==> sa_data@[k] == 0u8,
        decreases 6 - i,
    {
        sa_data[i] = octets[i];
        i += 1;
    }
    assert(sa_data@ =~= mac.addr@ + Seq::new(8, |i: int| 0u8));
    SockAddr { sa_family: ARPHRD_ETHER, sa_data }
}

/// The address `ip_addr` of IPv4 as the host takes it: no port, then the
/// four bytes in the order of the network, then 0.
pub fn create_sockaddr(ip_addr: [u8; 4]) -> (sa: SockAddr)
    ensures
        sa.sa_family == AF_INET,
        sa.sa_data@ == seq![0u8, 0u8] + ip_addr@ + Seq::new(8, |i: int| 0u8),
{
    let mut sa_data = [0u8;14];
    let mut i: usize = 0;
    while i < 4
        invariant
            i <= 4,
            forall|k: int| 0 <= k < 2 ==> sa_data@[k] == 0u8,
            forall|k: int| 0 <= k < i ==> sa_data@[k + 2] == ip_addr@[k],
            forall|k: int| i + 2 <= k < 14 ==> sa_data@[k] == 0u8,
        decreases 4 - i,
    {
        sa_data[i + 2] = ip_addr[i];
        i += 1;
    }
    assert(sa_data@ =~= seq![0u8, 0u8] + ip_addr@ + Seq::new(8, |i: int| 0u8));
    SockAddr { sa_family: AF_INET, sa_data }
}

/// The address of IPv4 that the host reported as `sa`, read as a number
/// whose highest byte comes first: the bytes behind the port in reverse.
pub fn read_ipv4_addr(sa: &SockAddr) -> (ip_addr: [u8; 4])
    ensures
        ip_addr@ == seq![sa.sa_data@[5], sa.sa_data@[4], sa.sa_data@[3], sa.sa_data@[2]],
{
    let ip_addr = [sa.sa_data[5], sa.sa_data[4], sa.sa_data[3], sa.sa_data[2]];
    assert(ip_addr@ =~= seq![sa.sa_data@[5], sa.sa_data@[4], sa.sa_data@[3], sa.sa_data@[2]]);
    ip_addr
}

/// The low 32 bits of `size`, read as a number with a sign.
pub open spec fn spec_low_bits(size: usize) -> i32 {
    let low = (size as int) % 0x1_0000_0000;
    if low < 0x8000_0000 {
        low as i32
    } else {
        (low - 0x1_0000_0000) as i32
    }
}

/// The low 32 bits of `size`, read as a number with a sign.
pub fn low_bits(size: usize) -> (low: i32)
    ensures
        low == spec_low_bits(size),
{
    let wide = size as u64;
    assert(wide & 0xffff_ffff == wide % 0x1_0000_0000) by (bit_vector);
    let low = wide & 0xffff_ffff;
    if low < 0x8000_0000 {
        low as i32
    } else {
        (low as i64 - 0x1_0000_0000) as i32
    }
}

/// The low 16 bits of what the host reports as the largest frame.
pub fn mtu_of(ifru_mtu: i32) -> (mtu: u16)
    ensures
        mtu == (ifru_mtu as int) % 0x1_0000,
{
    let shifted = (ifru_mtu as i64 + 0x8000_0000) as u64;
    (shifted % 0x1_0000) as u16
}

/// The address in what the host reported of an interface. A report that
/// holds no address is an invalid one.
pub open spec fn spec_reported_address(reported: Result<IfValue, Error>) -> Result<SockAddr, Error> {
    match reported {
        Ok(IfValue::Address(sa)) => Ok(sa),
        Ok(_) => Err(Error::IoctlError(SysError::new_spec(EINVAL))),
        Err(e) => Err(e),
    }
}

/// The address in what the host reported of an interface.
pub fn reported_address(reported: Result<IfValue, Error>) -> (r: Result<SockAddr, Error>)
    ensures
        r == spec_reported_address(reported),
{
    match reported {
        Ok(IfValue::Address(sa)) => Ok(sa),
        Ok(_) => Err(Error::IoctlError(SysError::new(EINVAL))),
        Err(e) => Err(e),
    }
}

/// The largest frame in what the host reported of an interface, cut to 16
/// bits. A report that holds no size is an invalid one.
pub open spec fn spec_reported_mtu(reported: Result<IfValue, Error>) -> Result<u16, Error> {
    match reported {
        Ok(IfValue::Mtu(mtu)) => Ok(((mtu as int) % 0x1_0000) as u16),
        Ok(_) => Err(Error::IoctlError(SysError::new_spec(EINVAL))),
        Err(e) => Err(e),
    }
}

/// The largest frame in what the host reported of an interface.
pub fn reported_mtu(reported: Result<IfValue, Error>) -> (r: Result<u16, Error>)
    ensures
        r == spec_reported_mtu(reported),
{
    match reported {
        Ok(IfValue::Mtu(mtu)) => Ok(mtu_of(mtu)),
        Ok(_) => Err(Error::IoctlError(SysError::new(EINVAL))),
        Err(e) => Err(e),
    }
}

/// Whether `r` is the address of IPv4 in what the host reported.
pub open spec fn is_reported_ipv4(reported: Result<IfValue, Error>, r: Result<[u8; 4], Error>) -> bool {
    match spec_reported_address(reported) {
        Ok(sa) => r matches Ok(ip) && ip@ == seq![
            sa.sa_data@[5],
            sa.sa_data@[4],
            sa.sa_data@[3],
            sa.sa_data@[2],
        ],
        Err(e) => r == Err::<[u8; 4], Error>(e),
    }
}

/// Whether `r` is the hardware address in what the host reported.
pub open spec fn is_reported_mac(reported: Result<IfValue, Error>, r: Result<MacAddress, Error>) -> bool {
    match spec_reported_address(reported) {
        Ok(sa) => match r {
            Ok(mac) => spec_mac_address(sa) == Ok::<Seq<u8>, Error>(mac.addr@),
            Err(e) => spec_mac_address(sa) == Err::<Seq<u8>, Error>(e),
        },
        Err(e) => r == Err::<MacAddress, Error>(e),
    }
}

/// How many taps are made beside the first for `vq_pairs` pairs of
/// queues: one for each pair but the first.
pub open spec fn spec_additional_taps(vq_pairs: u16) -> nat {
    if vq_pairs <= 1 {
        0
    } else {
        (vq_pairs - 1) as nat
    }
}

/// A tap of the host, with the name and the flags that the host gave it.
#[derive(Debug)]
pub struct Tap<F> {
    tap_file: F,
    if_name: [u8; 16],
    if_flags: i16,
}

impl<F: TapHost> Tap<F> {
    /// The name of the tap.
    pub closed spec fn spec_if_name(&self) -> Seq<u8> {
        self.if_name@
    }

    /// The flags of the tap.
    pub closed spec fn spec_if_flags(&self) -> i16 {
        self.if_flags
    }

    /// The tap behind a handle that was opened elsewhere.
    pub fn from_file(tap_file: F) -> (r: Result<Self, Error>) {
        match tap_file.adopt() {
            Ok(ifreq) => Ok(Tap { tap_file, if_name: ifreq.name, if_flags: ifreq.flags }),
            Err(e) => Err(e),
        }
    }

    /// The tap that the host makes for `ifreq`, or joins.
    pub fn create_tap_with_ifreq(ifreq: &IfReq) -> (r: Result<Self, Error>) {
        match F::create(ifreq) {
            Ok((tap_file, named)) => Ok(
                Tap { tap_file, if_name: named.name, if_flags: named.flags },
            ),
            Err(e) => Err(e),
        }
    }

    /// The handle of the tap.
    pub closed spec fn spec_file(&self) -> &F {
        &self.tap_file
    }

    /// The handle of the tap.
    pub fn as_file(&self) -> (tap_file: &F)
        ensures
            tap_file == self.spec_file(),
    {
        &self.tap_file
    }

    /// What names this tap to the host.
    pub fn get_ifreq(&self) -> (ifreq: IfReq)
        ensures
            ifreq.name@ == self.spec_if_name(),
            ifreq.flags == self.spec_if_flags(),
    {
        IfReq { name: self.if_name, flags: self.if_flags }
    }

    /// A second handle to the same tap, with the same name and flags.
    pub fn try_clone(&self) -> (r: Result<Self, Error>)
        ensures
            match r {
                Ok(tap) => tap.spec_if_name() == self.spec_if_name() && tap.spec_if_flags()
                    == self.spec_if_flags(),
                Err(e) => e is CloneTap,
            },
    {
        match self.tap_file.duplicate() {
            Ok(tap_file) => Ok(Tap { tap_file, if_name: self.if_name, if_flags: self.if_flags }),
            Err(e) => Err(Error::CloneTap(e)),
        }
    }

    /// What the host is asked for a new tap called `name`.
    pub fn ifreq_with_name(name: &[u8], vnet_hdr: bool, multi_vq: bool) -> (ifreq: IfReq)
        ensures
            ifreq.name@ == spec_if_name(name@),
            ifreq.flags == spec_tap_flags(vnet_hdr, multi_vq),
    {
        IfReq { name: if_name(name), flags: tap_flags(vnet_hdr, multi_vq) }
    }

    /// A new tap, named by the host after the pattern `vmtap%d`. With
    /// `vnet_hdr` the frames carry a header of virtio, without which
    /// nothing can be left to the driver; with `multi_vq` the tap can have
    /// several pairs of queues.
    pub fn new(vnet_hdr: bool, multi_vq: bool) -> (r: Result<Self, Error>) {
        let pattern: [u8; 7] = [0x76, 0x6d, 0x74, 0x61, 0x70, 0x25, 0x64];
        Self::new_with_name(pattern.as_slice(), vnet_hdr, multi_vq)
    }

    /// A new tap called `name`.
    pub fn new_with_name(name: &[u8], vnet_hdr: bool, multi_vq: bool) -> (r: Result<Self, Error>) {
        let ifreq = Self::ifreq_with_name(name, vnet_hdr, multi_vq);
        Self::create_tap_with_ifreq(&ifreq)
    }

    /// The taps for `vq_pairs` pairs of queues: this one first, and one
    /// more on the same interface, enabled, for each pair but the first.
    /// Where one of them cannot be made or enabled, none is handed out.
    /// For at most one pair nothing is asked of the host, and this tap
    /// alone is handed out.
    pub fn into_mq_taps(self, vq_pairs: u16) -> (r: Result<Vec<Self>, Error>)
        ensures
            vq_pairs <= 1 ==> (r matches Ok(taps) && taps@ == seq![self]),
            r matches Ok(taps) ==> {
                &&& taps@.len() == 1 + spec_additional_taps(vq_pairs)
                &&& taps@[0] == self
            },
    {
        let mut taps: Vec<Self> = Vec::new();
        if vq_pairs <= 1 {
            taps.push(self);
            assert(taps@ =~= seq![self]);
            return Ok(taps);
        }
        let mut made: u16 = 0;
        while made < vq_pairs - 1
            invariant
                vq_pairs > 1,
                made <= vq_pairs - 1,
                taps@.len() == made,
            decreases vq_pairs - 1 - made,
        {
            let ifreq = self.get_ifreq();
            let tap = match Self::create_tap_with_ifreq(&ifreq) {
                Ok(tap) => tap,
                Err(e) => {
                    return Err(e);
                },
            };
            match tap.enable() {
                Ok(()) => {},
                Err(e) => {
                    return Err(e);
                },
            }
            taps.push(tap);
            made += 1;
        }
        taps.insert(0, self);
        Ok(taps)
    }

    /// The address of IPv4 of the interface, as [`read_ipv4_addr`] reads
    /// what the host reports.
    pub fn ip_addr(&self) -> (r: Result<[u8; 4], Error>)
        ensures
            exists|reported: Result<IfValue, Error>| #[trigger] is_reported_ipv4(reported, r),
    {
        let reported = self.tap_file.get(&self.get_ifreq(), IfField::Addr);
        let r = match reported_address(reported) {
            Ok(sa) => Ok(read_ipv4_addr(&sa)),
            Err(e) => Err(e),
        };
        assert(is_reported_ipv4(reported, r));
        r
    }

    /// Sets the address of IPv4 of the interface.
    pub fn set_ip_addr(&self, ip_addr: [u8; 4]) -> (r: Result<(), Error>) {
        self.tap_file.set(&self.get_ifreq(), IfValue::Address(create_sockaddr(ip_addr)))
    }

    /// The mask of the network of the interface.
    pub fn netmask(&self) -> (r: Result<[u8; 4], Error>)
        ensures
            exists|reported: Result<IfValue, Error>| #[trigger] is_reported_ipv4(reported, r),
    {
        let reported = self.tap_file.get(&self.get_ifreq(), IfField::Netmask);
        let r = match reported_address(reported) {
            Ok(sa) => Ok(read_ipv4_addr(&sa)),
            Err(e) => Err(e),
        };
        assert(is_reported_ipv4(reported, r));
        r
    }

    /// Sets the mask of the network of the interface.
    pub fn set_netmask(&self, netmask: [u8; 4]) -> (r: Result<(), Error>) {
        self.tap_file.set(&self.get_ifreq(), IfValue::Address(create_sockaddr(netmask)))
    }

    /// The largest frame of the interface: what the host reports, cut to
    /// 16 bits.
    pub fn mtu(&self) -> (r: Result<u16, Error>)
        ensures
            exists|reported: Result<IfValue, Error>| r == #[trigger] spec_reported_mtu(reported),
    {
        reported_mtu(self.tap_file.get(&self.get_ifreq(), IfField::Mtu))
    }

    /// Sets the largest frame of the interface.
    pub fn set_mtu(&self, mtu: u16) -> (r: Result<(), Error>) {
        self.tap_file.set(&self.get_ifreq(), IfValue::Mtu(mtu as i32))
    }

    /// The hardware address of the interface. An address that is not one
    /// of Ethernet is an invalid one.
    pub fn mac_address(&self) -> (r: Result<MacAddress, Error>)
        ensures
            exists|reported: Result<IfValue, Error>| #[trigger] is_reported_mac(reported, r),
    {
        let reported = self.tap_file.get(&self.get_ifreq(), IfField::HwAddr);
        let r = match reported_address(reported) {
            Ok(sa) => mac_address_of(&sa),
            Err(e) => Err(e),
        };
        assert(is_reported_mac(reported, r));
        r
    }

    /// Sets the hardware address of the interface.
    pub fn set_mac_address(&self, mac_addr: MacAddress) -> (r: Result<(), Error>) {
        self.tap_file.set(&self.get_ifreq(), IfValue::Address(mac_sockaddr(mac_addr)))
    }

    /// Sets what the tap leaves to the driver.
    pub fn set_offload(&self, flags: u32) -> (r: Result<(), Error>) {
        self.tap_file.set_offload(flags)
    }

    /// Brings the interface up and has it run.
    pub fn enable(&self) -> (r: Result<(), Error>) {
        assert(0x1i16 | 0x40i16 == 0x41i16) by (bit_vector);
        self.tap_file.set(&self.get_ifreq(), IfValue::Flags(IFF_UP | IFF_RUNNING))
    }

    /// Sets the size of the header of virtio. The host takes it in 32
    /// bits: the low 32 bits of `size`, read as a number with a sign.
    pub fn set_vnet_hdr_size(&self, size: usize) -> (r: Result<(), Error>) {
        self.tap_file.set_vnet_hdr_size(low_bits(size))
    }

    /// The flags of the tap, as a number without a sign: the sixteen bits
    /// of the flags, and the highest of them in every bit above.
    pub fn if_flags(&self) -> (flags: u32)
        ensures
            flags == if self.spec_if_flags() >= 0 {
                self.spec_if_flags() as int
            } else {
                self.spec_if_flags() + 0x1_0000_0000
            },
    {
        if self.if_flags >= 0 {
            self.if_flags as u32
        } else {
            (self.if_flags as i64 + 0x1_0000_0000) as u32
        }
    }
}

} // verus!
