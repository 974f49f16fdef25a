//! Ethernet II / IPv4 / UDP framing and the Ethernet FCS.
//!
//! Everything here is what a station needs that only ever addresses broadcast or multicast, whose
//! MACs are computable: there is no ARP, and no IP fragmentation.

use vstd::prelude::*;

verus! {

/// Ethernet II header: destination MAC, source MAC, EtherType.
pub const ETHERNET_HEADER_LEN: usize = 14;

/// IPv4 header with no options.
pub const IPV4_HEADER_LEN: usize = 20;

/// UDP header.
pub const UDP_HEADER_LEN: usize = 8;

/// Frame Check Sequence (CRC-32).
pub const FCS_LEN: usize = 4;

/// Minimum Ethernet payload; shorter ones are zero-padded so the frame reaches 64 bytes with FCS.
pub const MIN_ETHERNET_PAYLOAD: usize = 46;

/// EtherType of IPv4.
pub const ETHERTYPE_IPV4: u16 = 0x0800;

/// IPv4 protocol number of UDP.
pub const IP_PROTO_UDP: u8 = 17;

/// The longest payload that an IPv4 datagram can carry over UDP.
pub const MAX_UDP_PAYLOAD: usize = 65_507;

/// A 48-bit MAC address.
#[derive(Clone, Copy, PartialEq, Eq, Debug)]
pub struct MacAddr(pub [u8; 6]);

impl MacAddr {
    /// `ff:ff:ff:ff:ff:ff`.
    pub fn broadcast() -> (r: Self)
        ensures
            r.0@ == seq![0xffu8, 0xff, 0xff, 0xff, 0xff, 0xff],
    {
        MacAddr([0xff, 0xff, 0xff, 0xff, 0xff, 0xff])
    }

    /// The multicast MAC that an IPv4 multicast group maps to (RFC 1112 section 6.4): `01:00:5e`
    /// followed by the low 23 bits of the address.
    pub fn for_ipv4_multicast(ip: Ipv4Addr) -> (r: Self)
        ensures
            r.0@ == seq![0x01u8, 0x00, 0x5e, (ip.0@[1] % 128) as u8, ip.0@[2], ip.0@[3]],
    {
        MacAddr([0x01, 0x00, 0x5e, ip.0[1] % 128, ip.0[2], ip.0[3]])
    }
}

/// An IPv4 address.
#[derive(Clone, Copy, PartialEq, Eq, Debug)]
pub struct Ipv4Addr(pub [u8; 4]);

impl Ipv4Addr {
    /// `255.255.255.255`: the limited broadcast address, never forwarded by a router.
    pub fn broadcast() -> (r: Self)
        ensures
            r.0@ == seq![255u8, 255, 255, 255],
    {
        Ipv4Addr([255, 255, 255, 255])
    }

    /// `224.0.1.1`: the NTP multicast group.
    pub fn ntp_multicast() -> (r: Self)
        ensures
            r.0@ == seq![224u8, 0, 1, 1],
    {
        Ipv4Addr([224, 0, 1, 1])
    }

    /// The address `a.b.c.d`.
    pub fn new(a: u8, b: u8, c: u8, d: u8) -> (r: Self)
        ensures
            r.0@ == seq![a, b, c, d],
    {
        Ipv4Addr([a, b, c, d])
    }

    /// Whether this is in `224.0.0.0/4`.
    pub fn is_multicast(self) -> (r: bool)
        ensures
            r == (224 <= self.0@[0] <= 239),
    {
        224 <= self.0[0] && self.0[0] <= 239
    }
}

/// Everything needed to build one UDP-over-IPv4-over-Ethernet frame.
#[derive(Clone, Copy, Debug)]
pub struct UdpFrameSpec<'a> {
    /// Source MAC.
    pub src_mac: MacAddr,
    /// Destination MAC.
    pub dst_mac: MacAddr,
    /// Source address.
    pub src_ip: Ipv4Addr,
    /// Destination address.
    pub dst_ip: Ipv4Addr,
    /// Source port.
    pub src_port: u16,
    /// Destination port.
    pub dst_port: u16,
    /// IPv4 identification field.
    pub ip_id: u16,
    /// IPv4 time to live.
    pub ttl: u8,
    /// The datagram's contents.
    pub payload: &'a [u8],
}

/// One step of the reflected CRC-32: shift right, and fold the polynomial in when a 1 falls out.
pub open spec fn crc_bit(c: u32) -> u32 {
    if c & 1 == 1 {
        (c >> 1) ^ 0xEDB8_8320
    } else {
        c >> 1
    }
}

/// Eight steps of the reflected CRC-32: one byte.
#[verifier::opaque]
pub open spec fn crc_byte(c: u32) -> u32 {
    crc_bit(crc_bit(crc_bit(crc_bit(crc_bit(crc_bit(crc_bit(crc_bit(c))))))))
}

/// The CRC register after a run of bytes.
pub open spec fn crc_register(data: Seq<u8>) -> u32
    decreases data.len(),
{
    if data.len() == 0 {
        0xffff_ffff
    } else {
        crc_byte(crc_register(data.drop_last()) ^ (data.last() as u32))
    }
}

/// The Ethernet FCS of a run of bytes: the complement of the CRC register.
pub open spec fn fcs(data: Seq<u8>) -> u32 {
    !crc_register(data)
}

/// Reflected CRC-32 table: entry `i` is [`crc_byte`] of `i`.
const CRC32_TABLE: [u32; 256] = [
    0x00000000, 0x77073096, 0xee0e612c, 0x990951ba, 0x076dc419, 0x706af48f,
    0xe963a535, 0x9e6495a3, 0x0edb8832, 0x79dcb8a4, 0xe0d5e91e, 0x97d2d988,
    0x09b64c2b, 0x7eb17cbd, 0xe7b82d07, 0x90bf1d91, 0x1db71064, 0x6ab020f2,
    0xf3b97148, 0x84be41de, 0x1adad47d, 0x6ddde4eb, 0xf4d4b551, 0x83d385c7,
    0x136c9856, 0x646ba8c0, 0xfd62f97a, 0x8a65c9ec, 0x14015c4f, 0x63066cd9,
    0xfa0f3d63, 0x8d080df5, 0x3b6e20c8, 0x4c69105e, 0xd56041e4, 0xa2677172,
    0x3c03e4d1, 0x4b04d447, 0xd20d85fd, 0xa50ab56b, 0x35b5a8fa, 0x42b2986c,
    0xdbbbc9d6, 0xacbcf940, 0x32d86ce3, 0x45df5c75, 0xdcd60dcf, 0xabd13d59,
    0x26d930ac, 0x51de003a, 0xc8d75180, 0xbfd06116, 0x21b4f4b5, 0x56b3c423,
    0xcfba9599, 0xb8bda50f, 0x2802b89e, 0x5f058808, 0xc60cd9b2, 0xb10be924,
    0x2f6f7c87, 0x58684c11, 0xc1611dab, 0xb6662d3d, 0x76dc4190, 0x01db7106,
    0x98d220bc, 0xefd5102a, 0x71b18589, 0x06b6b51f, 0x9fbfe4a5, 0xe8b8d433,
    0x7807c9a2, 0x0f00f934, 0x9609a88e, 0xe10e9818, 0x7f6a0dbb, 0x086d3d2d,
    0x91646c97, 0xe6635c01, 0x6b6b51f4, 0x1c6c6162, 0x856530d8, 0xf262004e,
    0x6c0695ed, 0x1b01a57b, 0x8208f4c1, 0xf50fc457, 0x65b0d9c6, 0x12b7e950,
    0x8bbeb8ea, 0xfcb9887c, 0x62dd1ddf, 0x15da2d49, 0x8cd37cf3, 0xfbd44c65,
    0x4db26158, 0x3ab551ce, 0xa3bc0074, 0xd4bb30e2, 0x4adfa541, 0x3dd895d7,
    0xa4d1c46d, 0xd3d6f4fb, 0x4369e96a, 0x346ed9fc, 0xad678846, 0xda60b8d0,
    0x44042d73, 0x33031de5, 0xaa0a4c5f, 0xdd0d7cc9, 0x5005713c, 0x270241aa,
    0xbe0b1010, 0xc90c2086, 0x5768b525, 0x206f85b3, 0xb966d409, 0xce61e49f,
    0x5edef90e, 0x29d9c998, 0xb0d09822, 0xc7d7a8b4, 0x59b33d17, 0x2eb40d81,
    0xb7bd5c3b, 0xc0ba6cad, 0xedb88320, 0x9abfb3b6, 0x03b6e20c, 0x74b1d29a,
    0xead54739, 0x9dd277af, 0x04db2615, 0x73dc1683, 0xe3630b12, 0x94643b84,
    0x0d6d6a3e, 0x7a6a5aa8, 0xe40ecf0b, 0x9309ff9d, 0x0a00ae27, 0x7d079eb1,
    0xf00f9344, 0x8708a3d2, 0x1e01f268, 0x6906c2fe, 0xf762575d, 0x806567cb,
    0x196c3671, 0x6e6b06e7, 0xfed41b76, 0x89d32be0, 0x10da7a5a, 0x67dd4acc,
    0xf9b9df6f, 0x8ebeeff9, 0x17b7be43, 0x60b08ed5, 0xd6d6a3e8, 0xa1d1937e,
    0x38d8c2c4, 0x4fdff252, 0xd1bb67f1, 0xa6bc5767, 0x3fb506dd, 0x48b2364b,
    0xd80d2bda, 0xaf0a1b4c, 0x36034af6, 0x41047a60, 0xdf60efc3, 0xa867df55,
    0x316e8eef, 0x4669be79, 0xcb61b38c, 0xbc66831a, 0x256fd2a0, 0x5268e236,
    0xcc0c7795, 0xbb0b4703, 0x220216b9, 0x5505262f, 0xc5ba3bbe, 0xb2bd0b28,
    0x2bb45a92, 0x5cb36a04, 0xc2d7ffa7, 0xb5d0cf31, 0x2cd99e8b, 0x5bdeae1d,
    0x9b64c2b0, 0xec63f226, 0x756aa39c, 0x026d930a, 0x9c0906a9, 0xeb0e363f,
    0x72076785, 0x05005713, 0x95bf4a82, 0xe2b87a14, 0x7bb12bae, 0x0cb61b38,
    0x92d28e9b, 0xe5d5be0d, 0x7cdcefb7, 0x0bdbdf21, 0x86d3d2d4, 0xf1d4e242,
    0x68ddb3f8, 0x1fda836e, 0x81be16cd, 0xf6b9265b, 0x6fb077e1, 0x18b74777,
    0x88085ae6, 0xff0f6a70, 0x66063bca, 0x11010b5c, 0x8f659eff, 0xf862ae69,
    0x616bffd3, 0x166ccf45, 0xa00ae278, 0xd70dd2ee, 0x4e048354, 0x3903b3c2,
    0xa7672661, 0xd06016f7, 0x4969474d, 0x3e6e77db, 0xaed16a4a, 0xd9d65adc,
    0x40df0b66, 0x37d83bf0, 0xa9bcae53, 0xdebb9ec5, 0x47b2cf7f, 0x30b5ffe9,
    0xbdbdf21c, 0xcabac28a, 0x53b39330, 0x24b4a3a6, 0xbad03605, 0xcdd70693,
    0x54de5729, 0x23d967bf, 0xb3667a2e, 0xc4614ab8, 0x5d681b02, 0x2a6f2b94,
    0xb40bbe37, 0xc30c8ea1, 0x5a05df1b, 0x2d02ef8d,
];

/// What the table holds.
proof fn lemma_entries()
    by (bit_vector)
    ensures
        crc_byte(0) == 0x00000000, crc_byte(1) == 0x77073096, crc_byte(2) == 0xee0e612c,
        crc_byte(3) == 0x990951ba, crc_byte(4) == 0x076dc419, crc_byte(5) == 0x706af48f,
        crc_byte(6) == 0xe963a535, crc_byte(7) == 0x9e6495a3, crc_byte(8) == 0x0edb8832,
        crc_byte(9) == 0x79dcb8a4, crc_byte(10) == 0xe0d5e91e, crc_byte(11) == 0x97d2d988,
        crc_byte(12) == 0x09b64c2b, crc_byte(13) == 0x7eb17cbd, crc_byte(14) == 0xe7b82d07,
        crc_byte(15) == 0x90bf1d91, crc_byte(16) == 0x1db71064, crc_byte(17) == 0x6ab020f2,
        crc_byte(18) == 0xf3b97148, crc_byte(19) == 0x84be41de, crc_byte(20) == 0x1adad47d,
        crc_byte(21) == 0x6ddde4eb, crc_byte(22) == 0xf4d4b551, crc_byte(23) == 0x83d385c7,
        crc_byte(24) == 0x136c9856, crc_byte(25) == 0x646ba8c0, crc_byte(26) == 0xfd62f97a,
        crc_byte(27) == 0x8a65c9ec, crc_byte(28) == 0x14015c4f, crc_byte(29) == 0x63066cd9,
        crc_byte(30) == 0xfa0f3d63, crc_byte(31) == 0x8d080df5, crc_byte(32) == 0x3b6e20c8,
        crc_byte(33) == 0x4c69105e, crc_byte(34) == 0xd56041e4, crc_byte(35) == 0xa2677172,
        crc_byte(36) == 0x3c03e4d1, crc_byte(37) == 0x4b04d447, crc_byte(38) == 0xd20d85fd,
        crc_byte(39) == 0xa50ab56b, crc_byte(40) == 0x35b5a8fa, crc_byte(41) == 0x42b2986c,
        crc_byte(42) == 0xdbbbc9d6, crc_byte(43) == 0xacbcf940, crc_byte(44) == 0x32d86ce3,
        crc_byte(45) == 0x45df5c75, crc_byte(46) == 0xdcd60dcf, crc_byte(47) == 0xabd13d59,
        crc_byte(48) == 0x26d930ac, crc_byte(49) == 0x51de003a, crc_byte(50) == 0xc8d75180,
        crc_byte(51) == 0xbfd06116, crc_byte(52) == 0x21b4f4b5, crc_byte(53) == 0x56b3c423,
        crc_byte(54) == 0xcfba9599, crc_byte(55) == 0xb8bda50f, crc_byte(56) == 0x2802b89e,
        crc_byte(57) == 0x5f058808, crc_byte(58) == 0xc60cd9b2, crc_byte(59) == 0xb10be924,
        crc_byte(60) == 0x2f6f7c87, crc_byte(61) == 0x58684c11, crc_byte(62) == 0xc1611dab,
        crc_byte(63) == 0xb6662d3d, crc_byte(64) == 0x76dc4190, crc_byte(65) == 0x01db7106,
        crc_byte(66) == 0x98d220bc, crc_byte(67) == 0xefd5102a, crc_byte(68) == 0x71b18589,
        crc_byte(69) == 0x06b6b51f, crc_byte(70) == 0x9fbfe4a5, crc_byte(71) == 0xe8b8d433,
        crc_byte(72) == 0x7807c9a2, crc_byte(73) == 0x0f00f934, crc_byte(74) == 0x9609a88e,
        crc_byte(75) == 0xe10e9818, crc_byte(76) == 0x7f6a0dbb, crc_byte(77) == 0x086d3d2d,
        crc_byte(78) == 0x91646c97, crc_byte(79) == 0xe6635c01, crc_byte(80) == 0x6b6b51f4,
        crc_byte(81) == 0x1c6c6162, crc_byte(82) == 0x856530d8, crc_byte(83) == 0xf262004e,
        crc_byte(84) == 0x6c0695ed, crc_byte(85) == 0x1b01a57b, crc_byte(86) == 0x8208f4c1,
        crc_byte(87) == 0xf50fc457, crc_byte(88) == 0x65b0d9c6, crc_byte(89) == 0x12b7e950,
        crc_byte(90) == 0x8bbeb8ea, crc_byte(91) == 0xfcb9887c, crc_byte(92) == 0x62dd1ddf,
        crc_byte(93) == 0x15da2d49, crc_byte(94) == 0x8cd37cf3, crc_byte(95) == 0xfbd44c65,
        crc_byte(96) == 0x4db26158, crc_byte(97) == 0x3ab551ce, crc_byte(98) == 0xa3bc0074,
        crc_byte(99) == 0xd4bb30e2, crc_byte(100) == 0x4adfa541, crc_byte(101) == 0x3dd895d7,
        crc_byte(102) == 0xa4d1c46d, crc_byte(103) == 0xd3d6f4fb, crc_byte(104) == 0x4369e96a,
        crc_byte(105) == 0x346ed9fc, crc_byte(106) == 0xad678846, crc_byte(107) == 0xda60b8d0,
        crc_byte(108) == 0x44042d73, crc_byte(109) == 0x33031de5, crc_byte(110) == 0xaa0a4c5f,
        crc_byte(111) == 0xdd0d7cc9, crc_byte(112) == 0x5005713c, crc_byte(113) == 0x270241aa,
        crc_byte(114) == 0xbe0b1010, crc_byte(115) == 0xc90c2086, crc_byte(116) == 0x5768b525,
        crc_byte(117) == 0x206f85b3, crc_byte(118) == 0xb966d409, crc_byte(119) == 0xce61e49f,
        crc_byte(120) == 0x5edef90e, crc_byte(121) == 0x29d9c998, crc_byte(122) == 0xb0d09822,
        crc_byte(123) == 0xc7d7a8b4, crc_byte(124) == 0x59b33d17, crc_byte(125) == 0x2eb40d81,
        crc_byte(126) == 0xb7bd5c3b, crc_byte(127) == 0xc0ba6cad, crc_byte(128) == 0xedb88320,
        crc_byte(129) == 0x9abfb3b6, crc_byte(130) == 0x03b6e20c, crc_byte(131) == 0x74b1d29a,
        crc_byte(132) == 0xead54739, crc_byte(133) == 0x9dd277af, crc_byte(134) == 0x04db2615,
        crc_byte(135) == 0x73dc1683, crc_byte(136) == 0xe3630b12, crc_byte(137) == 0x94643b84,
        crc_byte(138) == 0x0d6d6a3e, crc_byte(139) == 0x7a6a5aa8, crc_byte(140) == 0xe40ecf0b,
        crc_byte(141) == 0x9309ff9d, crc_byte(142) == 0x0a00ae27, crc_byte(143) == 0x7d079eb1,
        crc_byte(144) == 0xf00f9344, crc_byte(145) == 0x8708a3d2, crc_byte(146) == 0x1e01f268,
        crc_byte(147) == 0x6906c2fe, crc_byte(148) == 0xf762575d, crc_byte(149) == 0x806567cb,
        crc_byte(150) == 0x196c3671, crc_byte(151) == 0x6e6b06e7, crc_byte(152) == 0xfed41b76,
        crc_byte(153) == 0x89d32be0, crc_byte(154) == 0x10da7a5a, crc_byte(155) == 0x67dd4acc,
        crc_byte(156) == 0xf9b9df6f, crc_byte(157) == 0x8ebeeff9, crc_byte(158) == 0x17b7be43,
        crc_byte(159) == 0x60b08ed5, crc_byte(160) == 0xd6d6a3e8, crc_byte(161) == 0xa1d1937e,
        crc_byte(162) == 0x38d8c2c4, crc_byte(163) == 0x4fdff252, crc_byte(164) == 0xd1bb67f1,
        crc_byte(165) == 0xa6bc5767, crc_byte(166) == 0x3fb506dd, crc_byte(167) == 0x48b2364b,
        crc_byte(168) == 0xd80d2bda, crc_byte(169) == 0xaf0a1b4c, crc_byte(170) == 0x36034af6,
        crc_byte(171) == 0x41047a60, crc_byte(172) == 0xdf60efc3, crc_byte(173) == 0xa867df55,
        crc_byte(174) == 0x316e8eef, crc_byte(175) == 0x4669be79, crc_byte(176) == 0xcb61b38c,
        crc_byte(177) == 0xbc66831a, crc_byte(178) == 0x256fd2a0, crc_byte(179) == 0x5268e236,
        crc_byte(180) == 0xcc0c7795, crc_byte(181) == 0xbb0b4703, crc_byte(182) == 0x220216b9,
        crc_byte(183) == 0x5505262f, crc_byte(184) == 0xc5ba3bbe, crc_byte(185) == 0xb2bd0b28,
        crc_byte(186) == 0x2bb45a92, crc_byte(187) == 0x5cb36a04, crc_byte(188) == 0xc2d7ffa7,
        crc_byte(189) == 0xb5d0cf31, crc_byte(190) == 0x2cd99e8b, crc_byte(191) == 0x5bdeae1d,
        crc_byte(192) == 0x9b64c2b0, crc_byte(193) == 0xec63f226, crc_byte(194) == 0x756aa39c,
        crc_byte(195) == 0x026d930a, crc_byte(196) == 0x9c0906a9, crc_byte(197) == 0xeb0e363f,
        crc_byte(198) == 0x72076785, crc_byte(199) == 0x05005713, crc_byte(200) == 0x95bf4a82,
        crc_byte(201) == 0xe2b87a14, crc_byte(202) == 0x7bb12bae, crc_byte(203) == 0x0cb61b38,
        crc_byte(204) == 0x92d28e9b, crc_byte(205) == 0xe5d5be0d, crc_byte(206) == 0x7cdcefb7,
        crc_byte(207) == 0x0bdbdf21, crc_byte(208) == 0x86d3d2d4, crc_byte(209) == 0xf1d4e242,
        crc_byte(210) == 0x68ddb3f8, crc_byte(211) == 0x1fda836e, crc_byte(212) == 0x81be16cd,
        crc_byte(213) == 0xf6b9265b, crc_byte(214) == 0x6fb077e1, crc_byte(215) == 0x18b74777,
        crc_byte(216) == 0x88085ae6, crc_byte(217) == 0xff0f6a70, crc_byte(218) == 0x66063bca,
        crc_byte(219) == 0x11010b5c, crc_byte(220) == 0x8f659eff, crc_byte(221) == 0xf862ae69,
        crc_byte(222) == 0x616bffd3, crc_byte(223) == 0x166ccf45, crc_byte(224) == 0xa00ae278,
        crc_byte(225) == 0xd70dd2ee, crc_byte(226) == 0x4e048354, crc_byte(227) == 0x3903b3c2,
        crc_byte(228) == 0xa7672661, crc_byte(229) == 0xd06016f7, crc_byte(230) == 0x4969474d,
        crc_byte(231) == 0x3e6e77db, crc_byte(232) == 0xaed16a4a, crc_byte(233) == 0xd9d65adc,
        crc_byte(234) == 0x40df0b66, crc_byte(235) == 0x37d83bf0, crc_byte(236) == 0xa9bcae53,
        crc_byte(237) == 0xdebb9ec5, crc_byte(238) == 0x47b2cf7f, crc_byte(239) == 0x30b5ffe9,
        crc_byte(240) == 0xbdbdf21c, crc_byte(241) == 0xcabac28a, crc_byte(242) == 0x53b39330,
        crc_byte(243) == 0x24b4a3a6, crc_byte(244) == 0xbad03605, crc_byte(245) == 0xcdd70693,
        crc_byte(246) == 0x54de5729, crc_byte(247) == 0x23d967bf, crc_byte(248) == 0xb3667a2e,
        crc_byte(249) == 0xc4614ab8, crc_byte(250) == 0x5d681b02, crc_byte(251) == 0x2a6f2b94,
        crc_byte(252) == 0xb40bbe37, crc_byte(253) == 0xc30c8ea1, crc_byte(254) == 0x5a05df1b,
        crc_byte(255) == 0x2d02ef8d,
{
}

/// Each entry of the table is [`crc_byte`] of its index.
proof fn lemma_table(i: int)
    requires
        0 <= i < 256,
    ensures
        CRC32_TABLE@[i] == crc_byte(i as u32),
{
    lemma_entries();
}

/// The upper bits of the register only move down during a byte, so one lookup replaces its steps.
proof fn lemma_crc_lookup(c: u32, b: u8)
    by (bit_vector)
    ensures
        crc_byte(c ^ (b as u32)) == crc_byte((c ^ (b as u32)) & 0xff) ^ (c >> 8),
        (c ^ (b as u32)) & 0xff < 256,
{
}

/// The Ethernet FCS: CRC-32 (reflected, polynomial `0xEDB88320`), as used by IEEE 802.3.
pub fn crc32(data: &[u8]) -> (r: u32)
    ensures
        r == fcs(data@),
{
    let mut crc: u32 = 0xffff_ffff;
    let mut i: usize = 0;
    while i < data.len()
        invariant
            0 <= i <= data@.len(),
            crc == crc_register(data@.take(i as int)),
        decreases data@.len() - i,
    {
        let byte: u8 = data[i];
        let index: usize = ((crc ^ byte as u32) & 0xff) as usize;
        proof {
            lemma_crc_lookup(crc, byte);
            lemma_table(index as int);
            assert(data@.take(i + 1).drop_last() =~= data@.take(i as int));
        }
        crc = CRC32_TABLE[index] ^ (crc >> 8);
        i = i + 1;
    }
    assert(data@.take(i as int) =~= data@);
    !crc
}

/// The sum of the 16-bit big-endian words of a block; an odd trailing byte is the high half of a
/// last word.
pub open spec fn word_sum(data: Seq<u8>) -> int
    decreases data.len(),
{
    if data.len() == 0 {
        0
    } else if data.len() == 1 {
        data[0] * 256
    } else {
        data[0] * 256 + data[1] + word_sum(data.skip(2))
    }
}

/// A sum with its carries folded back in until none are left: the representative of the sum modulo
/// 65535 that is not 0 unless the sum is.
pub open spec fn folded(sum: int) -> int {
    if sum == 0 {
        0
    } else {
        (sum - 1) % 65535 + 1
    }
}

/// The ones' complement checksum (RFC 1071) of a block with a pre-summed part.
pub open spec fn checksum(data: Seq<u8>, initial: int) -> int {
    65535 - folded(initial + word_sum(data))
}

/// Each byte of a block adds less than 256 * 256 to its sum.
pub proof fn lemma_word_sum_bound(data: Seq<u8>)
    ensures
        0 <= word_sum(data) <= 65535 * ((data.len() + 1) / 2),
    decreases data.len(),
{
    if data.len() >= 2 {
        lemma_word_sum_bound(data.skip(2));
    }
}

/// Folding one carry back in keeps the representative.
proof fn lemma_fold_step(sum: int)
    requires
        sum >= 65536,
    ensures
        folded(sum % 65536 + sum / 65536) == folded(sum),
        0 < sum % 65536 + sum / 65536 < sum,
{
    let q = sum / 65536;
    let r = sum % 65536;
    assert(sum - 1 == (r + q - 1) + 65535 * q);
    assert((sum - 1) % 65535 == (r + q - 1) % 65535) by (nonlinear_arith)
        requires
            sum - 1 == (r + q - 1) + 65535 * q,
    ;
}

/// The ones' complement checksum used by IPv4 and UDP (RFC 1071).
///
/// `initial` carries a pre-summed pseudo-header; pass 0 for IPv4. Running this over a block that
/// already contains a correct checksum yields zero, which is how a receiver verifies one.
pub fn ones_complement_checksum(data: &[u8], initial: u32) -> (r: u16)
    requires
        initial + word_sum(data@) <= u32::MAX,
    ensures
        r == checksum(data@, initial as int),
{
    let mut sum: u32 = initial;
    let mut i: usize = 0;
    assert(data@.skip(0) =~= data@);
    while i < data.len() && data.len() - i >= 2
        invariant
            0 <= i <= data@.len(),
            sum + word_sum(data@.skip(i as int)) == initial + word_sum(data@),
            initial + word_sum(data@) <= u32::MAX,
        decreases data@.len() - i,
    {
        proof {
            let rest = data@.skip(i as int);
            assert(rest.skip(2) =~= data@.skip(i + 2));
            lemma_word_sum_bound(rest.skip(2));
            assert(rest[0] == data@[i as int] && rest[1] == data@[i + 1]);
        }
        sum = sum + (data[i] as u32 * 256 + data[i + 1] as u32);
        i = i + 2;
    }
    if i < data.len() {
        assert(data@.skip(i as int)[0] == data@[i as int]);
        sum = sum + data[i] as u32 * 256;
    }
    assert(sum == initial + word_sum(data@));
    let ghost total = sum as int;
    while sum >= 0x1_0000
        invariant
            folded(sum as int) == folded(total),
        decreases sum,
    {
        proof {
            lemma_fold_step(sum as int);
        }
        sum = sum % 0x1_0000 + sum / 0x1_0000;
    }
    0xffff - sum as u16
}

/// The frame length (with FCS, without preamble) for a payload length.
pub open spec fn frame_length(payload_len: int) -> int {
    let ip_total = 28 + payload_len;
    18 + (if ip_total < 46 {
        46
    } else {
        ip_total
    })
}

/// Total frame length (including FCS, excluding preamble/SFD) for a given payload.
pub fn frame_len(payload_len: usize) -> (r: usize)
    requires
        frame_length(payload_len as int) <= usize::MAX,
    ensures
        r == frame_length(payload_len as int),
{
    let ip_total: usize = IPV4_HEADER_LEN + UDP_HEADER_LEN + payload_len;
    let eth_payload: usize = if ip_total < MIN_ETHERNET_PAYLOAD {
        MIN_ETHERNET_PAYLOAD
    } else {
        ip_total
    };
    ETHERNET_HEADER_LEN + eth_payload + FCS_LEN
}

/// A 16-bit number in network order.
pub open spec fn be16(v: int) -> Seq<u8> {
    seq![(v / 256) as u8, (v % 256) as u8]
}

/// The number that two bytes in network order spell.
pub open spec fn be16_at(b: Seq<u8>, i: int) -> int {
    b[i] * 256 + b[i + 1]
}

/// A 32-bit number, least significant byte first.
pub open spec fn le32(v: u32) -> Seq<u8> {
    seq![
        (v & 0xff) as u8,
        ((v >> 8) & 0xff) as u8,
        ((v >> 16) & 0xff) as u8,
        ((v >> 24) & 0xff) as u8,
    ]
}

impl<'a> UdpFrameSpec<'a> {
    /// The UDP length: header and payload.
    pub open spec fn udp_len(&self) -> int {
        8int + self.payload@.len()
    }

    /// The Ethernet header.
    pub open spec fn ethernet_header(&self) -> Seq<u8> {
        self.dst_mac.0@ + self.src_mac.0@ + be16(0x0800)
    }

    /// The IPv4 header with a given checksum: no options, no fragmentation.
    pub open spec fn ip_header(&self, ck: int) -> Seq<u8> {
        seq![0x45u8, 0x00] + be16(20 + self.udp_len()) + be16(self.ip_id as int) + be16(0) + seq![
            self.ttl,
            17u8,
        ] + be16(ck) + self.src_ip.0@ + self.dst_ip.0@
    }

    /// The checksum of the IPv4 header.
    pub open spec fn ip_checksum(&self) -> int {
        checksum(self.ip_header(0), 0)
    }

    /// The UDP datagram with a given checksum.
    pub open spec fn udp_datagram(&self, ck: int) -> Seq<u8> {
        be16(self.src_port as int) + be16(self.dst_port as int) + be16(self.udp_len()) + be16(ck)
            + self.payload@
    }

    /// The sum of the pseudo-header: both addresses, the protocol and the UDP length.
    pub open spec fn pseudo_sum(&self) -> int {
        word_sum(self.src_ip.0@) + word_sum(self.dst_ip.0@) + 17 + self.udp_len()
    }

    /// The UDP checksum. A computed zero is sent as its other representation, since a zero on the
    /// wire means that there is no checksum.
    pub open spec fn udp_checksum(&self) -> int {
        let ck = checksum(self.udp_datagram(0), self.pseudo_sum());
        if ck == 0 {
            0xffff
        } else {
            ck
        }
    }

    /// The frame without its FCS: the headers, the payload and zeros up to the minimum length.
    pub open spec fn body(&self) -> Seq<u8> {
        let packet = self.ethernet_header() + self.ip_header(self.ip_checksum())
            + self.udp_datagram(self.udp_checksum());
        packet + zeros(frame_length(self.payload@.len() as int) - 4 - packet.len())
    }

    /// The complete frame.
    pub open spec fn frame(&self) -> Seq<u8> {
        self.body() + le32(fcs(self.body()))
    }
}

/// A run of zero bytes.
pub open spec fn zeros(n: int) -> Seq<u8> {
    Seq::new(n as nat, |i: int| 0u8)
}

/// Appends bytes to a buffer.
fn push_all(v: &mut Vec<u8>, bytes: &[u8])
    ensures
        final(v)@ == old(v)@ + bytes@,
{
    let ghost start = v@;
    let mut i: usize = 0;
    assert(start + bytes@.take(0) =~= start);
    while i < bytes.len()
        invariant
            0 <= i <= bytes@.len(),
            v@ == start + bytes@.take(i as int),
        decreases bytes@.len() - i,
    {
        v.push(bytes[i]);
        i = i + 1;
        assert(v@ =~= start + bytes@.take(i as int));
    }
    assert(bytes@.take(i as int) =~= bytes@);
}

/// Appends a 16-bit number in network order.
fn push_be16(v: &mut Vec<u8>, x: u16)
    ensures
        final(v)@ == old(v)@ + be16(x as int),
{
    let ghost start = v@;
    v.push((x / 256) as u8);
    v.push((x % 256) as u8);
    assert(v@ =~= start + be16(x as int));
}

/// Appends a 32-bit number, least significant byte first.
fn push_le32(v: &mut Vec<u8>, x: u32)
    ensures
        final(v)@ == old(v)@ + le32(x),
{
    let ghost start = v@;
    v.push((x & 0xff) as u8);
    v.push(((x >> 8) & 0xff) as u8);
    v.push(((x >> 16) & 0xff) as u8);
    v.push(((x >> 24) & 0xff) as u8);
    assert(v@ =~= start + le32(x));
}

/// Appends zero bytes.
fn push_zeros(v: &mut Vec<u8>, n: usize)
    ensures
        final(v)@ == old(v)@ + zeros(n as int),
{
    let ghost start = v@;
    let mut i: usize = 0;
    assert(start + zeros(0) =~= start);
    while i < n
        invariant
            0 <= i <= n,
            v@ == start + zeros(i as int),
        decreases n - i,
    {
        v.push(0);
        i = i + 1;
        assert(v@ =~= start + zeros(i as int));
    }
}

/// Writes bytes over the start of a buffer.
fn overwrite(out: &mut [u8], bytes: &[u8])
    requires
        bytes@.len() <= old(out)@.len(),
    ensures
        final(out)@ == bytes@ + old(out)@.skip(bytes@.len() as int),
{
    let ghost start = out@;
    let mut i: usize = 0;
    assert(bytes@.take(0) + start.skip(0) =~= start);
    while i < bytes.len()
        invariant
            0 <= i <= bytes@.len() <= start.len(),
            out@.len() == start.len(),
            out@ == bytes@.take(i as int) + start.skip(i as int),
        decreases bytes@.len() - i,
    {
        out[i] = bytes[i];
        i = i + 1;
        assert(out@ =~= bytes@.take(i as int) + start.skip(i as int));
    }
    assert(bytes@.take(i as int) =~= bytes@);
}

/// Builds the IPv4 header with a given checksum.
fn build_ip_header(spec: &UdpFrameSpec, ck: u16) -> (r: Vec<u8>)
    requires
        spec.payload@.len() <= MAX_UDP_PAYLOAD,
    ensures
        r@ == spec.ip_header(ck as int),
{
    let mut v: Vec<u8> = Vec::new();
    v.push(0x45);
    v.push(0);
    assert(v@ =~= seq![0x45u8, 0x00]);
    push_be16(&mut v, (IPV4_HEADER_LEN + UDP_HEADER_LEN + spec.payload.len()) as u16);
    push_be16(&mut v, spec.ip_id);
    push_be16(&mut v, 0);
    let ghost part = v@;
    v.push(spec.ttl);
    v.push(IP_PROTO_UDP);
    assert(v@ =~= part + seq![spec.ttl, 17u8]);
    push_be16(&mut v, ck);
    push_all(&mut v, &spec.src_ip.0);
    push_all(&mut v, &spec.dst_ip.0);
    v
}

/// Builds the UDP datagram with a given checksum.
fn build_udp_datagram(spec: &UdpFrameSpec, ck: u16) -> (r: Vec<u8>)
    requires
        spec.payload@.len() <= MAX_UDP_PAYLOAD,
    ensures
        r@ == spec.udp_datagram(ck as int),
{
    let mut v: Vec<u8> = Vec::new();
    push_be16(&mut v, spec.src_port);
    assert(v@ =~= be16(spec.src_port as int));
    push_be16(&mut v, spec.dst_port);
    push_be16(&mut v, (UDP_HEADER_LEN + spec.payload.len()) as u16);
    push_be16(&mut v, ck);
    push_all(&mut v, spec.payload);
    v
}

/// The sum of the words of an address.
fn address_sum(ip: &Ipv4Addr) -> (r: u32)
    ensures
        r == word_sum(ip.0@),
        r <= 131070,
{
    proof {
        let s = ip.0@;
        reveal_with_fuel(word_sum, 3);
        assert(s.skip(2)[0] == s[2] && s.skip(2)[1] == s[3]);
        assert(s.skip(2).skip(2).len() == 0);
    }
    (ip.0[0] as u32 * 256 + ip.0[1] as u32) + (ip.0[2] as u32 * 256 + ip.0[3] as u32)
}

/// Builds the complete Ethernet frame (headers, payload, padding and FCS) into `out`.
///
/// Returns the number of bytes written, or `None` if `out` is too small or the datagram would be
/// too long. The preamble and SFD belong to the PHY.
pub fn build_udp_frame(spec: &UdpFrameSpec, out: &mut [u8]) -> (r: Option<usize>)
    ensures
        r is Some <==> frame_length(spec.payload@.len() as int) <= old(out)@.len()
            && spec.payload@.len() <= MAX_UDP_PAYLOAD,
        r is Some ==> {
            &&& r->0 == frame_length(spec.payload@.len() as int)
            &&& final(out)@ == spec.frame() + old(out)@.skip(r->0 as int)
        },
        r is None ==> final(out)@ == old(out)@,
{
    if spec.payload.len() > MAX_UDP_PAYLOAD {
        return None;
    }
    let total: usize = frame_len(spec.payload.len());
    if out.len() < total {
        return None;
    }
    let header: Vec<u8> = build_ip_header(spec, 0);
    proof {
        lemma_word_sum_bound(header@);
    }
    let ip_ck: u16 = ones_complement_checksum(header.as_slice(), 0);

    let datagram: Vec<u8> = build_udp_datagram(spec, 0);
    proof {
        lemma_word_sum_bound(datagram@);
    }
    let pseudo: u32 = address_sum(&spec.src_ip) + address_sum(&spec.dst_ip) + IP_PROTO_UDP as u32 + (
    UDP_HEADER_LEN + spec.payload.len()) as u32;
    let udp_ck: u16 = ones_complement_checksum(datagram.as_slice(), pseudo);
    let udp_ck: u16 = if udp_ck == 0 {
        0xffff
    } else {
        udp_ck
    };
    let header: Vec<u8> = build_ip_header(spec, ip_ck);
    let datagram: Vec<u8> = build_udp_datagram(spec, udp_ck);

    let mut frame: Vec<u8> = Vec::new();
    push_all(&mut frame, &spec.dst_mac.0);
    assert(frame@ =~= spec.dst_mac.0@);
    push_all(&mut frame, &spec.src_mac.0);
    push_be16(&mut frame, ETHERTYPE_IPV4);
    assert(frame@ == spec.ethernet_header());
    push_all(&mut frame, header.as_slice());
    push_all(&mut frame, datagram.as_slice());
    let ghost packet = frame@;
    assert(packet.len() == 42 + spec.payload@.len());
    push_zeros(&mut frame, total - FCS_LEN - (42 + spec.payload.len()));
    assert(frame@ == spec.body());
    let check: u32 = crc32(frame.as_slice());
    push_le32(&mut frame, check);
    overwrite(out, frame.as_slice());
    Some(total)
}

/// One UDP datagram, as found inside a received frame. The payload borrows the frame.
#[derive(Clone, Copy, Debug, PartialEq, Eq)]
pub struct UdpDatagram<'a> {
    /// Source MAC.
    pub src_mac: MacAddr,
    /// Destination MAC.
    pub dst_mac: MacAddr,
    /// Source address.
    pub src_ip: Ipv4Addr,
    /// Destination address.
    pub dst_ip: Ipv4Addr,
    /// Source port.
    pub src_port: u16,
    /// Destination port.
    pub dst_port: u16,
    /// The datagram's contents.
    pub payload: &'a [u8],
}

/// The length of the IPv4 header of a frame.
pub open spec fn ip_header_len(f: Seq<u8>) -> int {
    (f[14] % 16) * 4
}

/// The IPv4 total length of a frame.
pub open spec fn ip_total_len(f: Seq<u8>) -> int {
    be16_at(f, 16)
}

/// Where the UDP header of a frame starts.
pub open spec fn udp_at(f: Seq<u8>) -> int {
    14 + ip_header_len(f)
}

/// The UDP length of a frame.
pub open spec fn udp_length(f: Seq<u8>) -> int {
    be16_at(f, udp_at(f) + 4)
}

/// Whether a frame without its FCS holds an IPv4 header that is sound, whole and not a fragment,
/// with room for a UDP header behind it.
pub open spec fn has_ip_header(f: Seq<u8>) -> bool {
    &&& f.len() >= 42
    &&& be16_at(f, 12) == 0x0800
    &&& f[14] / 16 == 4
    &&& ip_header_len(f) >= 20
    &&& ip_total_len(f) >= ip_header_len(f) + 8
    &&& 14 + ip_total_len(f) <= f.len()
    &&& f[23] == 17
    &&& checksum(f.subrange(14, udp_at(f)), 0) == 0
    &&& be16_at(f, 20) % 0x4000 == 0
}

/// Whether a frame without its FCS holds a sound UDP datagram. A checksum of zero means that the
/// sender declined to compute one.
pub open spec fn has_udp_datagram(f: Seq<u8>) -> bool {
    &&& has_ip_header(f)
    &&& 8 <= udp_length(f) <= ip_total_len(f) - ip_header_len(f)
    &&& be16_at(f, udp_at(f) + 6) != 0 ==> checksum(
        f.subrange(udp_at(f), udp_at(f) + udp_length(f)),
        word_sum(f.subrange(26, 34)) + 17 + udp_length(f),
    ) == 0
}

/// Whether `d` is what a frame that holds a datagram says. The payload is bounded by the UDP
/// length, so padding is not payload.
pub open spec fn datagram_of(f: Seq<u8>, d: UdpDatagram) -> bool {
    &&& d.dst_mac.0@ == f.subrange(0, 6)
    &&& d.src_mac.0@ == f.subrange(6, 12)
    &&& d.src_ip.0@ == f.subrange(26, 30)
    &&& d.dst_ip.0@ == f.subrange(30, 34)
    &&& d.src_port == be16_at(f, udp_at(f))
    &&& d.dst_port == be16_at(f, udp_at(f) + 2)
    &&& d.payload@ == f.subrange(udp_at(f) + 8, udp_at(f) + udp_length(f))
}

/// Reads a 16-bit number in network order.
fn read_be16(b: &[u8], i: usize) -> (r: u16)
    requires
        i + 1 < b@.len(),
    ensures
        r == be16_at(b@, i as int),
{
    b[i] as u16 * 256 + b[i + 1] as u16
}

/// Reads an address.
fn read_ip(b: &[u8], i: usize) -> (r: Ipv4Addr)
    requires
        i + 4 <= b@.len(),
    ensures
        r.0@ == b@.subrange(i as int, i + 4),
{
    let r = Ipv4Addr([b[i], b[i + 1], b[i + 2], b[i + 3]]);
    assert(r.0@ =~= b@.subrange(i as int, i + 4));
    r
}

/// Reads a MAC.
fn read_mac(b: &[u8], i: usize) -> (r: MacAddr)
    requires
        i + 6 <= b@.len(),
    ensures
        r.0@ == b@.subrange(i as int, i + 6),
{
    let r = MacAddr([b[i], b[i + 1], b[i + 2], b[i + 3], b[i + 4], b[i + 5]]);
    assert(r.0@ =~= b@.subrange(i as int, i + 6));
    r
}

/// Checks the IPv4 header of a frame and returns its length and the total length.
fn check_ip_header(frame: &[u8]) -> (r: Option<(usize, usize)>)
    ensures
        r is Some <==> has_ip_header(frame@),
        r matches Some((ihl, total)) ==> ihl == ip_header_len(frame@) && total == ip_total_len(
            frame@,
        ),
{
    if frame.len() < ETHERNET_HEADER_LEN + IPV4_HEADER_LEN + UDP_HEADER_LEN {
        return None;
    }
    if read_be16(frame, 12) != ETHERTYPE_IPV4 {
        return None;
    }
    if frame[14] / 16 != 4 {
        return None;
    }
    let ihl: usize = (frame[14] % 16) as usize * 4;
    if ihl < IPV4_HEADER_LEN {
        return None;
    }
    let ip_total: usize = read_be16(frame, 16) as usize;
    if ip_total < ihl + UDP_HEADER_LEN || ETHERNET_HEADER_LEN + ip_total > frame.len() {
        return None;
    }
    if frame[23] != IP_PROTO_UDP {
        return None;
    }
    let header = vstd::slice::slice_subrange(frame, ETHERNET_HEADER_LEN, ETHERNET_HEADER_LEN + ihl);
    proof {
        lemma_word_sum_bound(header@);
    }
    if ones_complement_checksum(header, 0) != 0 {
        return None;
    }
    if read_be16(frame, 20) % 0x4000 != 0 {
        return None;
    }
    Some((ihl, ip_total))
}

/// Finds the UDP datagram in `frame`, which is a frame with its FCS already checked and removed.
///
/// Both header checksums are verified, so a frame that survived its FCS but was built wrong is
/// still refused.
pub fn parse_udp_frame(frame: &[u8]) -> (r: Option<UdpDatagram<'_>>)
    ensures
        r is Some <==> has_udp_datagram(frame@),
        r is Some ==> datagram_of(frame@, r->0),
{
    let (ihl, ip_total): (usize, usize) = check_ip_header(frame)?;
    let udp: usize = ETHERNET_HEADER_LEN + ihl;
    let udp_len: usize = read_be16(frame, udp + 4) as usize;
    if udp_len < UDP_HEADER_LEN || udp_len > ip_total - ihl {
        return None;
    }
    let datagram = vstd::slice::slice_subrange(frame, udp, udp + udp_len);
    if read_be16(frame, udp + 6) != 0 {
        let src: Ipv4Addr = read_ip(frame, 26);
        let dst: Ipv4Addr = read_ip(frame, 30);
        proof {
            lemma_word_sum_concat(src.0@, dst.0@);
            assert(frame@.subrange(26, 34) =~= src.0@ + dst.0@);
            lemma_word_sum_bound(datagram@);
        }
        let pseudo: u32 = address_sum(&src) + address_sum(&dst) + IP_PROTO_UDP as u32
            + udp_len as u32;
        if ones_complement_checksum(datagram, pseudo) != 0 {
            return None;
        }
    }
    let payload = vstd::slice::slice_subrange(frame, udp + UDP_HEADER_LEN, udp + udp_len);
    Some(
        UdpDatagram {
            src_mac: read_mac(frame, 6),
            dst_mac: read_mac(frame, 0),
            src_ip: read_ip(frame, 26),
            dst_ip: read_ip(frame, 30),
            src_port: read_be16(frame, udp),
            dst_port: read_be16(frame, udp + 2),
            payload,
        },
    )
}

/// Word sums add up over blocks of even length.
pub proof fn lemma_word_sum_concat(a: Seq<u8>, b: Seq<u8>)
    requires
        a.len() % 2 == 0,
    ensures
        word_sum(a + b) == word_sum(a) + word_sum(b),
    decreases a.len(),
{
    if a.len() == 0 {
        assert(a + b =~= b);
    } else {
        lemma_word_sum_concat(a.skip(2), b);
        assert((a + b).skip(2) =~= a.skip(2) + b);
    }
}

/// A block whose checksum field holds the checksum of the rest sums to that sum plus the field.
proof fn lemma_word_sum_field(a: Seq<u8>, ck: int, b: Seq<u8>)
    requires
        a.len() % 2 == 0,
        0 <= ck <= 65535,
    ensures
        word_sum(a + be16(ck) + b) == word_sum(a) + ck + word_sum(b),
{
    lemma_word_sum_concat(a + be16(ck), b);
    lemma_word_sum_concat(a, be16(ck));
    assert(word_sum(be16(ck)) == ck) by {
        reveal_with_fuel(word_sum, 2);
        assert(be16(ck).skip(2).len() == 0);
    }
}

/// A sum completed by its own checksum folds to all ones, and so verifies.
pub proof fn law_checksum_verifies(sum: int)
    requires
        sum >= 0,
    ensures
        folded(sum + (65535 - folded(sum))) == 65535,
        folded(sum) == 65535 ==> folded(sum + 65535) == 65535,
{
}

/// What is built is what is parsed: the frame that is built for any payload that fits holds, once
/// its FCS is removed, exactly the datagram that was put in, padding or not.
pub proof fn law_built_frame_parses_back(spec: UdpFrameSpec, d: UdpDatagram)
    requires
        spec.payload@.len() <= MAX_UDP_PAYLOAD,
    ensures
        has_udp_datagram(spec.body()),
        datagram_of(spec.body(), d) ==> {
            &&& d.src_mac.0@ == spec.src_mac.0@
            &&& d.dst_mac.0@ == spec.dst_mac.0@
            &&& d.src_ip.0@ == spec.src_ip.0@
            &&& d.dst_ip.0@ == spec.dst_ip.0@
            &&& d.src_port == spec.src_port
            &&& d.dst_port == spec.dst_port
            &&& d.payload@ == spec.payload@
        },
{
    let f = spec.body();
    let n = spec.payload@.len() as int;
    let ip_ck = spec.ip_checksum();
    let udp_ck = spec.udp_checksum();
    let eth = spec.ethernet_header();
    let ip = spec.ip_header(ip_ck);
    let udp = spec.udp_datagram(udp_ck);
    assert(eth.len() == 14 && ip.len() == 20 && udp.len() == 8 + n);
    lemma_word_sum_bound(spec.ip_header(0));
    lemma_word_sum_bound(spec.udp_datagram(0));
    lemma_word_sum_bound(spec.src_ip.0@);
    lemma_word_sum_bound(spec.dst_ip.0@);
    assert(0 <= ip_ck <= 65535);
    assert(1 <= udp_ck <= 65535);

    // The IPv4 header.
    assert(f.subrange(14, 34) =~= ip);
    assert(f[12] == 8 && f[13] == 0) by {
        assert(f[12] == eth[12] && f[13] == eth[13]);
    }
    assert(f[14] == ip[0] && f[16] == ip[2] && f[17] == ip[3] && f[20] == ip[6] && f[21] == ip[7]
        && f[23] == ip[9]);
    let head = seq![0x45u8, 0x00] + be16(20 + spec.udp_len()) + be16(spec.ip_id as int) + be16(0)
        + seq![spec.ttl, 17u8];
    let tail = spec.src_ip.0@ + spec.dst_ip.0@;
    assert(ip =~= head + be16(ip_ck) + tail);
    assert(spec.ip_header(0) =~= head + be16(0) + tail);
    lemma_word_sum_field(head, ip_ck, tail);
    lemma_word_sum_field(head, 0, tail);
    let ip_sum = word_sum(spec.ip_header(0));
    law_checksum_verifies(ip_sum);
    assert(word_sum(ip) == ip_sum + ip_ck);
    assert(checksum(ip, 0) == 0);
    assert(has_ip_header(f));

    // The UDP datagram.
    assert(udp_at(f) == 34);
    assert(f.subrange(34, 42 + n) =~= udp);
    assert forall|i: int| 0 <= i < 8 implies f[34 + i] == #[trigger] udp[i] by {}
    assert(f[34] == udp[0] && f[35] == udp[1] && f[36] == udp[2] && f[37] == udp[3] && f[38]
        == udp[4] && f[39] == udp[5] && f[40] == udp[6] && f[41] == udp[7]);
    assert(udp_length(f) == 8 + n);
    let uhead = be16(spec.src_port as int) + be16(spec.dst_port as int) + be16(spec.udp_len());
    assert(udp =~= uhead + be16(udp_ck) + spec.payload@);
    assert(spec.udp_datagram(0) =~= uhead + be16(0) + spec.payload@);
    lemma_word_sum_field(uhead, udp_ck, spec.payload@);
    lemma_word_sum_field(uhead, 0, spec.payload@);
    assert(f.subrange(26, 34) =~= tail);
    lemma_word_sum_concat(spec.src_ip.0@, spec.dst_ip.0@);
    law_checksum_verifies(spec.pseudo_sum() + word_sum(spec.udp_datagram(0)));
    assert(checksum(udp, spec.pseudo_sum()) == 0);

    assert(f.subrange(0, 6) =~= spec.dst_mac.0@);
    assert(f.subrange(6, 12) =~= spec.src_mac.0@);
    assert(f.subrange(26, 30) =~= spec.src_ip.0@);
    assert(f.subrange(30, 34) =~= spec.dst_ip.0@);
    assert(f.subrange(42, 42 + n) =~= spec.payload@);
}

/// Every built frame is at least 64 bytes long, and its last four bytes are the FCS of the rest.
pub proof fn law_frame_is_whole(spec: UdpFrameSpec)
    requires
        spec.payload@.len() <= MAX_UDP_PAYLOAD,
    ensures
        spec.frame().len() == frame_length(spec.payload@.len() as int),
        spec.frame().len() >= 64,
        ({
            let f = spec.frame();
            f.skip(f.len() - 4) == le32(fcs(f.take(f.len() - 4)))
        }),
{
    let f = spec.frame();
    assert(f.take(f.len() - 4) =~= spec.body());
    assert(f.skip(f.len() - 4) =~= le32(fcs(spec.body())));
}

/// Multicast groups that differ only above the low 23 bits share a MAC.
pub proof fn law_multicast_mac_drops_high_bits(a: Ipv4Addr, b: Ipv4Addr, ma: MacAddr, mb: MacAddr)
    requires
        call_ensures(MacAddr::for_ipv4_multicast, (a,), ma),
        call_ensures(MacAddr::for_ipv4_multicast, (b,), mb),
        a.0@[1] % 128 == b.0@[1] % 128,
        a.0@[2] == b.0@[2],
        a.0@[3] == b.0@[3],
    ensures
        ma.0@ == mb.0@,
{
}

/// A frame and its FCS leave the register of a receiver at one value, whatever the frame: this is
/// how an 802.3 receiver checks it. With nothing to check, the FCS is 0.
pub proof fn law_fcs_leaves_the_known_residue(data: Seq<u8>)
    ensures
        crc_register(data + le32(fcs(data))) == 0xDEBB_20E3,
        fcs(Seq::<u8>::empty()) == 0,
{
    let c = crc_register(data);
    let f = !c;
    let b0 = (f & 0xff) as u8;
    let b1 = ((f >> 8) & 0xff) as u8;
    let b2 = ((f >> 16) & 0xff) as u8;
    let b3 = ((f >> 24) & 0xff) as u8;
    let d1 = data.push(b0);
    let d2 = d1.push(b1);
    let d3 = d2.push(b2);
    let d4 = d3.push(b3);
    assert(data + le32(f) =~= d4);
    assert(d4.drop_last() =~= d3 && d3.drop_last() =~= d2 && d2.drop_last() =~= d1
        && d1.drop_last() =~= data);
    let c1 = crc_register(d1);
    let c2 = crc_register(d2);
    let c3 = crc_register(d3);
    lemma_entries();
    lemma_crc_lookup(c, b0);
    lemma_crc_lookup(c1, b1);
    lemma_crc_lookup(c2, b2);
    lemma_crc_lookup(c3, b3);
    assert((c ^ (b0 as u32)) & 0xff == 255) by (bit_vector)
        requires
            b0 == (!c & 0xff) as u8,
    ;
    assert(c1 == 0x2d02ef8d ^ (c >> 8));
    assert((c1 ^ (b1 as u32)) & 0xff == 114 && 0xbe0b1010 ^ (c1 >> 8) == 0xbe2612ff ^ (c >> 16))
        by (bit_vector)
        requires
            c1 == 0x2d02ef8d ^ (c >> 8),
            b1 == ((!c >> 8) & 0xff) as u8,
    ;
    assert(c2 == 0xbe2612ff ^ (c >> 16));
    assert((c2 ^ (b2 as u32)) & 0xff == 0 && 0u32 ^ (c2 >> 8) == 0x00be2612 ^ (c >> 24))
        by (bit_vector)
        requires
            c2 == 0xbe2612ff ^ (c >> 16),
            b2 == ((!c >> 16) & 0xff) as u8,
    ;
    assert(c3 == 0x00be2612 ^ (c >> 24));
    assert((c3 ^ (b3 as u32)) & 0xff == 237 && 0xdebb9ec5 ^ (c3 >> 8) == 0xdebb20e3)
        by (bit_vector)
        requires
            c3 == 0x00be2612 ^ (c >> 24),
            b3 == ((!c >> 24) & 0xff) as u8,
    ;
    assert(!0xffff_ffffu32 == 0) by (bit_vector);
}

/// The checksum sums the 16-bit words of a block, the high byte of each first, with an odd byte as
/// the high one of a last word; carries are folded back in, so that only the sum modulo 65535 counts.
pub proof fn law_checksum_sums_words(a: Seq<u8>, b: Seq<u8>, x: u8, y: u8, sum: int)
    requires
        a.len() % 2 == 0,
        sum > 0,
    ensures
        word_sum(Seq::<u8>::empty()) == 0,
        word_sum(seq![x]) == 256 * x,
        word_sum(seq![x, y]) == 256 * x + y,
        word_sum(a + b) == word_sum(a) + word_sum(b),
        1 <= folded(sum) <= 65_535,
        (sum - folded(sum)) % 65_535 == 0,
        checksum(b, sum) + folded(sum + word_sum(b)) == 65_535,
        folded(0) == 0,
{
    lemma_word_sum_concat(a, b);
    assert(seq![x, y].skip(2) =~= Seq::<u8>::empty());
    assert(word_sum(Seq::<u8>::empty()) == 0);
    assert(seq![x, y][0] == x && seq![x, y][1] == y);
}

/// A frame is 46 bytes longer than its payload, and never shorter than 64.
pub proof fn law_frame_length_has_a_floor(n: int)
    requires
        n >= 0,
    ensures
        n <= 18 ==> frame_length(n) == 64,
        n >= 18 ==> frame_length(n) == n + 46,
{
}

/// Numbers in network order have their high byte first, and the FCS its low byte.
pub proof fn law_numbers_have_their_byte_order(v: u16, w: u32)
    ensures
        256 * be16(v as int)[0] + be16(v as int)[1] == v,
        be16_at(be16(v as int), 0) == v,
        le32(w)[0] + 0x100 * le32(w)[1] + 0x1_0000 * le32(w)[2] + 0x100_0000 * le32(w)[3] == w,
{
    let (a, b, c, d) = (
        (w & 0xff) as u8,
        ((w >> 8) & 0xff) as u8,
        ((w >> 16) & 0xff) as u8,
        ((w >> 24) & 0xff) as u8,
    );
    assert(a + 0x100 * b + 0x1_0000 * c + 0x100_0000 * d == w) by (bit_vector)
        requires
            a == (w & 0xff) as u8,
            b == ((w >> 8) & 0xff) as u8,
            c == ((w >> 16) & 0xff) as u8,
            d == ((w >> 24) & 0xff) as u8,
    ;
}

/// Where everything stands in a built frame: the two MACs with the destination first, the type of
/// IPv4, a header of five words with the total length, the identification, no fragment, the time to
/// live, UDP, and the two addresses with the source first; then the two ports with the source first,
/// the length, and the payload, with zeros behind it where it is short.
pub proof fn law_frame_is_laid_out(spec: UdpFrameSpec, i: int)
    requires
        spec.payload@.len() <= MAX_UDP_PAYLOAD,
    ensures
        ({
            let f = spec.frame();
            let n = spec.payload@.len() as int;
            &&& f.subrange(0, 6) == spec.dst_mac.0@
            &&& f.subrange(6, 12) == spec.src_mac.0@
            &&& f[12] == 8 && f[13] == 0
            &&& f[14] == 0x45 && f[15] == 0
            &&& 256 * f[16] + f[17] == n + 28
            &&& 256 * f[18] + f[19] == spec.ip_id
            &&& f[20] == 0 && f[21] == 0
            &&& f[22] == spec.ttl && f[23] == 17
            &&& f.subrange(26, 30) == spec.src_ip.0@
            &&& f.subrange(30, 34) == spec.dst_ip.0@
            &&& 256 * f[34] + f[35] == spec.src_port
            &&& 256 * f[36] + f[37] == spec.dst_port
            &&& 256 * f[38] + f[39] == n + 8
            &&& f.subrange(42, 42 + n) == spec.payload@
            &&& 42 + n <= i < f.len() - 4 ==> f[i] == 0
        }),
{
    let f = spec.frame();
    let n = spec.payload@.len() as int;
    let eth = spec.ethernet_header();
    let ip = spec.ip_header(spec.ip_checksum());
    let udp = spec.udp_datagram(spec.udp_checksum());
    assert(eth.len() == 14 && ip.len() == 20 && udp.len() == 8 + n);
    let pad = zeros(frame_length(n) - 4 - (42 + n));
    assert(f =~= eth + ip + udp + pad + le32(fcs(spec.body())));
    assert(f.subrange(0, 6) =~= spec.dst_mac.0@);
    assert(f.subrange(6, 12) =~= spec.src_mac.0@);
    assert(f[12] == eth[12] && f[13] == eth[13]);
    assert(f[14] == ip[0] && f[15] == ip[1] && f[16] == ip[2] && f[17] == ip[3] && f[18] == ip[4]
        && f[19] == ip[5] && f[20] == ip[6] && f[21] == ip[7] && f[22] == ip[8] && f[23] == ip[9]);
    assert(f.subrange(26, 30) =~= spec.src_ip.0@);
    assert(f.subrange(30, 34) =~= spec.dst_ip.0@);
    assert(f[34] == udp[0] && f[35] == udp[1] && f[36] == udp[2] && f[37] == udp[3] && f[38]
        == udp[4] && f[39] == udp[5]);
    assert(f.subrange(42, 42 + n) =~= spec.payload@);
    if 42 + n <= i < f.len() - 4 {
        assert(f[i] == pad[i - 42 - n]);
    }
}

/// What a receiver reads, and where: the MACs and the addresses at their places, the ports and the
/// length behind a header of as many words as its first byte says, and the payload as long as that
/// length says. It reads only what is IPv4, whole, no fragment, UDP, and sound by both checksums,
/// the second of which the sender may leave out.
pub proof fn law_datagram_is_read_where_it_stands(f: Seq<u8>, d: UdpDatagram)
    requires
        has_udp_datagram(f),
        datagram_of(f, d),
    ensures
        ({
            let u = 14 + 4 * (f[14] % 16);
            let total = 256 * f[16] + f[17];
            let len = 256 * f[u + 4] + f[u + 5];
            &&& d.dst_mac.0@ == f.subrange(0, 6) && d.src_mac.0@ == f.subrange(6, 12)
            &&& d.src_ip.0@ == f.subrange(26, 30) && d.dst_ip.0@ == f.subrange(30, 34)
            &&& d.src_port == 256 * f[u] + f[u + 1]
            &&& d.dst_port == 256 * f[u + 2] + f[u + 3]
            &&& d.payload@ == f.subrange(u + 8, u + len)
            &&& f[12] == 8 && f[13] == 0 && f[14] / 16 == 4 && f[14] % 16 >= 5
            &&& f[23] == 17
            &&& f[20] % 64 == 0 && f[21] == 0
            &&& u + 8 <= 14 + total <= f.len()
            &&& 8 <= len <= 14 + total - u
            &&& folded(word_sum(f.subrange(14, u))) == 65_535
            &&& !(f[u + 6] == 0 && f[u + 7] == 0) ==> folded(
                word_sum(f.subrange(26, 34)) + 17 + len + word_sum(f.subrange(u, u + len)),
            ) == 65_535
        }),
{
}

/// Nothing that is sound is refused: IPv4 without fragmentation that holds UDP, with lengths that
/// nest and checksums that fold to all ones, is read.
pub proof fn law_sound_datagram_is_read(f: Seq<u8>)
    requires
        f.len() >= 42,
        ({
            let u = 14 + 4 * (f[14] % 16);
            let total = 256 * f[16] + f[17];
            let len = 256 * f[u + 4] + f[u + 5];
            &&& f[12] == 8 && f[13] == 0 && f[14] / 16 == 4 && f[14] % 16 >= 5
            &&& f[23] == 17
            &&& f[20] % 64 == 0 && f[21] == 0
            &&& u + 8 <= 14 + total <= f.len()
            &&& 8 <= len <= 14 + total - u
            &&& folded(word_sum(f.subrange(14, u))) == 65_535
            &&& folded(
                word_sum(f.subrange(26, 34)) + 17 + len + word_sum(f.subrange(u, u + len)),
            ) == 65_535 || (f[u + 6] == 0 && f[u + 7] == 0)
        }),
    ensures
        has_udp_datagram(f),
{
}

} // verus!
