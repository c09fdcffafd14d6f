use crate::Uid;
use vstd::prelude::*;

verus! {

/// Card version information, as returned by the GetVersion command.
#[derive(Copy, Clone, Debug, PartialEq, Eq)]
pub struct VersionInfo {
    /// Hardware Version Information
    pub hardware: DetailedVersionInfo,
    /// Software Version Information
    pub software: DetailedVersionInfo,
    /// Card UID. This may not be the real one; authenticate and ask for the
    /// real UID to be sure.
    pub uid: Uid,
    /// Batch Number
    pub production_batch_number: [u8; 5],
    /// Calendar week this was made
    pub production_calendar_week: u8,
    /// Year this device was manufactured.
    pub production_year: u8,
}

/// Hardware or software version details.
#[derive(Copy, Clone, Debug, PartialEq, Eq, Structural)]
pub struct DetailedVersionInfo {
    /// Vendor ID field. 0x04 for NXP.
    pub vendor_id: u8,
    /// Type
    pub type_: u8,
    /// Sub-type
    pub sub_type: u8,
    /// Major version of the hardware/software
    pub major_version: u8,
    /// Minor version of the hardware/software
    pub minor_version: u8,
    /// Storage size (0x18 for 4k)
    pub storage_size: u8,
    /// Protocol type
    pub protocol_type: u8,
}

impl DetailedVersionInfo {
    /// The seven bytes of these details, in wire order.
    pub open spec fn spec_bytes(self) -> Seq<u8> {
        seq![self.vendor_id, self.type_, self.sub_type, self.major_version,
            self.minor_version, self.storage_size, self.protocol_type]
    }

    /// Parse [DetailedVersionInfo] from a fixed-sized array: each byte, in
    /// order, is one field.
    pub fn parse(v: &[u8; 7]) -> (r: Self)
        ensures
            r.spec_bytes() == v@,
    {
        let r = DetailedVersionInfo {
            vendor_id: v[0],
            type_: v[1],
            sub_type: v[2],
            major_version: v[3],
            minor_version: v[4],
            storage_size: v[5],
            protocol_type: v[6],
        };
        assert(r.spec_bytes() =~= v@);
        r
    }
}

impl VersionInfo {
    /// The 28 bytes of this version information, in wire order.
    pub open spec fn spec_bytes(self) -> Seq<u8> {
        self.hardware.spec_bytes() + self.software.spec_bytes() + self.uid@
            + self.production_batch_number@ + seq![self.production_calendar_week, self.production_year]
    }

    /// Parse [VersionInfo] from a fixed-sized array: hardware details
    /// (bytes 0..7), software details (7..14), UID (14..21), batch number
    /// (21..26), calendar week (26) and year (27).
    pub fn parse(v: &[u8; 28]) -> (r: Self)
        ensures
            r.spec_bytes() == v@,
    {
        let hw: [u8; 7] = [v[0], v[1], v[2], v[3], v[4], v[5], v[6]];
        let sw: [u8; 7] = [v[7], v[8], v[9], v[10], v[11], v[12], v[13]];
        let uid: [u8; 7] = [v[14], v[15], v[16], v[17], v[18], v[19], v[20]];
        let batch: [u8; 5] = [v[21], v[22], v[23], v[24], v[25]];
        let hardware = DetailedVersionInfo::parse(&hw);
        let software = DetailedVersionInfo::parse(&sw);
        let r = VersionInfo {
            hardware,
            software,
            uid,
            production_batch_number: batch,
            production_calendar_week: v[26],
            production_year: v[27],
        };
        assert(r.spec_bytes() =~= v@);
        r
    }
}

/// Where each field of a seven-byte version block sits: details read from
/// the bytes `v` (as [DetailedVersionInfo::parse] reads them) have the
/// vendor id at byte 0, the type at 1, the sub-type at 2, the major version
/// at 3, the minor version at 4, the storage size at 5 and the protocol
/// type at 6.
pub proof fn lemma_detailed_version_fields(d: DetailedVersionInfo, v: Seq<u8>)
    requires
        d.spec_bytes() == v,
    ensures
        v.len() == 7,
        d.vendor_id == v[0],
        d.type_ == v[1],
        d.sub_type == v[2],
        d.major_version == v[3],
        d.minor_version == v[4],
        d.storage_size == v[5],
        d.protocol_type == v[6],
{
}

/// Where each field of the 28-byte GetVersion reply sits: version
/// information read from the bytes `v` (as [VersionInfo::parse] reads them)
/// has the hardware block at bytes 0 to 6 (vendor 0, type 1, sub-type 2,
/// major 3, minor 4, storage size 5, protocol 6), the software block at 7
/// to 13 in the same order, the UID at 14 to 20, the batch number at 21 to
/// 25, the calendar week at 26 and the year at 27.
pub proof fn lemma_version_info_fields(info: VersionInfo, v: Seq<u8>)
    requires
        info.spec_bytes() == v,
    ensures
        v.len() == 28,
        info.hardware.vendor_id == v[0],
        info.hardware.type_ == v[1],
        info.hardware.sub_type == v[2],
        info.hardware.major_version == v[3],
        info.hardware.minor_version == v[4],
        info.hardware.storage_size == v[5],
        info.hardware.protocol_type == v[6],
        info.software.vendor_id == v[7],
        info.software.type_ == v[8],
        info.software.sub_type == v[9],
        info.software.major_version == v[10],
        info.software.minor_version == v[11],
        info.software.storage_size == v[12],
        info.software.protocol_type == v[13],
        info.uid@ == v.subrange(14, 21),
        info.production_batch_number@ == v.subrange(21, 26),
        info.production_calendar_week == v[26],
        info.production_year == v[27],
{
    let hw = info.hardware.spec_bytes();
    let sw = info.software.spec_bytes();
    assert(v.subrange(0, 7) =~= hw);
    assert(v.subrange(7, 14) =~= sw);
    assert(v.subrange(14, 21) =~= info.uid@);
    assert(v.subrange(21, 26) =~= info.production_batch_number@);
    lemma_detailed_version_fields(info.hardware, hw);
    lemma_detailed_version_fields(info.software, sw);
    assert(v[4] == hw[4] && v[6] == hw[6] && v[11] == sw[4] && v[13] == sw[6]);
}

} // verus!
