//! File system types of the game.
use vstd::prelude::*;

verus! {

/// A file opened by the game. Only handled through pointers.
pub struct CFile {}

/// Where the game looks for a file.
#[derive(Clone, Copy, Debug, PartialEq, Eq, Structural)]
pub enum CFileSearchType {
    Unset,
    Standard,
    PackFile,
    VDir,
}

/// The number by which the game stores each value of [`CFileSearchType`].
pub open spec fn cfile_search_type_raw(value: CFileSearchType) -> u32 {
    match value {
            CFileSearchType::Unset => 0xFFFF,
            CFileSearchType::Standard => 0,
            CFileSearchType::PackFile => 1,
            CFileSearchType::VDir => 2,
    }
}

/// The value of [`CFileSearchType`] that the game stores as `raw`, if any.
pub open spec fn cfile_search_type_from_raw(raw: u32) -> Option<CFileSearchType> {
        if raw == 0xFFFF {
            Option::Some(CFileSearchType::Unset)
        } else if raw == 0 {
            Option::Some(CFileSearchType::Standard)
        } else if raw == 1 {
            Option::Some(CFileSearchType::PackFile)
        } else if raw == 2 {
            Option::Some(CFileSearchType::VDir)
        } else {
            Option::None
        }
}

impl CFileSearchType {
    /// The number by which the game stores this value.
    pub fn to_raw(self) -> (raw: u32)
        ensures
            raw == cfile_search_type_raw(self),
    {
        match self {
            CFileSearchType::Unset => 0xFFFF,
            CFileSearchType::Standard => 0,
            CFileSearchType::PackFile => 1,
            CFileSearchType::VDir => 2,
        }
    }

    /// The value that the game stores as `raw`, if any.
    pub fn from_raw(raw: u32) -> (value: Option<CFileSearchType>)
        ensures
            value == cfile_search_type_from_raw(raw),
    {
        if raw == 0xFFFF {
            Option::Some(CFileSearchType::Unset)
        } else if raw == 0 {
            Option::Some(CFileSearchType::Standard)
        } else if raw == 1 {
            Option::Some(CFileSearchType::PackFile)
        } else if raw == 2 {
            Option::Some(CFileSearchType::VDir)
        } else {
            Option::None
        }
    }
}

/// Reading back the number stored for a value gives the value, and the only
/// numbers that read as a value are the numbers of values.
pub proof fn lemma_cfile_search_type_raw_round_trip(value: CFileSearchType, raw: u32)
    ensures
        cfile_search_type_from_raw(cfile_search_type_raw(value)) == Option::Some(value),
        cfile_search_type_from_raw(raw) matches Option::Some(v) ==> cfile_search_type_raw(v) == raw,
{
}

/// The platform a game file was built for.
#[derive(Clone, Copy, Debug, PartialEq, Eq, Structural)]
pub enum VLibPlatform {
    Unset,
    Pc,
    Ps2,
    Ps3,
    Xbox,
    Xbox2,
    Xbox1,
    Ps4,
    Switch,
}

/// The number by which the game stores each value of [`VLibPlatform`].
pub open spec fn vlib_platform_raw(value: VLibPlatform) -> u32 {
    match value {
            VLibPlatform::Unset => 0xFFFF,
            VLibPlatform::Pc => 0,
            VLibPlatform::Ps2 => 1,
            VLibPlatform::Ps3 => 2,
            VLibPlatform::Xbox => 3,
            VLibPlatform::Xbox2 => 4,
            VLibPlatform::Xbox1 => 5,
            VLibPlatform::Ps4 => 6,
            VLibPlatform::Switch => 7,
    }
}

/// The value of [`VLibPlatform`] that the game stores as `raw`, if any.
pub open spec fn vlib_platform_from_raw(raw: u32) -> Option<VLibPlatform> {
        if raw == 0xFFFF {
            Option::Some(VLibPlatform::Unset)
        } else if raw == 0 {
            Option::Some(VLibPlatform::Pc)
        } else if raw == 1 {
            Option::Some(VLibPlatform::Ps2)
        } else if raw == 2 {
            Option::Some(VLibPlatform::Ps3)
        } else if raw == 3 {
            Option::Some(VLibPlatform::Xbox)
        } else if raw == 4 {
            Option::Some(VLibPlatform::Xbox2)
        } else if raw == 5 {
            Option::Some(VLibPlatform::Xbox1)
        } else if raw == 6 {
            Option::Some(VLibPlatform::Ps4)
        } else if raw == 7 {
            Option::Some(VLibPlatform::Switch)
        } else {
            Option::None
        }
}

impl VLibPlatform {
    /// The number by which the game stores this value.
    pub fn to_raw(self) -> (raw: u32)
        ensures
            raw == vlib_platform_raw(self),
    {
        match self {
            VLibPlatform::Unset => 0xFFFF,
            VLibPlatform::Pc => 0,
            VLibPlatform::Ps2 => 1,
            VLibPlatform::Ps3 => 2,
            VLibPlatform::Xbox => 3,
            VLibPlatform::Xbox2 => 4,
            VLibPlatform::Xbox1 => 5,
            VLibPlatform::Ps4 => 6,
            VLibPlatform::Switch => 7,
        }
    }

    /// The value that the game stores as `raw`, if any.
    pub fn from_raw(raw: u32) -> (value: Option<VLibPlatform>)
        ensures
            value == vlib_platform_from_raw(raw),
    {
        if raw == 0xFFFF {
            Option::Some(VLibPlatform::Unset)
        } else if raw == 0 {
            Option::Some(VLibPlatform::Pc)
        } else if raw == 1 {
            Option::Some(VLibPlatform::Ps2)
        } else if raw == 2 {
            Option::Some(VLibPlatform::Ps3)
        } else if raw == 3 {
            Option::Some(VLibPlatform::Xbox)
        } else if raw == 4 {
            Option::Some(VLibPlatform::Xbox2)
        } else if raw == 5 {
            Option::Some(VLibPlatform::Xbox1)
        } else if raw == 6 {
            Option::Some(VLibPlatform::Ps4)
        } else if raw == 7 {
            Option::Some(VLibPlatform::Switch)
        } else {
            Option::None
        }
    }
}

/// Reading back the number stored for a value gives the value, and the only
/// numbers that read as a value are the numbers of values.
pub proof fn lemma_vlib_platform_raw_round_trip(value: VLibPlatform, raw: u32)
    ensures
        vlib_platform_from_raw(vlib_platform_raw(value)) == Option::Some(value),
        vlib_platform_from_raw(raw) matches Option::Some(v) ==> vlib_platform_raw(v) == raw,
{
}

/// The medium a game file is read from.
#[derive(Clone, Copy, Debug, PartialEq, Eq, Structural)]
pub enum CFileIOMediaType {
    Unset,
    Hdd,
    Dvd,
    Host,
    Memory,
}

/// The number by which the game stores each value of [`CFileIOMediaType`].
pub open spec fn cfile_io_media_type_raw(value: CFileIOMediaType) -> u32 {
    match value {
            CFileIOMediaType::Unset => 0xFFFF,
            CFileIOMediaType::Hdd => 0,
            CFileIOMediaType::Dvd => 1,
            CFileIOMediaType::Host => 2,
            CFileIOMediaType::Memory => 3,
    }
}

/// The value of [`CFileIOMediaType`] that the game stores as `raw`, if any.
pub open spec fn cfile_io_media_type_from_raw(raw: u32) -> Option<CFileIOMediaType> {
        if raw == 0xFFFF {
            Option::Some(CFileIOMediaType::Unset)
        } else if raw == 0 {
            Option::Some(CFileIOMediaType::Hdd)
        } else if raw == 1 {
            Option::Some(CFileIOMediaType::Dvd)
        } else if raw == 2 {
            Option::Some(CFileIOMediaType::Host)
        } else if raw == 3 {
            Option::Some(CFileIOMediaType::Memory)
        } else {
            Option::None
        }
}

impl CFileIOMediaType {
    /// The number by which the game stores this value.
    pub fn to_raw(self) -> (raw: u32)
        ensures
            raw == cfile_io_media_type_raw(self),
    {
        match self {
            CFileIOMediaType::Unset => 0xFFFF,
            CFileIOMediaType::Hdd => 0,
            CFileIOMediaType::Dvd => 1,
            CFileIOMediaType::Host => 2,
            CFileIOMediaType::Memory => 3,
        }
    }

    /// The value that the game stores as `raw`, if any.
    pub fn from_raw(raw: u32) -> (value: Option<CFileIOMediaType>)
        ensures
            value == cfile_io_media_type_from_raw(raw),
    {
        if raw == 0xFFFF {
            Option::Some(CFileIOMediaType::Unset)
        } else if raw == 0 {
            Option::Some(CFileIOMediaType::Hdd)
        } else if raw == 1 {
            Option::Some(CFileIOMediaType::Dvd)
        } else if raw == 2 {
            Option::Some(CFileIOMediaType::Host)
        } else if raw == 3 {
            Option::Some(CFileIOMediaType::Memory)
        } else {
            Option::None
        }
    }
}

/// Reading back the number stored for a value gives the value, and the only
/// numbers that read as a value are the numbers of values.
pub proof fn lemma_cfile_io_media_type_raw_round_trip(value: CFileIOMediaType, raw: u32)
    ensures
        cfile_io_media_type_from_raw(cfile_io_media_type_raw(value)) == Option::Some(value),
        cfile_io_media_type_from_raw(raw) matches Option::Some(v) ==> cfile_io_media_type_raw(v) == raw,
{
}

/// The game's numbers of the search types: Unset is 0xFFFF, Standard 0,
/// PackFile 1, VDir 2, and reading them back
/// gives the same values.
pub proof fn lemma_cfile_search_type_numbers()
    ensures
        cfile_search_type_raw(CFileSearchType::Unset) == 0xFFFF,
        cfile_search_type_raw(CFileSearchType::Standard) == 0,
        cfile_search_type_raw(CFileSearchType::PackFile) == 1,
        cfile_search_type_raw(CFileSearchType::VDir) == 2,
        cfile_search_type_from_raw(0xFFFF) == Option::Some(CFileSearchType::Unset),
        cfile_search_type_from_raw(0) == Option::Some(CFileSearchType::Standard),
        cfile_search_type_from_raw(1) == Option::Some(CFileSearchType::PackFile),
        cfile_search_type_from_raw(2) == Option::Some(CFileSearchType::VDir),
{
}

/// The game's numbers of the platforms: Unset is 0xFFFF, Pc 0, Ps2 1, Ps3 2,
/// Xbox 3, Xbox2 4, Xbox1 5, Ps4 6, Switch 7, and reading them back
/// gives the same values.
pub proof fn lemma_vlib_platform_numbers()
    ensures
        vlib_platform_raw(VLibPlatform::Unset) == 0xFFFF,
        vlib_platform_raw(VLibPlatform::Pc) == 0,
        vlib_platform_raw(VLibPlatform::Ps2) == 1,
        vlib_platform_raw(VLibPlatform::Ps3) == 2,
        vlib_platform_raw(VLibPlatform::Xbox) == 3,
        vlib_platform_raw(VLibPlatform::Xbox2) == 4,
        vlib_platform_raw(VLibPlatform::Xbox1) == 5,
        vlib_platform_raw(VLibPlatform::Ps4) == 6,
        vlib_platform_raw(VLibPlatform::Switch) == 7,
        vlib_platform_from_raw(0xFFFF) == Option::Some(VLibPlatform::Unset),
        vlib_platform_from_raw(0) == Option::Some(VLibPlatform::Pc),
        vlib_platform_from_raw(1) == Option::Some(VLibPlatform::Ps2),
        vlib_platform_from_raw(2) == Option::Some(VLibPlatform::Ps3),
        vlib_platform_from_raw(3) == Option::Some(VLibPlatform::Xbox),
        vlib_platform_from_raw(4) == Option::Some(VLibPlatform::Xbox2),
        vlib_platform_from_raw(5) == Option::Some(VLibPlatform::Xbox1),
        vlib_platform_from_raw(6) == Option::Some(VLibPlatform::Ps4),
        vlib_platform_from_raw(7) == Option::Some(VLibPlatform::Switch),
{
}

/// The game's numbers of the media types: Unset is 0xFFFF, Hdd 0, Dvd 1,
/// Host 2, Memory 3, and reading them back
/// gives the same values.
pub proof fn lemma_cfile_io_media_type_numbers()
    ensures
        cfile_io_media_type_raw(CFileIOMediaType::Unset) == 0xFFFF,
        cfile_io_media_type_raw(CFileIOMediaType::Hdd) == 0,
        cfile_io_media_type_raw(CFileIOMediaType::Dvd) == 1,
        cfile_io_media_type_raw(CFileIOMediaType::Host) == 2,
        cfile_io_media_type_raw(CFileIOMediaType::Memory) == 3,
        cfile_io_media_type_from_raw(0xFFFF) == Option::Some(CFileIOMediaType::Unset),
        cfile_io_media_type_from_raw(0) == Option::Some(CFileIOMediaType::Hdd),
        cfile_io_media_type_from_raw(1) == Option::Some(CFileIOMediaType::Dvd),
        cfile_io_media_type_from_raw(2) == Option::Some(CFileIOMediaType::Host),
        cfile_io_media_type_from_raw(3) == Option::Some(CFileIOMediaType::Memory),
{
}

} // verus!
