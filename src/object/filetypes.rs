//! File types that the native layer can handle, with their native codes.
use vstd::prelude::*;

verus! {

/// File types that the native layer can handle; devices may support fewer.
#[derive(Debug, Clone, Copy, PartialEq, Eq, Structural)]
pub enum Filetype {
    Folder,
    Wav,
    Mp3,
    Wma,
    Ogg,
    Audible,
    Mp4,
    UndefAudio,
    Wmv,
    Avi,
    Mpeg,
    Asf,
    Qt,
    UndefVideo,
    Jpeg,
    Jfif,
    Tiff,
    Bmp,
    Gif,
    Pict,
    Png,
    VCalendar1,
    VCalendar2,
    VCard2,
    VCard3,
    WindowsImageFormat,
    WinExec,
    Text,
    Html,
    Firmware,
    Aac,
    MediaCard,
    Flac,
    Mp2,
    M4a,
    Doc,
    Xml,
    Xls,
    Ppt,
    Mht,
    Jp2,
    Jpx,
    Album,
    Playlist,
    Unknown,
}

/// The native code of a file type: its position in the native list.
pub open spec fn filetype_code(t: Filetype) -> u32 {
    match t {
        Filetype::Folder => 0,
        Filetype::Wav => 1,
        Filetype::Mp3 => 2,
        Filetype::Wma => 3,
        Filetype::Ogg => 4,
        Filetype::Audible => 5,
        Filetype::Mp4 => 6,
        Filetype::UndefAudio => 7,
        Filetype::Wmv => 8,
        Filetype::Avi => 9,
        Filetype::Mpeg => 10,
        Filetype::Asf => 11,
        Filetype::Qt => 12,
        Filetype::UndefVideo => 13,
        Filetype::Jpeg => 14,
        Filetype::Jfif => 15,
        Filetype::Tiff => 16,
        Filetype::Bmp => 17,
        Filetype::Gif => 18,
        Filetype::Pict => 19,
        Filetype::Png => 20,
        Filetype::VCalendar1 => 21,
        Filetype::VCalendar2 => 22,
        Filetype::VCard2 => 23,
        Filetype::VCard3 => 24,
        Filetype::WindowsImageFormat => 25,
        Filetype::WinExec => 26,
        Filetype::Text => 27,
        Filetype::Html => 28,
        Filetype::Firmware => 29,
        Filetype::Aac => 30,
        Filetype::MediaCard => 31,
        Filetype::Flac => 32,
        Filetype::Mp2 => 33,
        Filetype::M4a => 34,
        Filetype::Doc => 35,
        Filetype::Xml => 36,
        Filetype::Xls => 37,
        Filetype::Ppt => 38,
        Filetype::Mht => 39,
        Filetype::Jp2 => 40,
        Filetype::Jpx => 41,
        Filetype::Album => 42,
        Filetype::Playlist => 43,
        Filetype::Unknown => 44,
    }
}

/// The file type that a native code stands for, if any.
pub open spec fn filetype_of_code(code: u32) -> Option<Filetype> {
    match code {
        0 => Some(Filetype::Folder),
        1 => Some(Filetype::Wav),
        2 => Some(Filetype::Mp3),
        3 => Some(Filetype::Wma),
        4 => Some(Filetype::Ogg),
        5 => Some(Filetype::Audible),
        6 => Some(Filetype::Mp4),
        7 => Some(Filetype::UndefAudio),
        8 => Some(Filetype::Wmv),
        9 => Some(Filetype::Avi),
        10 => Some(Filetype::Mpeg),
        11 => Some(Filetype::Asf),
        12 => Some(Filetype::Qt),
        13 => Some(Filetype::UndefVideo),
        14 => Some(Filetype::Jpeg),
        15 => Some(Filetype::Jfif),
        16 => Some(Filetype::Tiff),
        17 => Some(Filetype::Bmp),
        18 => Some(Filetype::Gif),
        19 => Some(Filetype::Pict),
        20 => Some(Filetype::Png),
        21 => Some(Filetype::VCalendar1),
        22 => Some(Filetype::VCalendar2),
        23 => Some(Filetype::VCard2),
        24 => Some(Filetype::VCard3),
        25 => Some(Filetype::WindowsImageFormat),
        26 => Some(Filetype::WinExec),
        27 => Some(Filetype::Text),
        28 => Some(Filetype::Html),
        29 => Some(Filetype::Firmware),
        30 => Some(Filetype::Aac),
        31 => Some(Filetype::MediaCard),
        32 => Some(Filetype::Flac),
        33 => Some(Filetype::Mp2),
        34 => Some(Filetype::M4a),
        35 => Some(Filetype::Doc),
        36 => Some(Filetype::Xml),
        37 => Some(Filetype::Xls),
        38 => Some(Filetype::Ppt),
        39 => Some(Filetype::Mht),
        40 => Some(Filetype::Jp2),
        41 => Some(Filetype::Jpx),
        42 => Some(Filetype::Album),
        43 => Some(Filetype::Playlist),
        44 => Some(Filetype::Unknown),
        _ => None,
    }
}

impl Filetype {
    /// The native code of this file type.
    pub fn to_u32(&self) -> (r: u32)
        ensures
            r == filetype_code(*self),
            filetype_of_code(r) == Some(*self),
    {
        match self {
            Filetype::Folder => 0,
            Filetype::Wav => 1,
            Filetype::Mp3 => 2,
            Filetype::Wma => 3,
            Filetype::Ogg => 4,
            Filetype::Audible => 5,
            Filetype::Mp4 => 6,
            Filetype::UndefAudio => 7,
            Filetype::Wmv => 8,
            Filetype::Avi => 9,
            Filetype::Mpeg => 10,
            Filetype::Asf => 11,
            Filetype::Qt => 12,
            Filetype::UndefVideo => 13,
            Filetype::Jpeg => 14,
            Filetype::Jfif => 15,
            Filetype::Tiff => 16,
            Filetype::Bmp => 17,
            Filetype::Gif => 18,
            Filetype::Pict => 19,
            Filetype::Png => 20,
            Filetype::VCalendar1 => 21,
            Filetype::VCalendar2 => 22,
            Filetype::VCard2 => 23,
            Filetype::VCard3 => 24,
            Filetype::WindowsImageFormat => 25,
            Filetype::WinExec => 26,
            Filetype::Text => 27,
            Filetype::Html => 28,
            Filetype::Firmware => 29,
            Filetype::Aac => 30,
            Filetype::MediaCard => 31,
            Filetype::Flac => 32,
            Filetype::Mp2 => 33,
            Filetype::M4a => 34,
            Filetype::Doc => 35,
            Filetype::Xml => 36,
            Filetype::Xls => 37,
            Filetype::Ppt => 38,
            Filetype::Mht => 39,
            Filetype::Jp2 => 40,
            Filetype::Jpx => 41,
            Filetype::Album => 42,
            Filetype::Playlist => 43,
            Filetype::Unknown => 44,
        }
    }

    /// The file type of a native code; `None` for a code outside the native list.
    pub fn from_u32(code: u32) -> (r: Option<Filetype>)
        ensures
            r == filetype_of_code(code),
            match r {
                Some(t) => filetype_code(t) == code,
                None => code >= 45,
            },
    {
        match code {
            0 => Some(Filetype::Folder),
            1 => Some(Filetype::Wav),
            2 => Some(Filetype::Mp3),
            3 => Some(Filetype::Wma),
            4 => Some(Filetype::Ogg),
            5 => Some(Filetype::Audible),
            6 => Some(Filetype::Mp4),
            7 => Some(Filetype::UndefAudio),
            8 => Some(Filetype::Wmv),
            9 => Some(Filetype::Avi),
            10 => Some(Filetype::Mpeg),
            11 => Some(Filetype::Asf),
            12 => Some(Filetype::Qt),
            13 => Some(Filetype::UndefVideo),
            14 => Some(Filetype::Jpeg),
            15 => Some(Filetype::Jfif),
            16 => Some(Filetype::Tiff),
            17 => Some(Filetype::Bmp),
            18 => Some(Filetype::Gif),
            19 => Some(Filetype::Pict),
            20 => Some(Filetype::Png),
            21 => Some(Filetype::VCalendar1),
            22 => Some(Filetype::VCalendar2),
            23 => Some(Filetype::VCard2),
            24 => Some(Filetype::VCard3),
            25 => Some(Filetype::WindowsImageFormat),
            26 => Some(Filetype::WinExec),
            27 => Some(Filetype::Text),
            28 => Some(Filetype::Html),
            29 => Some(Filetype::Firmware),
            30 => Some(Filetype::Aac),
            31 => Some(Filetype::MediaCard),
            32 => Some(Filetype::Flac),
            33 => Some(Filetype::Mp2),
            34 => Some(Filetype::M4a),
            35 => Some(Filetype::Doc),
            36 => Some(Filetype::Xml),
            37 => Some(Filetype::Xls),
            38 => Some(Filetype::Ppt),
            39 => Some(Filetype::Mht),
            40 => Some(Filetype::Jp2),
            41 => Some(Filetype::Jpx),
            42 => Some(Filetype::Album),
            43 => Some(Filetype::Playlist),
            44 => Some(Filetype::Unknown),
            _ => None,
        }
    }
}

} // verus!
