//! Application Manager service: the installed titles and their information.
use vstd::prelude::*;
use crate::error::{Error, ResultCode, is_failure_code};
use crate::services::fs::MediaType;

verus! {

/// Bytes of a product code.
pub const PRODUCT_CODE_LEN: usize = 16;

/// The characters of a byte string decoded as UTF-8, each invalid sequence
/// replaced by U+FFFD (what `String::from_utf8_lossy` gives).
pub uninterp spec fn utf8_lossy(bytes: Seq<u8>) -> Seq<char>;

/// `String::from_utf8_lossy`: a byte string decoded as UTF-8, invalid sequences
/// replaced by U+FFFD; ASCII bytes are their own characters.
#[verifier::external_body]
fn string_from_utf8_lossy(bytes: &[u8]) -> (s: String)
    ensures
        s@ == utf8_lossy(bytes@),
        (forall|i: int| 0 <= i < bytes@.len() ==> #[trigger] bytes@[i] < 0x80) ==> s@ == Seq::new(
            bytes@.len(),
            |i: int| (bytes@[i] as nat) as char,
        ),
{
    String::from_utf8_lossy(bytes).into_owned()
}

/// An installed title, as the system lists it.
#[derive(Clone, Copy, Debug, PartialEq, Eq, Structural)]
pub struct TitleEntry {
    /// The title's ID.
    pub title_id: u64,
    /// The title's size on the media.
    pub size: u64,
    /// The title's version.
    pub version: u16,
}

/// General information about a specific title entry.
#[derive(Clone, Copy, Debug, PartialEq, Eq, Structural)]
pub struct Title {
    id: u64,
    mediatype: MediaType,
    size: u64,
    version: u16,
}

impl Title {
    /// The title's ID, media, size and version.
    pub closed spec fn parts(&self) -> (u64, MediaType, u64, u16) {
        (self.id, self.mediatype, self.size, self.version)
    }

    /// A title of `mediatype`, from its listed entry.
    pub fn from_entry(mediatype: MediaType, entry: TitleEntry) -> (t: Title)
        ensures
            t.parts() == (entry.title_id, mediatype, entry.size, entry.version),
    {
        Title { id: entry.title_id, mediatype, size: entry.size, version: entry.version }
    }

    /// Returns the ID of the title.
    pub fn id(&self) -> (i: u64)
        ensures
            i == self.parts().0,
    {
        self.id
    }

    /// Returns the media the title is installed on.
    pub fn media_type(&self) -> (m: MediaType)
        ensures
            m == self.parts().1,
    {
        self.mediatype
    }

    /// Returns the size of the title in bytes.
    pub fn size(&self) -> (s: u64)
        ensures
            s == self.parts().2,
    {
        self.size
    }

    /// Returns the installed version of the title.
    pub fn version(&self) -> (v: u16)
        ensures
            v == self.parts().3,
    {
        self.version
    }

    /// The title's product code, from the bytes the system reports (nul padding
    /// included), decoded as UTF-8 with invalid sequences replaced.
    pub fn product_code(&self, code: &[u8; 16]) -> (s: String)
        ensures
            s@ == utf8_lossy(code@),
            (forall|i: int| 0 <= i < 16 ==> #[trigger] code@[i] < 0x80) ==> s@ == Seq::new(16, |i: int| (code@[i] as nat) as char),
    {
        string_from_utf8_lossy(code.as_slice())
    }
}

/// Handle to the Application Manager service.
pub struct Am {
    _private: (),
}

impl Am {
    /// The handle, once the service initialization reported `result`.
    pub fn new(result: i32) -> (r: Result<Am, Error>)
        ensures
            is_failure_code(result) ==> (r matches Err(Error::Os(c)) && c == result),
            !is_failure_code(result) ==> r is Ok,
    {
        ResultCode(result).branch()?;
        Ok(Am { _private: () })
    }

    /// The titles of `mediatype`, from their listed entries.
    pub fn titles_from_entries(mediatype: MediaType, entries: Vec<TitleEntry>) -> (v: Vec<Title>)
        ensures
            v@.len() == entries@.len(),
            forall|i: int| 0 <= i < v@.len() ==> (#[trigger] v@[i]).parts() == (
                entries@[i].title_id,
                mediatype,
                entries@[i].size,
                entries@[i].version,
            ),
    {
        let mut v: Vec<Title> = Vec::new();
        let mut i: usize = 0;
        while i < entries.len()
            invariant
                i <= entries@.len(),
                v@.len() == i,
                forall|k: int| 0 <= k < i ==> (#[trigger] v@[k]).parts() == (
                    entries@[k].title_id,
                    mediatype,
                    entries@[k].size,
                    entries@[k].version,
                ),
            decreases entries@.len() - i,
        {
            v.push(Title::from_entry(mediatype, entries[i]));
            i = i + 1;
        }
        v
    }

    /// Returns the list of titles installed on `mediatype`: their number is read
    /// with `count`, their IDs with `list` (given that number), and their entries
    /// with `info` (given the IDs); the first failure is returned. The system
    /// lists as many IDs as asked, and one entry per ID, so there are as many
    /// titles as the count read.
    pub fn title_list<C, L, I>(&self, mediatype: MediaType, count: C, list: L, info: I) -> (r: Result<Vec<Title>, Error>) where
        C: FnOnce(MediaType) -> Result<u32, Error>,
        L: FnOnce(MediaType, u32) -> Result<Vec<u64>, Error>,
        I: FnOnce(MediaType, Vec<u64>) -> Result<Vec<TitleEntry>, Error>,
        requires
            call_requires(count, (mediatype,)),
            forall|n: u32| call_requires(list, (mediatype, n)),
            forall|ids: Vec<u64>| call_requires(info, (mediatype, ids)),
            forall|n: u32, ids: Vec<u64>| #[trigger] call_ensures(list, (mediatype, n), Ok::<Vec<u64>, Error>(ids))
                ==> ids@.len() == n,
            forall|ids: Vec<u64>, entries: Vec<TitleEntry>| #[trigger] call_ensures(info, (mediatype, ids), Ok::<Vec<TitleEntry>, Error>(entries))
                ==> entries@.len() == ids@.len(),
        ensures
            r matches Ok(v) ==> exists|n: u32, ids: Vec<u64>, entries: Vec<TitleEntry>|
                #[trigger] call_ensures(count, (mediatype,), Ok::<u32, Error>(n))
                && #[trigger] call_ensures(list, (mediatype, n), Ok::<Vec<u64>, Error>(ids))
                && #[trigger] call_ensures(info, (mediatype, ids), Ok::<Vec<TitleEntry>, Error>(entries))
                && v@.len() == n
                && v@.len() == entries@.len()
                && forall|i: int| 0 <= i < v@.len() ==> (#[trigger] v@[i]).parts() == (
                    entries@[i].title_id,
                    mediatype,
                    entries@[i].size,
                    entries@[i].version,
                ),
            r matches Err(e) ==> {
                ||| call_ensures(count, (mediatype,), Err::<u32, Error>(e))
                ||| exists|n: u32| #[trigger] call_ensures(count, (mediatype,), Ok::<u32, Error>(n))
                    && call_ensures(list, (mediatype, n), Err::<Vec<u64>, Error>(e))
                ||| exists|n: u32, ids: Vec<u64>| #[trigger] call_ensures(count, (mediatype,), Ok::<u32, Error>(n))
                    && #[trigger] call_ensures(list, (mediatype, n), Ok::<Vec<u64>, Error>(ids))
                    && call_ensures(info, (mediatype, ids), Err::<Vec<TitleEntry>, Error>(e))
            },
    {
        let n = count(mediatype)?;
        let ids = list(mediatype, n)?;
        let entries = info(mediatype, ids)?;
        Ok(Am::titles_from_entries(mediatype, entries))
    }
}

} // verus!
