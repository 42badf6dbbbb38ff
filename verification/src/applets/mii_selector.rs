//! Mii Selector applet: which Mii slots a request names, and what the applet's
//! answer means.
use vstd::prelude::*;
use vstd::std_specs::convert::FromSpecImpl;
use crate::mii::{Mii, MiiData, decodes};
use crate::utf16::{decode_utf16_lossy, decode_utf16_lossy_spec, is_valid_utf16};
use crate::text::chars_to_string;

verus! {

/// Number of guest Mii slots; as an index it names all of them.
pub const GUEST_MII_SLOTS: u32 = 6;

/// Number of user Mii slots; as an index it names all of them.
pub const USER_MII_SLOTS: u32 = 100;

/// Guest index of a user Mii.
pub const USER_MII_GUEST_INDEX: u32 = 0xFFFF_FFFF;

/// Option: show the cancel button.
pub const OPTION_CANCEL: u32 = 1;
/// Option: make guest Miis selectable.
pub const OPTION_GUESTS: u32 = 2;
/// Option: show the selector on the top screen.
pub const OPTION_TOP: u32 = 4;
/// Option: start on the guest page.
pub const OPTION_GUEST_START: u32 = 8;

/// Index of a Mii on the selector: one slot, or all of them.
#[derive(Debug, Clone, Copy, Eq, PartialEq, Structural)]
pub enum Index {
    /// Specific Mii index.
    Index(u32),
    /// All Miis.
    All,
}

impl From<u32> for Index {
    fn from(v: u32) -> (i: Index) {
        Index::Index(v)
    }
}

impl FromSpecImpl<u32> for Index {
    open spec fn obeys_from_spec() -> bool {
        true
    }

    open spec fn from_spec(v: u32) -> Index {
        Index::Index(v)
    }
}

/// The raw index that names `index` among `slots` slots: the slot itself, or
/// the number of slots for all of them.
pub open spec fn raw_index(index: Index, slots: u32) -> u32 {
    match index {
        Index::Index(i) => i,
        Index::All => slots,
    }
}

/// The type of a Mii.
#[derive(Debug, Clone, Eq, PartialEq)]
pub enum MiiType {
    /// Guest Mii.
    Guest {
        /// Guest Mii index.
        index: u32,
        /// Guest Mii name.
        name: String,
    },
    /// User-made Mii.
    User,
}

/// Options of the Mii selector.
#[derive(Debug, Clone, Copy, Eq, PartialEq, Structural)]
pub struct Options {
    bits: u32,
}

impl Options {
    /// The raw bits of the options.
    pub closed spec fn bits_spec(self) -> u32 {
        self.bits
    }

    /// The raw bits of the options.
    pub fn bits(&self) -> (b: u32)
        ensures
            b == self.bits_spec(),
    {
        self.bits
    }

    /// The options among `bits` that exist; the other bits are dropped.
    pub fn from_bits_truncate(bits: u32) -> (o: Options)
        ensures
            o.bits_spec() == bits & 0xF,
    {
        Options { bits: bits & 0xF }
    }
}

/// The configuration of a Mii selector launch that the library sets.
#[derive(Clone, Debug)]
pub struct MiiSelector {
    initial_index: u32,
}

impl MiiSelector {
    /// The index of the Mii selected when the applet opens.
    pub closed spec fn initial_index_spec(&self) -> u32 {
        self.initial_index
    }

    /// A configuration starting on the first Mii.
    pub fn new() -> (s: MiiSelector)
        ensures
            s.initial_index_spec() == 0,
    {
        MiiSelector { initial_index: 0 }
    }

    /// The index of the Mii selected when the applet opens.
    pub fn initial_index(&self) -> (i: u32)
        ensures
            i == self.initial_index_spec(),
    {
        self.initial_index
    }

    /// Sets the index of the Mii selected when the applet opens (kept modulo
    /// 2^32, as the system stores it).
    pub fn set_initial_index(&mut self, index: usize)
        ensures
            final(self).initial_index_spec() == index as u32,
    {
        self.initial_index = index as u32;
    }

    /// The raw index of a guest Mii request (see [`raw_index`]).
    pub fn guest_mii_index(mii_index: Index) -> (i: u32)
        ensures
            i == raw_index(mii_index, GUEST_MII_SLOTS),
    {
        match mii_index {
            Index::Index(i) => i,
            Index::All => GUEST_MII_SLOTS,
        }
    }

    /// The raw index of a user Mii request (see [`raw_index`]).
    pub fn user_mii_index(mii_index: Index) -> (i: u32)
        ensures
            i == raw_index(mii_index, USER_MII_SLOTS),
    {
        match mii_index {
            Index::Index(i) => i,
            Index::All => USER_MII_SLOTS,
        }
    }
}

/// What the applet reports after a launch.
#[derive(Clone, Copy, Debug)]
pub struct MiiSelectorReturn {
    /// Whether no Mii was selected (non-zero).
    pub no_mii_selected: u32,
    /// Guest index of the selected Mii, [`USER_MII_GUEST_INDEX`] for a user Mii.
    pub guest_mii_index: u32,
    /// The selected Mii.
    pub mii: MiiData,
    /// Name of the selected guest Mii, as stored.
    pub guest_mii_name: [u16; 12],
}

/// Return value of a successful launch.
#[derive(Clone, Debug)]
pub struct SelectionResult {
    /// Data of the selected Mii.
    pub mii_data: Mii,
    /// Type of the selected Mii.
    pub mii_type: MiiType,
}

/// Error of an unsuccessful launch.
#[derive(Copy, Clone, Debug, Eq, PartialEq, Structural)]
pub enum LaunchError {
    /// The selected Mii's data is corrupt.
    InvalidChecksum,
    /// Either the user cancelled the selection (see [`OPTION_CANCEL`]) or no valid
    /// Miis were available to select.
    NoMiiSelected,
}

/// The stored guest name, its units in reverse order.
pub open spec fn guest_name_units(stored: Seq<u16>) -> Seq<u16> {
    stored.reverse()
}

impl SelectionResult {
    /// The selection that the applet reported: the decoded Mii, and whether it is
    /// a guest (with its index and name, read from its units in reverse order) or
    /// a user Mii. The name is valid UTF-16.
    pub fn from(ret: MiiSelectorReturn) -> (r: SelectionResult)
        requires
            ret.guest_mii_index != USER_MII_GUEST_INDEX ==> is_valid_utf16(guest_name_units(ret.guest_mii_name@)),
        ensures
            decodes(r.mii_data, ret.mii),
            ret.guest_mii_index == USER_MII_GUEST_INDEX ==> r.mii_type == MiiType::User,
            ret.guest_mii_index != USER_MII_GUEST_INDEX ==> (r.mii_type matches MiiType::Guest { index, name } && index
                == ret.guest_mii_index && name@ == decode_utf16_lossy_spec(guest_name_units(ret.guest_mii_name@))),
    {
        let mii_data = Mii::from(ret.mii);
        let mii_type = if ret.guest_mii_index != USER_MII_GUEST_INDEX {
            let mut units: Vec<u16> = Vec::new();
            let mut i: usize = 12;
            while i > 0
                invariant
                    i <= 12,
                    units@ == ret.guest_mii_name@.reverse().take(12 - i),
                decreases i,
            {
                i = i - 1;
                units.push(ret.guest_mii_name[i]);
                assert(ret.guest_mii_name@.reverse().take(12 - i) == ret.guest_mii_name@.reverse().take(12 - i - 1).push(
                    ret.guest_mii_name@[i as int],
                ));
            }
            assert(units@ == ret.guest_mii_name@.reverse());
            let chars = decode_utf16_lossy(units.as_slice());
            MiiType::Guest { index: ret.guest_mii_index, name: chars_to_string(chars.as_slice()) }
        } else {
            MiiType::User
        };
        SelectionResult { mii_data, mii_type }
    }
}

/// What a launch returns: [`LaunchError::NoMiiSelected`] when the applet says no
/// Mii was selected, [`LaunchError::InvalidChecksum`] when the selected Mii's
/// checksum is wrong (`checksum_valid` tells), the selection otherwise.
pub fn launch_outcome(ret: MiiSelectorReturn, checksum_valid: bool) -> (r: Result<SelectionResult, LaunchError>)
    requires
        ret.guest_mii_index != USER_MII_GUEST_INDEX ==> is_valid_utf16(guest_name_units(ret.guest_mii_name@)),
    ensures
        ret.no_mii_selected != 0 ==> r matches Err(LaunchError::NoMiiSelected),
        ret.no_mii_selected == 0 && !checksum_valid ==> r matches Err(LaunchError::InvalidChecksum),
        ret.no_mii_selected == 0 && checksum_valid ==> (r matches Ok(s) && decodes(s.mii_data, ret.mii)
            && (ret.guest_mii_index == USER_MII_GUEST_INDEX <==> s.mii_type == MiiType::User)),
{
    if ret.no_mii_selected != 0 {
        return Err(LaunchError::NoMiiSelected);
    }
    if checksum_valid {
        Ok(SelectionResult::from(ret))
    } else {
        Err(LaunchError::InvalidChecksum)
    }
}

} // verus!
