//! The set of devices that may ask for a signature.
//!
//! Every identifier is kept in its normal form, trimmed and in upper case,
//! so a lookup is insensitive to case and to surrounding whitespace.

use vstd::prelude::*;
use vstd::hash_set::StringHashSet;
use crate::error::ConfigError;
use crate::text::{
    chars_of, piece_views, split_chars, split_on, to_uppercase, trim, trim_chars, trimmed,
    uppercased,
};

verus! {

/// The normal form of a device identifier: trimmed, then in upper case.
pub open spec fn normalized(udid: Seq<char>) -> Seq<char> {
    uppercased(trimmed(udid))
}

/// The identifiers that a comma-separated list names: the normal form of
/// each piece, but for the pieces whose normal form is empty.
pub open spec fn listed_devices(list: Seq<char>) -> Set<Seq<char>> {
    Set::new(
        |udid: Seq<char>|
            udid.len() > 0 && exists|i: int|
                0 <= i < split_on(list, ',').len() && udid == normalized(
                    #[trigger] split_on(list, ',')[i],
                ),
    )
}

/// Brings a device identifier into its normal form.
pub fn normalize_udid(udid: &str) -> (normal: String)
    ensures
        normal@ == normalized(udid@),
{
    let core = trim(udid);
    to_uppercase(core.as_str())
}

/// The authorized device identifiers, each in normal form.
pub struct DeviceAllowlist {
    devices: StringHashSet,
}

impl View for DeviceAllowlist {
    type V = Set<Seq<char>>;

    closed spec fn view(&self) -> Set<Seq<char>> {
        self.devices@
    }
}

impl DeviceAllowlist {
    /// An allow-list names at least one device, and each entry is the
    /// non-empty normal form of some identifier.
    pub open spec fn wf(&self) -> bool {
        &&& !self@.is_empty()
        &&& forall|udid: Seq<char>| #[trigger]
            self@.contains(udid) ==> udid.len() > 0 && exists|raw: Seq<char>|
                udid == #[trigger] normalized(raw)
    }

    /// Reads a comma-separated list of device identifiers. Fails exactly
    /// when the list names no device.
    pub fn parse(list: &str) -> (parsed: Result<DeviceAllowlist, ConfigError>)
        ensures
            match parsed {
                Ok(allowlist) => {
                    &&& allowlist@ == listed_devices(list@)
                    &&& allowlist.wf()
                },
                Err(e) => {
                    &&& e == ConfigError::NoValidUdids
                    &&& listed_devices(list@).is_empty()
                },
            },
    {
        let chars = chars_of(list);
        let pieces = split_chars(&chars, ',');
        let mut devices = StringHashSet::new();
        let mut k: usize = 0;
        while k < pieces.len()
            invariant
                k <= pieces.len(),
                piece_views(pieces@) == split_on(list@, ','),
                forall|udid: Seq<char>| #[trigger]
                    devices@.contains(udid) <==> udid.len() > 0 && exists|i: int|
                        0 <= i < k && udid == normalized(#[trigger] split_on(list@, ',')[i]),
            decreases pieces.len() - k,
        {
            let core = trim_chars(&pieces[k]);
            let udid = to_uppercase(core.as_str());
            assert(piece_views(pieces@)[k as int] == pieces@[k as int]@);
            assert(udid@ == normalized(split_on(list@, ',')[k as int]));
            if udid.unicode_len() > 0 {
                devices.insert(udid);
            }
            k = k + 1;
        }
        assert(piece_views(pieces@).len() == pieces.len());
        assert(devices@ =~= listed_devices(list@));
        if devices.is_empty() {
            Err(ConfigError::NoValidUdids)
        } else {
            Ok(DeviceAllowlist { devices })
        }
    }

    /// Whether the device may ask for a signature. The identifier is
    /// compared in its normal form, so neither its case nor whitespace
    /// around it matters.
    pub fn is_authorized(&self, udid: &str) -> (allowed: bool)
        ensures
            allowed == self@.contains(normalized(udid@)),
    {
        let normal = normalize_udid(udid);
        self.devices.contains(normal.as_str())
    }

    /// Whether an identifier that is already in normal form is listed.
    pub fn lists(&self, normal_udid: &str) -> (listed: bool)
        ensures
            listed == self@.contains(normal_udid@),
    {
        self.devices.contains(normal_udid)
    }
}

} // verus!
