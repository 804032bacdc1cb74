use vstd::prelude::*;

use crate::ascii::text_of;
use crate::ddc::{DisplayInfo, IOPath, BACKLIGHT_MAX};

verus! {

/// The lower-case form of a text, as `str::to_lowercase` gives it.
pub uninterp spec fn lower_of(s: Seq<char>) -> Seq<char>;

/// Relies on `str::to_lowercase`: the result depends on the characters alone.
#[verifier::external_body]
fn lowercase(s: &str) -> (r: String)
    ensures
        r@ == lower_of(s@),
{
    s.to_lowercase()
}

/// `needle` occurs in `hay` as a run of consecutive characters.
pub open spec fn contains(hay: Seq<char>, needle: Seq<char>) -> bool {
    exists|i: int| 0 <= i <= hay.len() - needle.len() && #[trigger] hay.subrange(i, i + needle.len()) == needle
}

/// Relies on `str::contains` with a `&str` pattern: true exactly when the
/// pattern occurs in the text.
#[verifier::external_body]
fn str_contains(hay: &str, needle: &str) -> (r: bool)
    ensures
        r == contains(hay@, needle@),
{
    hay.contains(needle)
}

/// Which monitors a command is about: those on one of `buses`, or those whose
/// connector name holds one of `names`; all of them when both are empty.
pub struct MonitorIdentifier {
    pub buses: Vec<u8>,
    pub names: Vec<String>,
}

/// A display with connector name `connector` (lower case) and I/O path `path`
/// is selected by the buses and the lower-case names given.
pub open spec fn selects(connector: Seq<char>, path: IOPath, buses: Seq<u8>, names: Seq<Seq<char>>) -> bool {
    if names.len() == 0 && buses.len() == 0 {
        true
    } else if names.len() > 0 {
        exists|i: int| 0 <= i < names.len() && contains(connector, #[trigger] names[i])
    } else {
        exists|i: int| 0 <= i < buses.len() && on_bus(path, #[trigger] buses[i])
    }
}

/// The display is reached over the I2C bus of that number.
pub open spec fn on_bus(path: IOPath, bus: u8) -> bool {
    path == IOPath::I2C(bus as i32)
}

/// The texts of a list of strings.
pub open spec fn texts(v: Seq<String>) -> Seq<Seq<char>> {
    v.map_values(|s: String| s@)
}

/// The lower-case texts of a list of strings.
pub open spec fn lower_texts(v: Seq<String>) -> Seq<Seq<char>> {
    v.map_values(|s: String| lower_of(s@))
}

/// Decides the selection from the connector name and the names, all of them
/// already in lower case.
pub fn selects_folded(connector: &str, path: IOPath, buses: &Vec<u8>, names: &Vec<String>) -> (r: bool)
    ensures
        r == selects(connector@, path, buses@, texts(names@)),
{
    assert(texts(names@).len() == names@.len());
    if names.len() == 0 && buses.len() == 0 {
        return true;
    }
    if names.len() > 0 {
        let mut i: usize = 0;
        while i < names.len()
            invariant
                i <= names.len(),
                texts(names@).len() == names@.len(),
                forall|j: int| 0 <= j < i ==> !contains(connector@, #[trigger] texts(names@)[j]),
            decreases names.len() - i,
        {
            if str_contains(connector, names[i].as_str()) {
                assert(contains(connector@, texts(names@)[i as int]));
                return true;
            }
            i = i + 1;
        }
        false
    } else {
        let mut i: usize = 0;
        while i < buses.len()
            invariant
                i <= buses.len(),
                names@.len() == 0,
                texts(names@).len() == 0,
                forall|j: int| 0 <= j < i ==> !on_bus(path, #[trigger] buses@[j]),
            decreases buses.len() - i,
        {
            if path == IOPath::I2C(buses[i] as i32) {
                assert(on_bus(path, buses@[i as int]));
                return true;
            }
            i = i + 1;
        }
        false
    }
}

impl MonitorIdentifier {
    /// Whether the identifier selects the display: names match the connector
    /// name without regard to case, buses match the I2C bus number.
    pub fn selects(&self, info: &DisplayInfo) -> (r: bool)
        ensures
            r == selects(
                lower_of(text_of(info.drm_card_connector@)),
                info.path,
                self.buses@,
                lower_texts(self.names@),
            ),
    {
        let drm = info.drm();
        let connector = lowercase(drm.as_str());
        let mut lowered: Vec<String> = Vec::new();
        let mut i: usize = 0;
        while i < self.names.len()
            invariant
                i <= self.names.len(),
                lowered@.len() == i,
                texts(lowered@) =~= lower_texts(self.names@.take(i as int)),
            decreases self.names.len() - i,
        {
            let l = lowercase(self.names[i].as_str());
            proof {
                assert(l@ == lower_of(self.names@[i as int]@));
            }
            let ghost prev = lowered@;
            lowered.push(l);
            i = i + 1;
            proof {
                assert forall|j: int| 0 <= j < i implies #[trigger] texts(lowered@)[j] == lower_texts(
                    self.names@.take(i as int),
                )[j] by {
                    if j < i - 1 {
                        assert(texts(prev)[j] == lower_texts(self.names@.take(i - 1))[j]);
                        assert(lowered@[j] == prev[j]);
                    }
                }
                assert(texts(lowered@) =~= lower_texts(self.names@.take(i as int)));
            }
        }
        assert(self.names@.take(self.names@.len() as int) =~= self.names@);
        selects_folded(connector.as_str(), info.path, &self.buses, &lowered)
    }
}

/// The backlight level after raising `current` by `amount`, kept within range.
pub open spec fn raised(current: u16, amount: u8) -> int {
    if current + amount > BACKLIGHT_MAX { BACKLIGHT_MAX as int } else { current + amount }
}

/// The backlight level after lowering `current` by `amount`, stopping at zero.
pub open spec fn lowered(current: u16, amount: u8) -> int {
    if current < amount { 0 } else { current - amount }
}

/// Raises a backlight level by `amount`, up to the largest level.
pub fn raised_level(current: u16, amount: u8) -> (r: u16)
    ensures
        r as int == raised(current, amount),
{
    let sum: u32 = current as u32 + amount as u32;
    if sum > BACKLIGHT_MAX as u32 {
        BACKLIGHT_MAX
    } else {
        sum as u16
    }
}

/// Lowers a backlight level by `amount`, down to zero.
pub fn lowered_level(current: u16, amount: u8) -> (r: u16)
    ensures
        r as int == lowered(current, amount),
{
    if current < amount as u16 {
        0
    } else {
        current - amount as u16
    }
}

} // verus!
