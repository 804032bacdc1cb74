use vstd::prelude::*;

use crate::ascii::{buffer_text, text_of};
use crate::codec::{
    be_value, from_be_bytes, hi_byte, input_of_code, lo_byte, to_be_bytes, Input,
};
use crate::error::{error_of, native_error, DDCError, DdcutilErrorKind, LibDDCUtilError, Result, Status};
use crate::text::{push_signed_decimal, signed_decimal};

verus! {

/// An opaque reference to one display, as the native library hands it out.
pub type DisplayRef = u64;

/// An opaque handle of an open native display session.
pub type DisplayHandle = u64;

/// The native I/O mode of a display reached over an I2C bus.
pub const IO_MODE_I2C: u32 = 0;

/// The native I/O mode of a display reached as a USB HID device.
pub const IO_MODE_USB: u32 = 1;

/// The VCP feature code of the backlight level.
pub const BACKLIGHT: u8 = 0x10;

/// The VCP feature code of the input source.
pub const INPUT: u8 = 0x60;

/// The largest backlight level, in percent.
pub const BACKLIGHT_MAX: u16 = 100;

/// The bus through which a display is reached.
#[derive(Debug, Clone, Copy, PartialEq, Eq, Structural)]
pub enum IOPath {
    I2C(i32),
    Usb(i32),
}

/// The device path of an I/O path.
pub open spec fn io_path_text(p: IOPath) -> Seq<char> {
    match p {
        IOPath::I2C(bus) => "/dev/i2c-"@ + signed_decimal(bus as int),
        IOPath::Usb(dev) => "/dev/hiddev"@ + signed_decimal(dev as int),
    }
}

/// The I/O path that a native mode and number stand for.
pub open spec fn io_path_of(io_mode: u32, number: i32) -> Result<IOPath> {
    if io_mode == IO_MODE_I2C {
        Ok(IOPath::I2C(number))
    } else if io_mode == IO_MODE_USB {
        Ok(IOPath::Usb(number))
    } else {
        Err(error_of(DdcutilErrorKind::Unsupported))
    }
}

impl IOPath {
    /// Builds the I/O path from the native mode tag and the bus or device number.
    pub fn from_native(io_mode: u32, number: i32) -> (r: Result<IOPath>)
        ensures
            r == io_path_of(io_mode, number),
    {
        if io_mode == IO_MODE_I2C {
            Ok(IOPath::I2C(number))
        } else if io_mode == IO_MODE_USB {
            Ok(IOPath::Usb(number))
        } else {
            Err(DDCError::new(DdcutilErrorKind::Unsupported))
        }
    }

    /// Renders the path as a device file name.
    pub fn to_display_string(&self) -> (r: String)
        ensures
            r@ == io_path_text(*self),
    {
        match self {
            IOPath::I2C(bus) => {
                let mut s = String::from_str("/dev/i2c-");
                proof {
                    reveal_strlit("/dev/i2c-");
                }
                push_signed_decimal(&mut s, *bus);
                s
            },
            IOPath::Usb(dev) => {
                let mut s = String::from_str("/dev/hiddev");
                proof {
                    reveal_strlit("/dev/hiddev");
                }
                push_signed_decimal(&mut s, *dev);
                s
            },
        }
    }
}

/// The record that the native library gives for one display reference.
pub struct RawDisplayInfo {
    pub io_mode: u32,
    /// The I2C bus number or the USB device number, after `io_mode`.
    pub number: i32,
    pub model_name: Vec<u8>,
    pub drm_card_connector: Vec<u8>,
}

/// What the native library answered when asked for the record of one display.
pub struct InfoReply {
    pub status: Status,
    /// The record, or `None` where the library handed back none.
    pub info: Option<RawDisplayInfo>,
}

/// A read-only description of one enumerated display.
pub struct DisplayInfo {
    pub dref: DisplayRef,
    pub path: IOPath,
    pub model_name: Vec<u8>,
    pub drm_card_connector: Vec<u8>,
}

/// What a reply settles for a display: its I/O path, or the error it reports.
pub open spec fn reply_path(reply: InfoReply) -> Result<IOPath> {
    if reply.status != 0 {
        Err(native_error(reply.status))
    } else {
        match reply.info {
            None => Err(error_of(DdcutilErrorKind::UnknownHandle)),
            Some(raw) => io_path_of(raw.io_mode, raw.number),
        }
    }
}

/// `info` is the description of display `dref` that a successful `reply` gives.
pub open spec fn describes(info: DisplayInfo, dref: DisplayRef, reply: InfoReply) -> bool {
    &&& reply_path(reply) == Ok::<IOPath, DDCError>(info.path)
    &&& info.dref == dref
    &&& reply.info is Some
    &&& info.model_name@ == reply.info->Some_0.model_name@
    &&& info.drm_card_connector@ == reply.info->Some_0.drm_card_connector@
}

/// `r` is what the reply gives for display `dref`: the description it holds, or its error.
pub open spec fn info_outcome(r: Result<DisplayInfo>, dref: DisplayRef, reply: InfoReply) -> bool {
    match reply_path(reply) {
        Ok(_) => r is Ok && describes(r->Ok_0, dref, reply),
        Err(e) => r == Err::<DisplayInfo, DDCError>(e),
    }
}

fn copy_bytes(v: &Vec<u8>) -> (r: Vec<u8>)
    ensures
        r@ == v@,
{
    let r = v.clone();
    assert(r@ =~= v@);
    r
}

impl DisplayInfo {
    /// The description that a native reply gives for display `dref`.
    pub fn from_reply(dref: DisplayRef, reply: &InfoReply) -> (r: Result<DisplayInfo>)
        ensures
            info_outcome(r, dref, *reply),
    {
        LibDDCUtilError::from_rc(reply.status)?;
        match &reply.info {
            None => Err(DDCError::new(DdcutilErrorKind::UnknownHandle)),
            Some(raw) => {
                let path = IOPath::from_native(raw.io_mode, raw.number)?;
                Ok(
                    DisplayInfo {
                        dref,
                        path,
                        model_name: copy_bytes(&raw.model_name),
                        drm_card_connector: copy_bytes(&raw.drm_card_connector),
                    },
                )
            },
        }
    }

    /// The native reference of the display, for opening a session on it.
    pub fn dref(&self) -> (r: DisplayRef)
        ensures
            r == self.dref,
    {
        self.dref
    }

    /// The bus through which the display is reached.
    pub fn io_path(&self) -> (r: IOPath)
        ensures
            r == self.path,
    {
        self.path
    }

    /// The model name, as text.
    pub fn model(&self) -> (r: String)
        ensures
            r@ == text_of(self.model_name@),
    {
        buffer_text(self.model_name.as_slice())
    }

    /// The DRM connector name (such as `card0-DP-1`), as text; empty when unknown.
    pub fn drm(&self) -> (r: String)
        ensures
            r@ == text_of(self.drm_card_connector@),
    {
        buffer_text(self.drm_card_connector.as_slice())
    }
}


} // verus!

verus! {

/// The displays that the native library found, as references in its order.
/// A list is never empty: finding no display is an error of its own.
pub struct DisplayList {
    refs: Vec<DisplayRef>,
}

/// The outcome of a probe, from the native status and the list it returned
/// (`None` where it returned no list at all).
pub open spec fn probe_outcome(status: Status, refs: Option<Seq<DisplayRef>>) -> Result<Seq<DisplayRef>> {
    if status != 0 {
        Err(native_error(status))
    } else {
        match refs {
            None => Err(error_of(DdcutilErrorKind::UnknownHandle)),
            Some(s) => if s.len() == 0 {
                Err(error_of(DdcutilErrorKind::NoDisplays))
            } else {
                Ok(s)
            },
        }
    }
}

impl View for DisplayList {
    type V = Seq<DisplayRef>;

    closed spec fn view(&self) -> Seq<DisplayRef> {
        self.refs@
    }
}

impl DisplayList {
    pub closed spec fn wf(&self) -> bool {
        self.refs@.len() > 0
    }

    /// Takes over the result of the native discovery call.
    pub fn probe(status: Status, refs: Option<Vec<DisplayRef>>) -> (r: Result<DisplayList>)
        ensures
            match probe_outcome(status, match refs {
                Some(v) => Some(v@),
                None => None,
            }) {
                Ok(s) => r is Ok && r->Ok_0@ == s && r->Ok_0.wf(),
                Err(e) => r == Err::<DisplayList, DDCError>(e),
            },
    {
        LibDDCUtilError::from_rc(status)?;
        match refs {
            None => Err(DDCError::new(DdcutilErrorKind::UnknownHandle)),
            Some(v) => {
                if v.len() == 0 {
                    Err(DDCError::new(DdcutilErrorKind::NoDisplays))
                } else {
                    Ok(DisplayList { refs: v })
                }
            },
        }
    }

    /// The number of displays.
    pub fn len(&self) -> (r: usize)
        ensures
            r == self@.len(),
    {
        self.refs.len()
    }

    /// The reference of the display at `index`.
    pub fn display_ref(&self, index: usize) -> (r: Result<DisplayRef>)
        ensures
            index < self@.len() ==> r == Ok::<DisplayRef, DDCError>(self@[index as int]),
            index >= self@.len() ==> r == Err::<DisplayRef, DDCError>(error_of(DdcutilErrorKind::OutOfRange)),
    {
        if index < self.refs.len() {
            Ok(self.refs[index])
        } else {
            Err(DDCError::new(DdcutilErrorKind::OutOfRange))
        }
    }

    /// The description of the display at `index`, from the native reply to the
    /// query for that display's reference.
    pub fn get(&self, index: usize, reply: &InfoReply) -> (r: Result<DisplayInfo>)
        ensures
            index >= self@.len() ==> r == Err::<DisplayInfo, DDCError>(error_of(DdcutilErrorKind::OutOfRange)),
            index < self@.len() ==> info_outcome(r, self@[index as int], *reply),
    {
        let dref = self.display_ref(index)?;
        DisplayInfo::from_reply(dref, reply)
    }

    /// A fresh cursor over the whole list.
    pub fn iter(&self) -> (r: DisplayListIter)
        ensures
            r.position() == 0,
            r.end() == self@.len(),
    {
        DisplayListIter { index: 0, len: self.refs.len() }
    }
}

/// A cursor over a display list; displays whose query fails are passed over.
pub struct DisplayListIter {
    index: usize,
    len: usize,
}

impl DisplayListIter {
    /// The index of the next display to query.
    pub closed spec fn position(&self) -> int {
        self.index as int
    }

    /// The number of displays in the list walked.
    pub closed spec fn end(&self) -> int {
        self.len as int
    }

    /// The next display whose query succeeds, given the native reply for each
    /// display of the list; `None` once the list is used up.
    pub fn next(&mut self, list: &DisplayList, replies: &Vec<InfoReply>) -> (r: Option<DisplayInfo>)
        requires
            old(self).end() == list@.len(),
            replies@.len() == list@.len(),
        ensures
            final(self).end() == old(self).end(),
            final(self).position() <= final(self).end(),
            old(self).position() >= old(self).end() ==> r is None && final(self).position() == final(self).end(),
            old(self).position() < old(self).end() ==> old(self).position() < final(self).position(),
            forall|k: int|
                old(self).position() <= k < final(self).position() - 1 ==> #[trigger] reply_path(replies@[k]) is Err,
            r is None ==> final(self).position() >= final(self).end() && (old(self).position() < old(self).end()
                ==> reply_path(replies@[final(self).position() - 1]) is Err),
            r is Some ==> info_outcome(
                Ok(r->Some_0),
                list@[final(self).position() - 1],
                replies@[final(self).position() - 1],
            ),
    {
        let start = self.index;
        if self.index >= self.len {
            self.index = self.len;
            return None;
        }
        while self.index < self.len
            invariant
                self.len == list@.len(),
                old(self).end() == list@.len(),
                start as int == old(self).position(),
                replies@.len() == list@.len(),
                start <= self.index <= self.len,
                start < self.len,
                forall|k: int| start <= k < self.index ==> #[trigger] reply_path(replies@[k]) is Err,
            decreases self.len - self.index,
        {
            let i = self.index;
            let out = list.get(i, &replies[i]);
            self.index = i + 1;
            match out {
                Ok(info) => {
                    return Some(info);
                },
                Err(_) => {},
            }
        }
        None
    }
}

} // verus!

verus! {

/// The current and largest level of the backlight.
#[derive(Debug, Clone, Copy, PartialEq, Eq, Structural)]
pub struct Backlight {
    pub current: u16,
    pub max: u16,
}

/// A non-table VCP value as the native library reads it: the largest value and
/// the current one, each as a high and a low byte.
#[derive(Debug, Clone, Copy, PartialEq, Eq, Structural)]
pub struct NonTableValue {
    pub mh: u8,
    pub ml: u8,
    pub sh: u8,
    pub sl: u8,
}

/// A non-table VCP write for the native library to carry out on an open session.
#[derive(Debug, Clone, Copy, PartialEq, Eq, Structural)]
pub struct VcpWrite {
    pub handle: DisplayHandle,
    pub feature: u8,
    pub hi: u8,
    pub lo: u8,
}

/// An open session on one display.
#[derive(Debug)]
pub struct Display {
    handle: DisplayHandle,
}

/// The backlight that a native read reports.
pub open spec fn backlight_of(status: Status, raw: NonTableValue) -> Result<Backlight> {
    if status != 0 {
        Err(native_error(status))
    } else {
        Ok(Backlight { max: be_value(raw.mh, raw.ml), current: be_value(raw.sh, raw.sl) })
    }
}

/// The input source that a native read reports: the low byte of the current value.
pub open spec fn input_read_of(status: Status, raw: NonTableValue) -> Result<Input> {
    if status != 0 {
        Err(native_error(status))
    } else {
        match input_of_code(raw.sl) {
            Some(i) => Ok(i),
            None => Err(error_of(DdcutilErrorKind::Unsupported)),
        }
    }
}

/// The write that sets the backlight of session `handle` to `value` percent.
pub open spec fn backlight_write_of(handle: DisplayHandle, value: u16) -> Result<VcpWrite> {
    if value > BACKLIGHT_MAX {
        Err(error_of(DdcutilErrorKind::OutOfRange))
    } else {
        Ok(VcpWrite { handle, feature: BACKLIGHT, hi: hi_byte(value), lo: lo_byte(value) })
    }
}

/// The write that selects `input` on session `handle`.
pub open spec fn input_write_of(handle: DisplayHandle, input: Input) -> Result<VcpWrite> {
    match crate::codec::input_code(input) {
        Some(c) => Ok(VcpWrite { handle, feature: INPUT, hi: 0, lo: c }),
        None => Err(error_of(DdcutilErrorKind::Unsupported)),
    }
}

impl Display {
    /// The native handle of the session.
    pub closed spec fn handle_of(&self) -> DisplayHandle {
        self.handle
    }

    /// Takes over the session that the native open call gave for `info`.
    pub fn open(info: &DisplayInfo, status: Status, handle: DisplayHandle) -> (r: Result<Display>)
        ensures
            status != 0 ==> r == Err::<Display, DDCError>(native_error(status)),
            status == 0 ==> r is Ok && r->Ok_0.handle_of() == handle,
    {
        LibDDCUtilError::from_rc(status)?;
        Ok(Display { handle })
    }

    /// The native handle of the session.
    pub fn handle(&self) -> (r: DisplayHandle)
        ensures
            r == self.handle_of(),
    {
        self.handle
    }

    /// The write that sets the backlight to `value` percent; no write at all
    /// when `value` is over the percentage range.
    pub fn backlight_set(&self, value: u16) -> (r: Result<VcpWrite>)
        ensures
            r == backlight_write_of(self.handle_of(), value),
            value > BACKLIGHT_MAX ==> r == Err::<VcpWrite, DDCError>(error_of(DdcutilErrorKind::OutOfRange)),
    {
        if value > BACKLIGHT_MAX {
            return Err(DDCError::new(DdcutilErrorKind::OutOfRange));
        }
        let (hi, lo) = to_be_bytes(value);
        Ok(VcpWrite { handle: self.handle, feature: BACKLIGHT, hi, lo })
    }

    /// The backlight, from the native read of the backlight feature.
    pub fn backlight_get(&self, status: Status, raw: NonTableValue) -> (r: Result<Backlight>)
        ensures
            r == backlight_of(status, raw),
    {
        LibDDCUtilError::from_rc(status)?;
        Ok(Backlight { max: from_be_bytes(raw.mh, raw.ml), current: from_be_bytes(raw.sh, raw.sl) })
    }

    /// The input source, from the native read of the input feature.
    pub fn input(&self, status: Status, raw: NonTableValue) -> (r: Result<Input>)
        ensures
            r == input_read_of(status, raw),
    {
        LibDDCUtilError::from_rc(status)?;
        Input::decode(raw.sl)
    }

    /// The write that selects `input`.
    pub fn set_input(&self, input: Input) -> (r: Result<VcpWrite>)
        ensures
            r == input_write_of(self.handle_of(), input),
    {
        let value = input.encode()?;
        Ok(VcpWrite { handle: self.handle, feature: INPUT, hi: 0, lo: value })
    }
}

impl DisplayInfo {
    /// Takes over the session that the native open call gave for this display.
    pub fn open(&self, status: Status, handle: DisplayHandle) -> (r: Result<Display>)
        ensures
            status != 0 ==> r == Err::<Display, DDCError>(native_error(status)),
            status == 0 ==> r is Ok && r->Ok_0.handle_of() == handle,
    {
        Display::open(self, status, handle)
    }
}

/// `k` is the position of the first dash of `t`.
pub open spec fn is_first_dash(t: Seq<char>, k: int) -> bool {
    &&& 0 <= k < t.len()
    &&& t[k] == '-'
    &&& forall|j: int| 0 <= j < k ==> t[j] != '-'
}

/// The connector part of a DRM connector name: what follows its first dash
/// (`DP-1` of `card0-DP-1`), or the whole name when it has no dash.
pub open spec fn connector_label_of(t: Seq<char>) -> Seq<char> {
    if exists|k: int| is_first_dash(t, k) {
        t.skip((choose|k: int| is_first_dash(t, k)) + 1)
    } else {
        t
    }
}

proof fn lemma_first_dash(t: Seq<char>, k: int)
    requires
        is_first_dash(t, k),
    ensures
        connector_label_of(t) == t.skip(k + 1),
{
    let m = choose|m: int| is_first_dash(t, m);
    assert(is_first_dash(t, m));
    if m < k {
        assert(t[m] == '-');
    } else if k < m {
        assert(t[k] == '-');
    }
}

impl DisplayInfo {
    /// The connector part of the DRM connector name.
    pub fn connector_label(&self) -> (r: String)
        ensures
            r@ == connector_label_of(text_of(self.drm_card_connector@)),
    {
        let text = self.drm();
        let s = text.as_str();
        let len = s.unicode_len();
        let mut k: usize = 0;
        while k < len && s.get_char(k) != '-'
            invariant
                len == s@.len(),
                k <= len,
                forall|j: int| 0 <= j < k ==> s@[j] != '-',
            decreases len - k,
        {
            k = k + 1;
        }
        if k == len {
            assert forall|m: int| !is_first_dash(s@, m) by {
                if 0 <= m < s@.len() {
                    assert(s@[m] != '-');
                }
            }
            return text;
        }
        proof {
            lemma_first_dash(s@, k as int);
        }
        String::from_str(s.substring_char(k + 1, len))
    }
}

/// A backlight level in range is written as bytes that, read back as the
/// current value, give the same level.
pub proof fn lemma_backlight_echo(handle: DisplayHandle, value: u16, max: u16)
    requires
        value <= BACKLIGHT_MAX,
    ensures
        backlight_write_of(handle, value) is Ok,
        ({
            let w = backlight_write_of(handle, value)->Ok_0;
            let echo = NonTableValue { mh: hi_byte(max), ml: lo_byte(max), sh: w.hi, sl: w.lo };
            w.feature == BACKLIGHT && backlight_of(0, echo) == Ok::<Backlight, DDCError>(
                Backlight { current: value, max },
            )
        }),
{
    crate::codec::lemma_be_round_trip(value);
    crate::codec::lemma_be_round_trip(max);
}

/// Selecting an encodable input writes its code, which reads back as that input.
pub proof fn lemma_input_echo(handle: DisplayHandle, input: Input, raw: NonTableValue)
    requires
        input.is_encodable(),
    ensures
        input_write_of(handle, input) is Ok,
        ({
            let w = input_write_of(handle, input)->Ok_0;
            w.feature == INPUT && input_read_of(0, NonTableValue { sl: w.lo, ..raw }) == Ok::<Input, DDCError>(input)
        }),
{
    crate::codec::lemma_input_round_trip(input);
}

} // verus!
