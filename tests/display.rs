use ddcbright::ascii::buffer_text;
use ddcbright::codec::{from_be_bytes, to_be_bytes};
use ddcbright::ddc::{BACKLIGHT, INPUT, IO_MODE_I2C, IO_MODE_USB};
use ddcbright::select::{lowered_level, raised_level, selects_folded, MonitorIdentifier};
use ddcbright::{
    AsAscii, Backlight, DDCError, DdcutilErrorKind, Display, DisplayInfo, DisplayList, IOPath,
    InfoReply, Input, LibDDCUtilError, NonTableValue, RawDisplayInfo,
};

fn err(kind: DdcutilErrorKind) -> DDCError {
    DDCError::new(kind)
}

fn native(code: i32) -> DDCError {
    err(DdcutilErrorKind::LibDDCUtilError(LibDDCUtilError { code }))
}

fn raw(io_mode: u32, number: i32, model: &[u8], drm: &[u8]) -> RawDisplayInfo {
    RawDisplayInfo {
        io_mode,
        number,
        model_name: model.to_vec(),
        drm_card_connector: drm.to_vec(),
    }
}

fn ok_reply(number: i32, model: &[u8], drm: &[u8]) -> InfoReply {
    InfoReply { status: 0, info: Some(raw(IO_MODE_I2C, number, model, drm)) }
}

fn open_display(handle: u64) -> Display {
    let list = DisplayList::probe(0, Some(vec![7])).unwrap();
    let info = list.get(0, &ok_reply(4, b"M\0", b"card0-DP-1\0")).unwrap();
    Display::open(&info, 0, handle).unwrap()
}

/// A stand-in for the native layer that reads back what was last written.
struct EchoNative {
    mh: u8,
    ml: u8,
    sh: u8,
    sl: u8,
}

impl EchoNative {
    fn write(&mut self, feature: u8, hi: u8, lo: u8) -> i32 {
        assert!(feature == BACKLIGHT || feature == INPUT);
        self.sh = hi;
        self.sl = lo;
        0
    }

    fn read(&self) -> (i32, NonTableValue) {
        (0, NonTableValue { mh: self.mh, ml: self.ml, sh: self.sh, sl: self.sl })
    }
}

#[test]
fn input_round_trip_for_every_encodable_input() {
    for input in [Input::HDMI(1), Input::HDMI(2), Input::DP(1), Input::DP(2)] {
        let code = input.encode().unwrap();
        assert_eq!(Input::decode(code).unwrap(), input);
    }
}

#[test]
fn input_codes_match_the_table() {
    assert_eq!(Input::HDMI(1).encode(), Ok(0x11));
    assert_eq!(Input::HDMI(2).encode(), Ok(0x12));
    assert_eq!(Input::DP(1).encode(), Ok(0x0f));
    assert_eq!(Input::DP(2).encode(), Ok(0x10));
}

#[test]
fn unencodable_inputs_are_unsupported() {
    let unsupported = Err(err(DdcutilErrorKind::Unsupported));
    assert_eq!(Input::TYPEC(1).encode(), unsupported);
    assert_eq!(Input::TYPEC(2).encode(), unsupported);
    assert_eq!(Input::HDMI(3).encode(), unsupported);
    assert_eq!(Input::DP(0).encode(), unsupported);
}

#[test]
fn decode_rejects_every_other_byte() {
    for b in 0u8..=255 {
        let r = Input::decode(b);
        if b == 0x0f || b == 0x10 || b == 0x11 || b == 0x12 {
            assert!(r.is_ok());
        } else {
            assert_eq!(r, Err(err(DdcutilErrorKind::Unsupported)));
        }
    }
}

#[test]
fn big_endian_bytes() {
    assert_eq!(to_be_bytes(0x1234), (0x12, 0x34));
    assert_eq!(to_be_bytes(100), (0, 100));
    assert_eq!(from_be_bytes(0x12, 0x34), 0x1234);
    assert_eq!(from_be_bytes(0xff, 0xff), u16::MAX);
}

#[test]
fn backlight_set_out_of_range_issues_no_write() {
    let d = open_display(9);
    for v in [101u16, 255, 1000, u16::MAX] {
        assert_eq!(d.backlight_set(v), Err(err(DdcutilErrorKind::OutOfRange)));
    }
}

#[test]
fn backlight_set_splits_big_endian() {
    let d = open_display(9);
    let w = d.backlight_set(100).unwrap();
    assert_eq!((w.handle, w.feature, w.hi, w.lo), (9, 0x10, 0, 100));
    let w = d.backlight_set(0).unwrap();
    assert_eq!((w.hi, w.lo), (0, 0));
}

#[test]
fn backlight_written_reads_back_through_an_echo() {
    let d = open_display(3);
    let mut native = EchoNative { mh: 0, ml: 100, sh: 0, sl: 0 };
    for v in 0u16..=100 {
        let w = d.backlight_set(v).unwrap();
        assert_eq!(native.write(w.feature, w.hi, w.lo), 0);
        let (status, value) = native.read();
        let b = d.backlight_get(status, value).unwrap();
        assert_eq!(b, Backlight { current: v, max: 100 });
    }
}

#[test]
fn backlight_get_reassembles_both_values() {
    let d = open_display(3);
    let b = d.backlight_get(0, NonTableValue { mh: 0x01, ml: 0x02, sh: 0x00, sl: 0x32 }).unwrap();
    assert_eq!(b.max, 0x0102);
    assert_eq!(b.current, 50);
    assert_eq!(d.backlight_get(-3001, NonTableValue { mh: 0, ml: 0, sh: 0, sl: 0 }), Err(native(-3001)));
}

#[test]
fn input_read_uses_low_byte_of_current_value() {
    let d = open_display(3);
    let v = NonTableValue { mh: 0, ml: 0x77, sh: 0, sl: 0x12 };
    assert_eq!(d.input(0, v), Ok(Input::HDMI(2)));
    let v = NonTableValue { mh: 0, ml: 0x0f, sh: 0, sl: 0x01 };
    assert_eq!(d.input(0, v), Err(err(DdcutilErrorKind::Unsupported)));
    assert_eq!(d.input(-5, v), Err(native(-5)));
}

#[test]
fn set_input_writes_code_with_zero_high_byte() {
    let d = open_display(5);
    let w = d.set_input(Input::DP(2)).unwrap();
    assert_eq!((w.handle, w.feature, w.hi, w.lo), (5, 0x60, 0, 0x10));
    assert_eq!(d.set_input(Input::TYPEC(1)), Err(err(DdcutilErrorKind::Unsupported)));
    let mut native = EchoNative { mh: 0, ml: 0, sh: 0, sl: 0 };
    native.write(w.feature, w.hi, w.lo);
    let (status, value) = native.read();
    assert_eq!(d.input(status, value), Ok(Input::DP(2)));
}

#[test]
fn probe_with_no_displays() {
    assert_eq!(DisplayList::probe(0, Some(vec![])).err(), Some(err(DdcutilErrorKind::NoDisplays)));
}

#[test]
fn probe_with_null_list() {
    assert_eq!(DisplayList::probe(0, None).err(), Some(err(DdcutilErrorKind::UnknownHandle)));
}

#[test]
fn probe_with_native_failure() {
    assert_eq!(DisplayList::probe(-3020, Some(vec![1])).err(), Some(native(-3020)));
}

#[test]
fn probe_three_displays_iterates_three_infos() {
    let list = DisplayList::probe(0, Some(vec![11, 12, 13])).unwrap();
    assert_eq!(list.len(), 3);
    let replies = vec![
        ok_reply(1, b"LG Monitor\0\0\0", b"card0-DP-1\0"),
        ok_reply(2, b"Dell U2720Q\0", b"card0-HDMI-A-1\0"),
        InfoReply { status: 0, info: Some(raw(IO_MODE_USB, 5, b"Apple\0", b"\0")) },
    ];
    let mut it = list.iter();
    let mut infos: Vec<DisplayInfo> = Vec::new();
    while let Some(info) = it.next(&list, &replies) {
        infos.push(info);
    }
    assert_eq!(infos.len(), 3);
    assert_eq!(infos[0].dref(), 11);
    assert_eq!(infos[0].io_path(), IOPath::I2C(1));
    assert_eq!(infos[0].model(), "LG Monitor");
    assert_eq!(infos[0].drm(), "card0-DP-1");
    assert_eq!(infos[1].dref(), 12);
    assert_eq!(infos[1].io_path(), IOPath::I2C(2));
    assert_eq!(infos[1].model(), "Dell U2720Q");
    assert_eq!(infos[2].dref(), 13);
    assert_eq!(infos[2].io_path(), IOPath::Usb(5));
    assert_eq!(infos[2].drm(), "");
    // A second cursor walks the same list again.
    let mut again = list.iter();
    let mut n = 0;
    while again.next(&list, &replies).is_some() {
        n += 1;
    }
    assert_eq!(n, 3);
}

#[test]
fn iteration_passes_over_failed_queries() {
    let list = DisplayList::probe(0, Some(vec![1, 2, 3])).unwrap();
    let replies = vec![
        InfoReply { status: -3001, info: Some(raw(IO_MODE_I2C, 1, b"A\0", b"\0")) },
        ok_reply(2, b"B\0", b"\0"),
        InfoReply { status: 0, info: Some(raw(7, 3, b"C\0", b"\0")) },
    ];
    let mut it = list.iter();
    let first = it.next(&list, &replies).unwrap();
    assert_eq!(first.dref(), 2);
    assert_eq!(first.model(), "B");
    assert!(it.next(&list, &replies).is_none());
    assert!(it.next(&list, &replies).is_none());
}

#[test]
fn get_checks_index() {
    let list = DisplayList::probe(0, Some(vec![1, 2])).unwrap();
    let reply = ok_reply(6, b"X\0", b"\0");
    assert_eq!(list.get(2, &reply).err(), Some(err(DdcutilErrorKind::OutOfRange)));
    assert_eq!(list.display_ref(5), Err(err(DdcutilErrorKind::OutOfRange)));
    assert_eq!(list.display_ref(1), Ok(2));
    let info = list.get(1, &reply).unwrap();
    assert_eq!(info.dref(), 2);
    assert_eq!(info.io_path(), IOPath::I2C(6));
    let failed = InfoReply { status: -7, info: Some(raw(IO_MODE_I2C, 6, b"X\0", b"\0")) };
    assert_eq!(list.get(0, &failed).err(), Some(native(-7)));
}

#[test]
fn io_path_text() {
    assert_eq!(IOPath::I2C(3).to_display_string(), "/dev/i2c-3");
    assert_eq!(IOPath::Usb(2).to_display_string(), "/dev/hiddev2");
    assert_eq!(IOPath::I2C(0).to_display_string(), "/dev/i2c-0");
    assert_eq!(IOPath::I2C(127).to_display_string(), "/dev/i2c-127");
    assert_eq!(IOPath::Usb(-1).to_display_string(), "/dev/hiddev-1");
    assert_eq!(IOPath::I2C(i32::MIN).to_display_string(), "/dev/i2c--2147483648");
}

#[test]
fn io_path_equality_and_native_modes() {
    assert_eq!(IOPath::I2C(3), IOPath::I2C(3));
    assert_ne!(IOPath::I2C(3), IOPath::Usb(3));
    assert_ne!(IOPath::I2C(3), IOPath::I2C(4));
    assert_eq!(IOPath::from_native(IO_MODE_I2C, 4), Ok(IOPath::I2C(4)));
    assert_eq!(IOPath::from_native(IO_MODE_USB, 2), Ok(IOPath::Usb(2)));
    assert_eq!(IOPath::from_native(9, 2), Err(err(DdcutilErrorKind::Unsupported)));
}

#[test]
fn text_stops_at_first_nul() {
    let buf = b"LG Monitor\0\0\0";
    assert_eq!(buffer_text(buf), "LG Monitor");
    assert_eq!(AsAscii::as_ascii(&buf[..]), "LG Monitor");
    assert_eq!(buffer_text(b"ab\0cd"), "ab");
    assert_eq!(buffer_text(b"\0abc"), "");
    assert_eq!(buffer_text(b""), "");
}

#[test]
fn text_without_nul_takes_whole_capacity() {
    let buf: [u8; 4] = *b"DELL";
    assert_eq!(buffer_text(&buf), "DELL");
    assert_eq!(buffer_text(&buf[..2]), "DE");
}

#[test]
fn text_with_invalid_byte_is_empty() {
    assert_eq!(buffer_text(b"ab\xffcd\0"), "");
    assert_eq!(buffer_text(b"ab\0\xff"), "ab");
}

#[test]
fn open_failure_carries_the_code() {
    let list = DisplayList::probe(0, Some(vec![7])).unwrap();
    let info = list.get(0, &ok_reply(4, b"M\0", b"\0")).unwrap();
    assert_eq!(Display::open(&info, -3013, 0).err(), Some(native(-3013)));
    assert_eq!(info.open(-1, 0).err(), Some(native(-1)));
    let d = info.open(0, 42).unwrap();
    assert_eq!(d.handle(), 42);
}

#[test]
fn from_rc_maps_status() {
    assert_eq!(LibDDCUtilError::from_rc(0), Ok(()));
    assert_eq!(LibDDCUtilError::from_rc(-3007), Err(native(-3007)));
    assert_eq!(LibDDCUtilError::from_rc(1), Err(native(1)));
}

#[test]
fn native_error_text() {
    let e = LibDDCUtilError { code: -3001 };
    assert_eq!(e.code(), -3001);
    assert_eq!(
        e.to_display_string(b"DDCRC_DATA\0", b"DDC data error\0"),
        "DDCRC_DATA, DDC data error, 0xfffff447"
    );
    let e = LibDDCUtilError { code: 26 };
    assert_eq!(e.to_display_string(b"\0", b"\0"), ", , 0x1a");
}

#[test]
fn error_kind_messages() {
    assert_eq!(DdcutilErrorKind::NoDisplays.to_display_string(b"\0", b"\0"), "No displays found");
    assert_eq!(
        DdcutilErrorKind::UnknownHandle.to_display_string(b"\0", b"\0"),
        "Unable to initialize the display handle"
    );
    assert_eq!(DdcutilErrorKind::OutOfRange.to_display_string(b"\0", b"\0"), "Out of Range");
    assert_eq!(DdcutilErrorKind::Unsupported.to_display_string(b"\0", b"\0"), "Unsupported value");
    let k = DdcutilErrorKind::LibDDCUtilError(LibDDCUtilError { code: -1 });
    assert_eq!(k.to_display_string(b"N\0", b"D\0"), "N, D, 0xffffffff");
    assert_eq!(native(-1).kind(), k);
}

#[test]
fn brightness_steps() {
    assert_eq!(raised_level(95, 10), 100);
    assert_eq!(raised_level(40, 10), 50);
    assert_eq!(raised_level(u16::MAX, 255), 100);
    assert_eq!(lowered_level(5, 10), 0);
    assert_eq!(lowered_level(50, 10), 40);
    assert_eq!(lowered_level(0, 0), 0);
}

#[test]
fn monitor_selection() {
    let list = DisplayList::probe(0, Some(vec![1])).unwrap();
    let info = list.get(0, &ok_reply(4, b"M\0", b"card0-DP-1\0")).unwrap();
    let all = MonitorIdentifier { buses: vec![], names: vec![] };
    assert!(all.selects(&info));
    let by_bus = MonitorIdentifier { buses: vec![3, 4], names: vec![] };
    assert!(by_bus.selects(&info));
    let other_bus = MonitorIdentifier { buses: vec![3], names: vec![] };
    assert!(!other_bus.selects(&info));
    let by_name = MonitorIdentifier { buses: vec![], names: vec!["dp-1".to_string()] };
    assert!(by_name.selects(&info));
    let upper = MonitorIdentifier { buses: vec![], names: vec!["HDMI".to_string(), "Card0-DP".to_string()] };
    assert!(upper.selects(&info));
    let no_name = MonitorIdentifier { buses: vec![4], names: vec!["hdmi".to_string()] };
    assert!(!no_name.selects(&info));
}

#[test]
fn folded_selection() {
    let names = vec!["dp".to_string()];
    assert!(selects_folded("card0-dp-1", IOPath::I2C(1), &vec![], &names));
    assert!(!selects_folded("card0-hdmi-a-1", IOPath::I2C(1), &vec![], &names));
    assert!(selects_folded("", IOPath::Usb(1), &vec![], &vec![]));
    assert!(!selects_folded("", IOPath::Usb(1), &vec![1], &vec![]));
    assert!(selects_folded("", IOPath::I2C(1), &vec![1], &vec![]));
}

fn info_with_connector(drm: &[u8]) -> DisplayInfo {
    let list = DisplayList::probe(0, Some(vec![1])).unwrap();
    list.get(0, &ok_reply(1, b"M\0", drm)).unwrap()
}

#[test]
fn connector_label_after_first_dash() {
    assert_eq!(info_with_connector(b"card0-DP-1\0").connector_label(), "DP-1");
    assert_eq!(info_with_connector(b"card1-HDMI-A-2\0\0").connector_label(), "HDMI-A-2");
    assert_eq!(info_with_connector(b"eDP1\0").connector_label(), "eDP1");
    assert_eq!(info_with_connector(b"\0").connector_label(), "");
    assert_eq!(info_with_connector(b"card0-\0").connector_label(), "");
    assert_eq!(info_with_connector(b"ab-cd").connector_label(), "cd");
    assert_eq!(info_with_connector(b"a\xff-b\0").connector_label(), "");
}

#[test]
fn text_keeps_valid_utf8() {
    let e = "\u{e9}".as_bytes();
    assert_eq!(buffer_text(e), "\u{e9}");
    assert_eq!(buffer_text(b"\xc3\xa9\0\0"), "\u{e9}");
    assert_eq!(AsAscii::as_ascii(&b"Caf\xc3\xa9\0"[..]), "Caf\u{e9}");
    assert_eq!(buffer_text(b"\xc3\0"), "");
    let info = info_with_connector(b"\xc3\xa9");
    assert_eq!(info.drm(), "\u{e9}");
    let info = info_with_connector(b"card0-\xc3\xa9cran-1\0");
    assert_eq!(info.connector_label(), "\u{e9}cran-1");
    let list = DisplayList::probe(0, Some(vec![1])).unwrap();
    let info = list.get(0, &ok_reply(1, b"\xc3\xa9\0", b"\0")).unwrap();
    assert_eq!(info.model(), "\u{e9}");
}

#[test]
fn missing_record_is_unknown_handle() {
    let list = DisplayList::probe(0, Some(vec![1])).unwrap();
    let reply = InfoReply { status: 0, info: None };
    assert_eq!(list.get(0, &reply).err(), Some(err(DdcutilErrorKind::UnknownHandle)));
    let failed = InfoReply { status: -9, info: None };
    assert_eq!(list.get(0, &failed).err(), Some(native(-9)));
}
