use squeak::info::{
    declares_report, device_label, hidp_succeeded, inspect, is_keychron_device, product_name,
    CollectionAction, Info,
    HIDP_STATUS_SUCCESS,
};
use squeak::paths::{hid_interface_paths, nul_position};
use squeak::report::{
    battery, classify_report, describe_report, status_request, trim_zeros, Report,
};
use squeak::text::{hex, log_line, push_decimal, push_hex4, push_padded_decimal};

fn mouse_info() -> Info {
    Info {
        pid: 0xd028,
        usage_page: 0xFFC1,
        usage: 0x0001,
        in_len: 64,
        out_len: 64,
        declares_reports: true,
    }
}

fn status_reply(power: u8) -> Vec<u8> {
    let mut r = vec![0u8; 64];
    r[0] = 0xB4;
    r[1] = 0x06;
    r[20] = power;
    r
}

#[test]
fn battery_not_charging_is_right_aligned() {
    assert_eq!(battery(91, false), " 91%  not charging");
}

#[test]
fn battery_charging() {
    assert_eq!(battery(93, true), " 93%  charging");
}

#[test]
fn battery_widths() {
    assert_eq!(battery(5, false), "  5%  not charging");
    assert_eq!(battery(100, true), "100%  charging");
    assert_eq!(battery(127, false), "127%  not charging");
    assert_eq!(battery(255, false), "255%  not charging");
}

#[test]
fn hex_joins_with_spaces() {
    assert_eq!(hex(&[0xe2, 0x01, 0x01, 0x03, 0x5b]), "e2 01 01 03 5b");
    assert_eq!(hex(&[0x00, 0xff, 0x0a]), "00 ff 0a");
}

#[test]
fn hex_edge_cases() {
    assert_eq!(hex(&[]), "");
    assert_eq!(hex(&[0x7]), "07");
}

#[test]
fn trim_zeros_drops_trailing_zeros_only() {
    assert_eq!(trim_zeros(&[0x0b, 0x00, 0x09, 0x03, 0x00, 0x00]), &[0x0b, 0x00, 0x09, 0x03]);
    assert_eq!(trim_zeros(&[0, 0, 0]), &[] as &[u8]);
    assert_eq!(trim_zeros(&[]), &[] as &[u8]);
    assert_eq!(trim_zeros(&[1, 2]), &[1, 2]);
}

#[test]
fn mouse_channel_matches_exact_layout() {
    assert!(mouse_info().is_mouse_channel());
}

#[test]
fn via_collection_is_never_a_mouse_channel() {
    let mut info = mouse_info();
    info.usage_page = 0xFF60;
    info.usage = 0x0061;
    assert!(!info.is_mouse_channel());
}

#[test]
fn mouse_channel_rejects_each_mismatch() {
    let base = mouse_info();
    let mut i = base;
    i.usage = 2;
    assert!(!i.is_mouse_channel());
    let mut i = base;
    i.in_len = 33;
    assert!(!i.is_mouse_channel());
    let mut i = base;
    i.out_len = 32;
    assert!(!i.is_mouse_channel());
    let mut i = base;
    i.declares_reports = false;
    assert!(!i.is_mouse_channel());
    let mut i = base;
    i.usage_page = 0x008C;
    assert!(!i.is_mouse_channel());
}

#[test]
fn power_byte_decoding_matches_launcher() {
    // 0x5b = 91 %, 0xdb = 91 % while charging.
    assert_eq!(classify_report(&status_reply(0x5b)), Report::StatusReply { power: 0x5b });
    assert_eq!(
        describe_report("M6", &status_reply(0x5b)),
        "M6  poll   91%  not charging"
    );
    assert_eq!(describe_report("M6", &status_reply(0xdb)), "M6  poll   91%  charging");
}

#[test]
fn status_reply_needs_power_byte() {
    let short = [0xB4u8, 0x06, 0x00];
    assert_eq!(classify_report(&short), Report::Other);
    assert_eq!(describe_report("M6", &short), "M6  other [b4 06]");
}

#[test]
fn push_with_charger_plugged_in() {
    let mut r = vec![0u8; 64];
    r[..8].copy_from_slice(&[0xB6, 0xe2, 0x01, 0x01, 0x03, 0x5b, 0x01, 0x01]);
    assert_eq!(classify_report(&r), Report::PowerPush { state: 0x03, percent: 0x5b });
    assert_eq!(
        describe_report("Dongle", &r),
        "Dongle  push   91%  charging"
    );
}

#[test]
fn push_with_charger_unplugged() {
    let r = [0xB6u8, 0xe2, 0x01, 0x01, 0x00, 0x5a, 0x01, 0x01, 0x05, 0x00];
    assert_eq!(
        describe_report("Dongle", &r),
        "Dongle  push   90%  not charging"
    );
}

#[test]
fn push_when_link_is_lost() {
    let mut r = [0u8; 64];
    r[..8].copy_from_slice(&[0xB6, 0xe2, 0x01, 0x00, 0xff, 0xff, 0xff, 0xff]);
    assert_eq!(
        describe_report("Keychron Ultra-Link 8K (pid 0xd028)", &r),
        "Keychron Ultra-Link 8K (pid 0xd028)  push  mouse asleep or disconnected"
    );
}

#[test]
fn shortest_push_is_described() {
    let r = [0xB6u8, 0xe2, 0x00, 0x00, 0x03, 0x5a];
    assert_eq!(classify_report(&r), Report::PowerPush { state: 0x03, percent: 0x5a });
    assert_eq!(describe_report("M6", &r), "M6  push   90%  charging");
    assert_eq!(classify_report(&r[..5]), Report::Other);
}

#[test]
fn readme_poll_line() {
    let mut r = vec![0u8; 64];
    r[0] = 0xB4;
    r[1] = 0x06;
    r[20] = 93;
    assert_eq!(
        describe_report("Keychron Ultra-Link 8K (pid 0xd028)", &r),
        "Keychron Ultra-Link 8K (pid 0xd028)  poll   93%  not charging"
    );
}

#[test]
fn collections_are_opened_only_when_they_match() {
    assert_eq!(mouse_info().triage("M"), CollectionAction::Open);
    let mut via = mouse_info();
    via.usage_page = 0xFF60;
    assert_eq!(
        via.triage("M"),
        CollectionAction::Skip(
            "skip  M  page 0xff60:0x0001  in 64 out 64  reports declared: true".to_string()
        )
    );
}

#[test]
fn product_name_decodes_surrogate_pairs() {
    let buf = [0xD834u16, 0xDD1E, 0x006d, 0xDD1E, 0x0069, 0xD834, 0];
    assert_eq!(product_name(true, &buf), "\u{1D11E}m\u{FFFD}i\u{FFFD}");
}

#[test]
fn other_reports_are_trimmed() {
    let mut r = vec![0u8; 64];
    r[..4].copy_from_slice(&[0xB6, 0x85, 0x02, 0x00]);
    assert_eq!(classify_report(&r), Report::Other);
    assert_eq!(describe_report("Dongle", &r), "Dongle  other [b6 85 02]");
    assert_eq!(describe_report("Dongle", &[0u8; 64]), "Dongle  other []");
}

#[test]
fn status_request_is_read_only_status_command() {
    let r = status_request();
    assert_eq!(r.len(), 64);
    assert_eq!(r[0], 0xB3);
    assert_eq!(r[1], 0x06);
    assert!(r[2..].iter().all(|&b| b == 0));
}

#[test]
fn interface_list_is_split_into_terminated_paths() {
    let list: Vec<u16> = vec![
        'a' as u16, 'b' as u16, 0, 'c' as u16, 0, 0, 'd' as u16, 'e' as u16, 'f' as u16, 0, 0,
    ];
    let paths = hid_interface_paths(&list);
    assert_eq!(
        paths,
        vec![
            vec!['a' as u16, 'b' as u16, 0],
            vec!['c' as u16, 0],
            vec!['d' as u16, 'e' as u16, 'f' as u16, 0],
        ]
    );
}

#[test]
fn interface_list_edge_cases() {
    assert!(hid_interface_paths(&[]).is_empty());
    assert!(hid_interface_paths(&[0]).is_empty());
    assert!(hid_interface_paths(&[0, 0, 0]).is_empty());
    assert_eq!(hid_interface_paths(&[7, 8]), vec![vec![7u16, 8, 0]]);
    assert_eq!(hid_interface_paths(&[0, 9]), vec![vec![9u16, 0]]);
}

#[test]
fn nul_position_finds_first_nul() {
    assert_eq!(nul_position(&[1, 2, 0, 3, 0]), 2);
    assert_eq!(nul_position(&[1, 2, 3]), 3);
    assert_eq!(nul_position(&[0]), 0);
    assert_eq!(nul_position(&[]), 0);
}

#[test]
fn product_name_decodes_up_to_nul() {
    let mut buf = [0u16; 127];
    let name: Vec<u16> = "Keychron Ultra-Link 8K".encode_utf16().collect();
    buf[..name.len()].copy_from_slice(&name);
    assert_eq!(product_name(true, &buf), "Keychron Ultra-Link 8K");
}

#[test]
fn product_name_replaces_invalid_units() {
    let buf = [0x004Du16, 0xD800, 0x0036, 0];
    assert_eq!(product_name(true, &buf), "M\u{FFFD}6");
}

#[test]
fn product_name_unknown_when_unreadable() {
    assert_eq!(product_name(false, &[0x41, 0]), "unknown");
}

#[test]
fn label_shows_pid_in_four_hex_digits() {
    assert_eq!(
        device_label("Keychron Ultra-Link 8K", 0xd028),
        "Keychron Ultra-Link 8K (pid 0xd028)"
    );
    assert_eq!(device_label("x", 0x49), "x (pid 0x0049)");
}

#[test]
fn skip_message_lists_layout() {
    let info = Info {
        pid: 0xd028,
        usage_page: 0xFF60,
        usage: 0x61,
        in_len: 33,
        out_len: 33,
        declares_reports: false,
    };
    assert_eq!(
        info.skip_message("Dongle (pid 0xd028)"),
        "skip  Dongle (pid 0xd028)  page 0xff60:0x0061  in 33 out 33  reports declared: false"
    );
    assert_eq!(
        mouse_info().skip_message("M"),
        "skip  M  page 0xffc1:0x0001  in 64 out 64  reports declared: true"
    );
}

#[test]
fn inspect_builds_info_only_for_readable_keychron_collections() {
    let ok = HIDP_STATUS_SUCCESS;
    assert_eq!(
        inspect(true, 0x3434, true, ok, 0xd028, 0xFFC1, 1, 64, 64, true, true),
        Some(mouse_info())
    );
    let half = inspect(true, 0x3434, true, ok, 0xd028, 0xFFC1, 1, 64, 64, true, false).unwrap();
    assert!(!half.declares_reports);
    assert_eq!(inspect(false, 0x3434, true, ok, 1, 2, 3, 4, 5, true, true), None);
    assert_eq!(inspect(true, 0x046d, true, ok, 1, 2, 3, 4, 5, true, true), None);
    assert_eq!(inspect(true, 0x3434, false, ok, 1, 2, 3, 4, 5, true, true), None);
    assert_eq!(inspect(true, 0x3434, true, 0, 1, 2, 3, 4, 5, true, true), None);
}

#[test]
fn keychron_vendor_check() {
    assert!(is_keychron_device(true, 0x3434));
    assert!(!is_keychron_device(true, 0x046d));
    assert!(!is_keychron_device(false, 0x3434));
}

#[test]
fn declared_report_ids() {
    let ids = [0xB3u8, 0xB5, 0xB4];
    assert!(declares_report(HIDP_STATUS_SUCCESS, &ids, 3, 0xB4));
    assert!(!declares_report(HIDP_STATUS_SUCCESS, &ids, 2, 0xB4));
    assert!(declares_report(HIDP_STATUS_SUCCESS, &ids, 1, 0xB3));
    assert!(!declares_report(HIDP_STATUS_SUCCESS, &ids, 0, 0xB3));
    assert!(!declares_report(0, &ids, 3, 0xB4));
    assert!(hidp_succeeded(0x0011_0000));
    assert!(!hidp_succeeded(0));
}

#[test]
fn log_line_prefixes_time() {
    assert_eq!(log_line(0, 55, 42, "found M6"), "00:55:42  found M6");
    assert_eq!(log_line(13, 5, 9, ""), "13:05:09  ");
    assert_eq!(log_line(123, 0, 0, "x"), "123:00:00  x");
}

#[test]
fn decimal_and_hex_helpers() {
    let mut s = String::from("n=");
    push_decimal(&mut s, 0);
    push_decimal(&mut s, 18446744073709551615);
    assert_eq!(s, "n=018446744073709551615");
    let mut s = String::new();
    push_padded_decimal(&mut s, 7, 4, '*');
    push_padded_decimal(&mut s, 12345, 2, '0');
    assert_eq!(s, "***712345");
    let mut s = String::new();
    push_hex4(&mut s, 0xABCD);
    push_hex4(&mut s, 0x0001);
    assert_eq!(s, "abcd0001");
}
