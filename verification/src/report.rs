use vstd::prelude::*;
use crate::text::{decimal, hex, hex_text, pad_left, push_padded_decimal};

verus! {

/// Length of every report on the mouse channel: 1 byte report ID + 63 bytes data.
pub const REPORT_LEN: usize = 64;
/// Output report that carries mouse commands.
pub const REPORT_COMMAND: u8 = 0xB3;
/// Input report that carries replies to mouse commands.
pub const REPORT_REPLY: u8 = 0xB4;
/// Input report that carries unsolicited notifications.
pub const REPORT_EVENT: u8 = 0xB6;
/// The read-only status command; its reply holds the power byte.
pub const CMD_STATUS: u8 = 0x06;
/// The pushed power notification.
pub const EVENT_POWER: u8 = 0xE2;
/// Battery byte in pushes when the dongle has no mouse connected.
pub const NO_DATA: u8 = 0xFF;
/// Charge state byte of a push while the mouse is charging.
pub const PUSH_CHARGING: u8 = 0x03;
/// Index of the power byte in a status reply (report ID included).
pub const POWER_OFFSET: usize = 20;

/// What a report read from the mouse channel carries.
#[derive(PartialEq, Eq, Structural, Clone, Copy, Debug)]
pub enum Report {
    /// Reply to the status command, with its power byte.
    StatusReply { power: u8 },
    /// Pushed power notification: charge state and battery percent.
    PowerPush { state: u8, percent: u8 },
    /// Anything else.
    Other,
}

/// How a report is read: a status reply needs the power byte (offset 20) to be present;
/// a power push needs its state and percent bytes (offsets 4 and 5).
pub open spec fn report_kind(r: Seq<u8>) -> Report {
    if r.len() > POWER_OFFSET && r[0] == REPORT_REPLY && r[1] == CMD_STATUS {
        Report::StatusReply { power: r[POWER_OFFSET as int] }
    } else if r.len() >= 6 && r[0] == REPORT_EVENT && r[1] == EVENT_POWER {
        Report::PowerPush { state: r[4], percent: r[5] }
    } else {
        Report::Other
    }
}

/// Battery percent of a status reply's power byte: bits 0 to 6.
pub open spec fn power_percent(power: u8) -> u8 {
    power & 0x7f
}

/// Charging flag of a status reply's power byte: bit 7.
pub open spec fn power_charging(power: u8) -> bool {
    power & 0x80 != 0
}

/// Classifies a report read from the mouse channel (report ID at index 0).
pub fn classify_report(report: &[u8]) -> (r: Report)
    ensures
        r == report_kind(report@),
{
    if report.len() > POWER_OFFSET && report[0] == REPORT_REPLY && report[1] == CMD_STATUS {
        Report::StatusReply { power: report[POWER_OFFSET] }
    } else if report.len() >= 6 && report[0] == REPORT_EVENT && report[1] == EVENT_POWER {
        Report::PowerPush { state: report[4], percent: report[5] }
    } else {
        Report::Other
    }
}

/// The status request: the status command on the command report, zero padded.
pub open spec fn status_request_bytes() -> Seq<u8> {
    seq![REPORT_COMMAND, CMD_STATUS] + Seq::new((REPORT_LEN - 2) as nat, |i: int| 0u8)
}

/// Builds the read-only status request that asks the mouse for its battery.
pub fn status_request() -> (r: [u8; 64])
    ensures
        r@ == status_request_bytes(),
{
    let mut report = [0u8; 64];
    report[0] = REPORT_COMMAND;
    report[1] = CMD_STATUS;
    assert(report@ =~= status_request_bytes());
    report
}

/// Text of a battery reading: percent right-aligned in 3 columns, then the charge state.
pub open spec fn battery_text(percent: u8, charging: bool) -> Seq<char> {
    pad_left(decimal(percent as nat), 3, ' ') + "%  "@ + if charging {
        "charging"@
    } else {
        "not charging"@
    }
}

/// Formats a battery reading, e.g. ` 91%  not charging`.
pub fn battery(percent: u8, charging: bool) -> (r: String)
    ensures
        r@ == battery_text(percent, charging),
{
    let mut s = String::new();
    push_padded_decimal(&mut s, percent as u64, 3, ' ');
    s.append("%  ");
    if charging {
        s.append("charging");
    } else {
        s.append("not charging");
    }
    assert(s@ =~= battery_text(percent, charging));
    s
}

/// Length of `bytes` without its trailing zero bytes.
pub open spec fn trimmed_len(bytes: Seq<u8>) -> nat
    decreases bytes.len(),
{
    if bytes.len() == 0 {
        0
    } else if bytes.last() != 0 {
        bytes.len()
    } else {
        trimmed_len(bytes.drop_last())
    }
}

/// `bytes` without trailing zero bytes: the prefix that ends at the last nonzero byte.
pub fn trim_zeros(bytes: &[u8]) -> (r: &[u8])
    ensures
        r@ == bytes@.take(trimmed_len(bytes@) as int),
        r.len() == 0 || r@.last() != 0,
        forall|i: int| r@.len() <= i < bytes@.len() ==> bytes@[i] == 0,
{
    let mut end: usize = bytes.len();
    assert(bytes@.take(end as int) =~= bytes@);
    while end > 0 && bytes[end - 1] == 0
        invariant
            end <= bytes@.len(),
            trimmed_len(bytes@.take(end as int)) == trimmed_len(bytes@),
            forall|i: int| end <= i < bytes@.len() ==> bytes@[i] == 0,
        decreases end,
    {
        assert(bytes@.take(end as int).drop_last() =~= bytes@.take(end - 1));
        end = end - 1;
    }
    proof {
        if end > 0 {
            assert(bytes@.take(end as int).last() == bytes@[end - 1]);
        }
    }
    let (head, _) = bytes.split_at(end);
    head
}

/// Status text of a power push: the battery reading, or that the dongle lost the mouse.
pub open spec fn push_status_text(state: u8, percent: u8) -> Seq<char> {
    if percent == NO_DATA {
        "mouse asleep or disconnected"@
    } else {
        battery_text(percent, state == PUSH_CHARGING)
    }
}

/// The log line of a report read from the channel named `name`.
pub open spec fn report_text(name: Seq<char>, r: Seq<u8>) -> Seq<char> {
    match report_kind(r) {
        Report::StatusReply { power } => name + "  poll  "@ + battery_text(
            power_percent(power),
            power_charging(power),
        ),
        Report::PowerPush { state, percent } => name + "  push  "@ + push_status_text(
            state,
            percent,
        ),
        Report::Other => name + "  other ["@ + hex_text(r.take(trimmed_len(r) as int)) + "]"@,
    }
}

/// Describes a report read from the channel named `name`, as it is logged.
pub fn describe_report(name: &str, report: &[u8]) -> (r: String)
    ensures
        r@ == report_text(name@, report@),
{
    let mut s = String::from_str(name);
    match classify_report(report) {
        Report::StatusReply { power } => {
            s.append("  poll  ");
            let b = battery(power & 0x7f, power & 0x80 != 0);
            s.append(b.as_str());
        },
        Report::PowerPush { state, percent } => {
            s.append("  push  ");
            if percent == NO_DATA {
                s.append("mouse asleep or disconnected");
            } else {
                let b = battery(percent, state == PUSH_CHARGING);
                s.append(b.as_str());
            }
        },
        Report::Other => {
            s.append("  other [");
            let h = hex(trim_zeros(report));
            s.append(h.as_str());
            s.append("]");
        },
    }
    assert(s@ =~= report_text(name@, report@));
    s
}

/// Decoding the power byte of a status reply loses nothing: bits 0 to 6 hold the percent
/// (below 128), bit 7 the charging flag, and together they give back the byte.
pub proof fn lemma_power_byte_roundtrip(power: u8)
    ensures
        power_percent(power) < 128,
        power_percent(power) as int + (if power_charging(power) { 128int } else { 0int })
            == power as int,
{
    assert(power & 0x7f < 128) by (bit_vector);
    assert((power & 0x80 != 0) ==> (power & 0x7f) as int + 128 == power as int) by (bit_vector);
    assert((power & 0x80 == 0) ==> (power & 0x7f) as int == power as int) by (bit_vector);
}


/// A report is a status reply exactly when it is an input report `0xB4` that echoes the
/// status command `0x06` and is long enough to hold the power byte at index 20, which it
/// carries; a `0xB4` report that echoes any other command (such as the firmware command
/// `0x04`) is not. A report is a power push exactly when it is not a status reply, is at
/// least 6 bytes long and starts `0xB6 0xE2`; it carries the charge state at index 4 and
/// the percent at index 5. Everything else is another report.
pub proof fn lemma_report_classification(r: Seq<u8>)
    ensures
        (report_kind(r) is StatusReply) <==> (r.len() > 20 && r[0] == 0xB4u8 && r[1] == 0x06u8),
        report_kind(r) is StatusReply ==> report_kind(r)->power == r[20],
        r.len() >= 2 && r[0] == 0xB4u8 && r[1] != 0x06u8 ==> report_kind(r) is Other,
        (report_kind(r) is PowerPush) <==> (!(r.len() > 20 && r[0] == 0xB4u8 && r[1] == 0x06u8)
            && r.len() >= 6 && r[0] == 0xB6u8 && r[1] == 0xE2u8),
        report_kind(r) is PowerPush ==> report_kind(r)->state == r[4] && report_kind(r)->percent
            == r[5],
{
}

} // verus!
