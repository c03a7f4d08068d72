use vstd::prelude::*;
use crate::paths::{nul_position, nul_terminated_len};
use crate::report::REPORT_LEN;
use crate::text::{decimal, push_char, push_decimal, push_hex4, hex4_text};

verus! {

/// Vendor ID of Keychron devices.
pub const KEYCHRON_VID: u16 = 0x3434;
/// Usage page of the collection that speaks the mouse protocol.
pub const MOUSE_USAGE_PAGE: u16 = 0xFFC1;
/// Usage of the collection that speaks the mouse protocol.
pub const MOUSE_USAGE: u16 = 0x0001;
/// Usage page of the QMK/VIA raw HID collection, where command `0x06` resets the keymap.
pub const VIA_USAGE_PAGE: u16 = 0xFF60;
/// Status that the HID parsing functions return on success.
pub const HIDP_STATUS_SUCCESS: i32 = 0x0011_0000;

/// What a HID collection declares about itself.
#[derive(PartialEq, Eq, Structural, Clone, Copy, Debug)]
pub struct Info {
    pub pid: u16,
    pub usage_page: u16,
    pub usage: u16,
    pub in_len: u16,
    pub out_len: u16,
    /// The collection declares both the command output report and the reply input report.
    pub declares_reports: bool,
}

impl Info {
    /// The layout of the mouse protocol: usage page and usage, 64-byte reports both ways,
    /// and the command and reply reports declared.
    pub open spec fn spec_is_mouse_channel(self) -> bool {
        &&& self.usage_page == MOUSE_USAGE_PAGE
        &&& self.usage == MOUSE_USAGE
        &&& self.in_len == REPORT_LEN
        &&& self.out_len == REPORT_LEN
        &&& self.declares_reports
    }

    /// Whether the collection's layout exactly matches the mouse protocol, so that the
    /// read-only status request may be sent to it. The VIA collection never matches.
    pub fn is_mouse_channel(&self) -> (r: bool)
        ensures
            r == self.spec_is_mouse_channel(),
            self.usage_page == VIA_USAGE_PAGE ==> !r,
    {
        self.usage_page == MOUSE_USAGE_PAGE && self.usage == MOUSE_USAGE && self.in_len as usize
            == REPORT_LEN && self.out_len as usize == REPORT_LEN && self.declares_reports
    }

    /// The log line of a collection that is skipped.
    pub open spec fn skip_text(self, label: Seq<char>) -> Seq<char> {
        "skip  "@ + label + "  page 0x"@ + hex4_text(self.usage_page) + ":0x"@ + hex4_text(
            self.usage,
        ) + "  in "@ + decimal(self.in_len as nat) + " out "@ + decimal(self.out_len as nat)
            + "  reports declared: "@ + if self.declares_reports {
            "true"@
        } else {
            "false"@
        }
    }

    /// Describes a skipped collection: its label, usage page and usage, report lengths
    /// and whether it declares the mouse reports.
    pub fn skip_message(&self, label: &str) -> (r: String)
        ensures
            r@ == self.skip_text(label@),
    {
        let mut s = String::from_str("skip  ");
        s.append(label);
        s.append("  page 0x");
        push_hex4(&mut s, self.usage_page);
        s.append(":0x");
        push_hex4(&mut s, self.usage);
        s.append("  in ");
        push_decimal(&mut s, self.in_len as u64);
        s.append(" out ");
        push_decimal(&mut s, self.out_len as u64);
        s.append("  reports declared: ");
        if self.declares_reports {
            s.append("true");
        } else {
            s.append("false");
        }
        assert(s@ =~= self.skip_text(label@));
        s
    }
}

/// What to do with a Keychron HID collection.
#[derive(PartialEq, Eq, Clone, Debug)]
pub enum CollectionAction {
    /// Open it for reading and writing: it is a mouse channel.
    Open,
    /// Leave it alone and log this line.
    Skip(String),
}

impl Info {
    /// Decides what to do with the collection labelled `label`: it is opened only when its
    /// layout exactly matches the mouse protocol; otherwise it is skipped with a log line.
    pub fn triage(&self, label: &str) -> (action: CollectionAction)
        ensures
            action is Open <==> self.spec_is_mouse_channel(),
            action matches CollectionAction::Skip(line) ==> line@ == self.skip_text(label@),
    {
        if self.is_mouse_channel() {
            CollectionAction::Open
        } else {
            CollectionAction::Skip(self.skip_message(label))
        }
    }
}

/// Whether a collection belongs to a Keychron device: its attributes were read and its
/// vendor ID is Keychron's.
pub fn is_keychron_device(attributes_read: bool, vendor_id: u16) -> (r: bool)
    ensures
        r == (attributes_read && vendor_id == KEYCHRON_VID),
{
    attributes_read && vendor_id == KEYCHRON_VID
}

/// Whether a HID parsing call succeeded.
pub fn hidp_succeeded(status: i32) -> (r: bool)
    ensures
        r == (status == HIDP_STATUS_SUCCESS),
{
    status == HIDP_STATUS_SUCCESS
}

/// What a collection is, from its attributes and parsed report descriptor: `None` unless
/// the attributes were read, the vendor is Keychron, the parsed descriptor was obtained and
/// its capabilities were read; then its product ID, usage page and usage, report lengths,
/// and whether it declares both the command report (`declares_command`, in the output
/// value capabilities) and the reply report (`declares_reply`, in the input ones).
pub fn inspect(
    attributes_read: bool,
    vendor_id: u16,
    preparsed_read: bool,
    caps_status: i32,
    pid: u16,
    usage_page: u16,
    usage: u16,
    in_len: u16,
    out_len: u16,
    declares_command: bool,
    declares_reply: bool,
) -> (r: Option<Info>)
    ensures
        r == if attributes_read && vendor_id == KEYCHRON_VID && preparsed_read && caps_status
            == HIDP_STATUS_SUCCESS {
            Some(
                Info {
                    pid,
                    usage_page,
                    usage,
                    in_len,
                    out_len,
                    declares_reports: declares_command && declares_reply,
                },
            )
        } else {
            None
        },
{
    if !is_keychron_device(attributes_read, vendor_id) || !preparsed_read || !hidp_succeeded(
        caps_status,
    ) {
        return None;
    }
    Some(
        Info {
            pid,
            usage_page,
            usage,
            in_len,
            out_len,
            declares_reports: declares_command && declares_reply,
        },
    )
}

/// Whether the value capabilities list the report ID: the call succeeded and one of the
/// first `len` entries has that ID.
pub fn declares_report(status: i32, report_ids: &[u8], len: u16, report_id: u8) -> (r: bool)
    requires
        status == HIDP_STATUS_SUCCESS ==> len <= report_ids@.len(),
    ensures
        r == (status == HIDP_STATUS_SUCCESS && exists|i: int|
            0 <= i < len && report_ids@[i] == report_id),
{
    if !hidp_succeeded(status) {
        return false;
    }
    let n = len as usize;
    let mut i: usize = 0;
    while i < n
        invariant
            n == len,
            status == HIDP_STATUS_SUCCESS,
            n <= report_ids@.len(),
            i <= n,
            forall|j: int| 0 <= j < i ==> report_ids@[j] != report_id,
        decreases n - i,
    {
        if report_ids[i] == report_id {
            assert(report_ids@[i as int] == report_id);
            return true;
        }
        i = i + 1;
    }
    false
}

/// The label of a collection: product name and product ID, e.g.
/// `Keychron Ultra-Link 8K (pid 0xd028)`.
pub open spec fn label_text(name: Seq<char>, pid: u16) -> Seq<char> {
    name + " (pid 0x"@ + hex4_text(pid) + ")"@
}

/// Labels a collection by its product name and product ID.
pub fn device_label(name: &str, pid: u16) -> (r: String)
    ensures
        r@ == label_text(name@, pid),
{
    let mut s = String::from_str(name);
    s.append(" (pid 0x");
    push_hex4(&mut s, pid);
    s.append(")");
    assert(s@ =~= label_text(name@, pid));
    s
}

/// UTF-16 decoding in which invalid data is replaced: a unit outside the surrogate range is
/// the character with that code point; a high surrogate followed by a low surrogate is the
/// supplementary character they encode; any other surrogate becomes U+FFFD.
pub open spec fn utf16_lossy(units: Seq<u16>) -> Seq<char>
    decreases units.len(),
{
    if units.len() == 0 {
        Seq::empty()
    } else if units[0] < 0xD800 || units[0] >= 0xE000 {
        seq![units[0] as char] + utf16_lossy(units.drop_first())
    } else if units[0] < 0xDC00 && units.len() >= 2 && 0xDC00 <= units[1] && units[1] < 0xE000 {
        seq![(0x10000 + (units[0] - 0xD800) * 0x400 + (units[1] - 0xDC00)) as char]
            + utf16_lossy(units.subrange(2, units.len() as int))
    } else {
        seq!['\u{FFFD}'] + utf16_lossy(units.drop_first())
    }
}

/// Decodes UTF-16 by calling std's `String::from_utf16_lossy`, which the contract trusts to
/// decode as UTF-16 does, each unpaired surrogate replaced by U+FFFD.
#[verifier::external_body]
fn decode_utf16_lossy(units: &[u16]) -> (r: String)
    ensures
        r@ == utf16_lossy(units@),
{
    String::from_utf16_lossy(units)
}

/// The product name in a product string buffer: the units before the first NUL, decoded;
/// `unknown` when the product string could not be read.
pub fn product_name(read_ok: bool, buf: &[u16]) -> (r: String)
    ensures
        r@ == if read_ok {
            utf16_lossy(buf@.take(nul_terminated_len(buf@) as int))
        } else {
            "unknown"@
        },
{
    if !read_ok {
        return String::from_str("unknown");
    }
    let len = nul_position(buf);
    let (head, _) = buf.split_at(len);
    decode_utf16_lossy(head)
}


/// A collection is a mouse channel exactly when it is on usage page `0xFFC1` with usage
/// `0x0001`, has 64-byte input and output reports and declares the mouse reports, whatever
/// its product ID: the dongle and the mouse on its cable are both accepted, and two
/// collections that differ only in product ID are treated alike.
pub proof fn lemma_mouse_channel_layout(info: Info, other_pid: u16)
    ensures
        info.spec_is_mouse_channel() <==> (info.usage_page == 0xFFC1u16 && info.usage == 0x0001u16
            && info.in_len == 64u16 && info.out_len == 64u16 && info.declares_reports),
        (Info { pid: other_pid, ..info }).spec_is_mouse_channel() == info.spec_is_mouse_channel(),
        (Info {
            pid: other_pid,
            usage_page: 0xFFC1u16,
            usage: 0x0001u16,
            in_len: 64u16,
            out_len: 64u16,
            declares_reports: true,
        }).spec_is_mouse_channel(),
{
}

} // verus!
