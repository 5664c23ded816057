//! The description from which the native aggregate device is created.

use crate::aggregate::AggregateDevice;
use vstd::prelude::*;
use vstd::string::StringExecFns;

verus! {

/// What the native layer is told about the aggregate device to create.
#[derive(Debug)]
pub struct AggregateDescription {
    /// The name of the device.
    pub name: String,
    /// The UID of the device.
    pub uid: String,
    /// The UID of the main sub-device.
    pub main_sub_device: String,
    /// Whether the device is hidden from other processes.
    pub is_private: bool,
    /// Whether the sub-devices are stacked.
    pub is_stacked: bool,
    /// Whether the taps start with the device.
    pub tap_auto_start: bool,
    /// The UIDs of the sub-devices, the first of them first.
    pub sub_device_list: Vec<String>,
    /// The UID of the device that gives the clock.
    pub clock_device: String,
    /// The UIDs of the taps.
    pub tap_list: Vec<String>,
}

/// An `AggregateDescription` with its texts as sequences of characters.
pub struct AggregateDescriptionView {
    pub name: Seq<char>,
    pub uid: Seq<char>,
    pub main_sub_device: Seq<char>,
    pub is_private: bool,
    pub is_stacked: bool,
    pub tap_auto_start: bool,
    pub sub_device_list: Seq<Seq<char>>,
    pub clock_device: Seq<char>,
    pub tap_list: Seq<Seq<char>>,
}

impl View for AggregateDescription {
    type V = AggregateDescriptionView;

    open spec fn view(&self) -> AggregateDescriptionView {
        AggregateDescriptionView {
            name: self.name@,
            uid: self.uid@,
            main_sub_device: self.main_sub_device@,
            is_private: self.is_private,
            is_stacked: self.is_stacked,
            tap_auto_start: self.tap_auto_start,
            sub_device_list: self.sub_device_list@.map_values(|s: String| s@),
            clock_device: self.clock_device@,
            tap_list: self.tap_list@.map_values(|s: String| s@),
        }
    }
}

/// The character of the decimal digit `d`.
pub open spec fn spec_digit(d: int) -> char {
    ('0' as int + d) as char
}

/// The decimal numeral of `n`, without leading zeros.
pub open spec fn spec_decimal(n: nat) -> Seq<char>
    decreases n,
{
    if n < 10 {
        seq![spec_digit(n as int)]
    } else {
        spec_decimal(n / 10).push(spec_digit((n % 10) as int))
    }
}

/// The character of the hexadecimal digit `d`, in lower case.
pub open spec fn spec_hex_digit(d: int) -> char {
    if d < 10 {
        ('0' as int + d) as char
    } else {
        ('a' as int + d - 10) as char
    }
}

/// The 32 hexadecimal digits of 16 bytes, the high digit of each byte first.
pub open spec fn spec_simple(bytes: Seq<u8>) -> Seq<char> {
    Seq::new(
        32,
        |i: int|
            spec_hex_digit(
                if i % 2 == 0 {
                    bytes[i / 2] as int / 16
                } else {
                    bytes[i / 2] as int % 16
                },
            ),
    )
}

/// The hyphenated form of a UUID of 16 bytes: its 32 hexadecimal digits in
/// lower case in groups of 8, 4, 4, 4 and 12, with a hyphen between groups.
pub open spec fn spec_hyphenated(bytes: Seq<u8>) -> Seq<char> {
    let digits = spec_simple(bytes);
    digits.subrange(0, 8) + seq!['-'] + digits.subrange(8, 12) + seq!['-'] + digits.subrange(
        12,
        16,
    ) + seq!['-'] + digits.subrange(16, 20) + seq!['-'] + digits.subrange(20, 32)
}

/// The name of the aggregate device for the tap `tap_id`.
pub open spec fn spec_device_name(tap_id: u32) -> Seq<char> {
    "Tap-"@ + spec_decimal(tap_id as nat)
}

/// The description of the aggregate device for the tap `tap_id` with the
/// UID `tap_uid`, the input device `input_uid` and the output device
/// `output_uid`, under the UUID `uuid`. The device is private, not stacked,
/// and starts its taps. The output device is its main sub-device. The input
/// device is the first and only entry of its sub-device list and gives the
/// clock. The tap is its only tap.
pub open spec fn spec_aggregate_description(
    tap_id: u32,
    tap_uid: Seq<char>,
    input_uid: Seq<char>,
    output_uid: Seq<char>,
    uuid: Seq<u8>,
) -> AggregateDescriptionView {
    AggregateDescriptionView {
        name: spec_device_name(tap_id),
        uid: spec_hyphenated(uuid),
        main_sub_device: output_uid,
        is_private: true,
        is_stacked: false,
        tap_auto_start: true,
        sub_device_list: seq![input_uid],
        clock_device: input_uid,
        tap_list: seq![tap_uid],
    }
}

/// `Uuid::from_bytes` of the crate `uuid` takes the 16 bytes as they are,
/// and the `to_string` of its `hyphenated` form writes them as 32 lower-case
/// hexadecimal digits, the high digit of each byte first, with hyphens
/// behind the 8th, 12th, 16th and 20th digit.
#[verifier::external_body]
fn hyphenated(bytes: [u8; 16]) -> (text: String)
    ensures
        text@ == spec_hyphenated(bytes@),
{
    uuid::Uuid::from_bytes(bytes).hyphenated().to_string()
}

/// The character of the decimal digit `d`.
fn digit(d: u32) -> (c: char)
    requires
        d < 10,
    ensures
        c == spec_digit(d as int),
{
    if d == 0 {
        '0'
    } else if d == 1 {
        '1'
    } else if d == 2 {
        '2'
    } else if d == 3 {
        '3'
    } else if d == 4 {
        '4'
    } else if d == 5 {
        '5'
    } else if d == 6 {
        '6'
    } else if d == 7 {
        '7'
    } else if d == 8 {
        '8'
    } else {
        '9'
    }
}

/// Appends the decimal numeral of `n` to `text`.
pub fn push_decimal(text: &mut String, n: u32)
    ensures
        final(text)@ == old(text)@ + spec_decimal(n as nat),
    decreases n,
{
    if n >= 10 {
        push_decimal(text, n / 10);
    }
    text.push(digit(n % 10));
    proof {
        if n >= 10 {
            assert(old(text)@ + spec_decimal(n as nat / 10).push(spec_digit((n % 10) as int))
                =~= (old(text)@ + spec_decimal(n as nat / 10)).push(spec_digit((n % 10) as int)));
        } else {
            assert(old(text)@ + seq![spec_digit(n as int)] =~= old(text)@.push(
                spec_digit(n as int),
            ));
        }
    }
}

impl AggregateDevice {
    /// Describes the aggregate device to create for the tap `tap_id`.
    pub fn create_aggregate_description(
        tap_id: u32,
        tap_uid: String,
        input_uid: String,
        output_uid: String,
        uuid: [u8; 16],
    ) -> (description: AggregateDescription)
        ensures
            description@ == spec_aggregate_description(
                tap_id,
                tap_uid@,
                input_uid@,
                output_uid@,
                uuid@,
            ),
    {
        let mut name = String::from_str("Tap-");
        push_decimal(&mut name, tap_id);
        let uid = hyphenated(uuid);
        let clock_device = input_uid.clone();
        let mut sub_device_list: Vec<String> = Vec::new();
        sub_device_list.push(input_uid);
        let mut tap_list: Vec<String> = Vec::new();
        tap_list.push(tap_uid);
        let description = AggregateDescription {
            name,
            uid,
            main_sub_device: output_uid,
            is_private: true,
            is_stacked: false,
            tap_auto_start: true,
            sub_device_list,
            clock_device,
            tap_list,
        };
        assert(description@.sub_device_list =~= seq![input_uid@]);
        assert(description@.tap_list =~= seq![tap_uid@]);
        description
    }
}

} // verus!
