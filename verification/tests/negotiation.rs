use media_capture::aggregate::AggregateDevice;
use media_capture::description::{push_decimal, AggregateDescription};
use media_capture::error::CoreAudioError;
use media_capture::property::{
    get_global_main_property, get_global_main_property_array, global_main_address,
    property_status, PropertyAddress,
};
use media_capture::rate::{highest, select_sample_rate, supports, RateRange};

fn range(minimum: u32, maximum: u32) -> RateRange {
    RateRange { minimum, maximum }
}

#[test]
fn fallback_is_the_range_maximum_where_no_common_rate_fits() {
    assert_eq!(select_sample_rate(48000, &[range(44101, 44200)]), 44200);
    assert_eq!(select_sample_rate(48000, &[range(44000, 44099)]), 44099);
    assert_eq!(select_sample_rate(48000, &[range(44200, 44200)]), 44200);
}

#[test]
fn common_rate_inside_the_range_comes_before_the_range_maximum() {
    assert_eq!(select_sample_rate(48000, &[range(44000, 44200)]), 44100);
    assert_eq!(select_sample_rate(48000, &[range(44100, 44200)]), 44100);
    assert_eq!(select_sample_rate(48000, &[range(44000, 44100)]), 44100);
}

#[test]
fn supported_preferred_rate_is_kept() {
    assert_eq!(select_sample_rate(48000, &[range(8000, 192000)]), 48000);
    assert_eq!(select_sample_rate(12345, &[range(1, 2), range(12345, 12345)]), 12345);
    assert_eq!(select_sample_rate(22050, &[range(22050, 48000)]), 22050);
}

#[test]
fn common_rates_are_tried_in_their_order() {
    assert_eq!(select_sample_rate(1, &[range(8000, 192000)]), 48000);
    assert_eq!(select_sample_rate(1, &[range(8000, 47999)]), 44100);
    assert_eq!(select_sample_rate(1, &[range(50000, 192000)]), 96000);
    assert_eq!(select_sample_rate(1, &[range(50000, 90000)]), 88200);
    assert_eq!(select_sample_rate(1, &[range(8000, 30000)]), 24000);
    assert_eq!(select_sample_rate(1, &[range(8000, 23000)]), 22050);
    assert_eq!(select_sample_rate(1, &[range(22050, 22050), range(96000, 96000)]), 96000);
    assert_eq!(select_sample_rate(1, &[range(22050, 22050), range(24000, 24000)]), 24000);
}

#[test]
fn fallback_is_the_greatest_upper_end_of_all_ranges() {
    assert_eq!(select_sample_rate(48000, &[range(8000, 16000), range(30000, 32000), range(11025, 11025)]), 32000);
    assert_eq!(select_sample_rate(48000, &[range(100, 100)]), 100);
    assert_eq!(highest(&[range(8000, 16000), range(30000, 32000), range(11025, 11025)]), 32000);
    assert_eq!(highest(&[]), 0);
}

#[test]
fn nothing_advertised_leaves_the_preferred_rate() {
    assert_eq!(select_sample_rate(12345, &[]), 12345);
}

#[test]
fn chosen_rate_is_advertised() {
    let sets = [
        vec![range(44000, 44200)],
        vec![range(1, 5), range(7, 9)],
        vec![range(96000, 96000), range(0, 10)],
        vec![range(8000, 192000)],
    ];
    for ranges in sets.iter() {
        for preferred in [0u32, 3, 8, 44100, 48000, 96000, u32::MAX] {
            let chosen = select_sample_rate(preferred, ranges);
            assert!(supports(ranges, chosen));
            assert!(ranges.iter().any(|r| r.contains(chosen)));
        }
    }
}

#[test]
fn range_includes_both_ends() {
    let r = range(10, 20);
    assert!(r.contains(10) && r.contains(20) && r.contains(15));
    assert!(!r.contains(9) && !r.contains(21));
    assert!(!range(20, 10).contains(15));
    assert!(!supports(&[], 0));
}

#[test]
fn property_address_is_global_and_main() {
    assert_eq!(
        global_main_address(0x6E737274),
        PropertyAddress { selector: 0x6E737274, scope: 0x676C6F62, element: 0 }
    );
}

#[test]
fn property_status_is_surfaced() {
    assert_eq!(property_status(0), Ok(()));
    assert_eq!(property_status(-50), Err(CoreAudioError::PropertyAccessFailed(-50)));
    assert_eq!(property_status(2003332927), Err(CoreAudioError::PropertyAccessFailed(2003332927)));
}

#[test]
fn property_size_must_match_the_width() {
    let address = global_main_address(7);
    assert_eq!(get_global_main_property(7, 8, 0, 8), Ok(address));
    assert_eq!(get_global_main_property(7, 8, 12, 8), Err(CoreAudioError::PropertyAccessFailed(12)));
    assert_eq!(get_global_main_property(7, 8, 12, 0), Err(CoreAudioError::PropertyAccessFailed(12)));
    let bad_size = Err(CoreAudioError::PropertyAccessFailed(0x2173697A));
    assert_eq!(get_global_main_property(7, 8, 0, 0), bad_size);
    assert_eq!(get_global_main_property(7, 8, 0, 4), bad_size);
    assert_eq!(get_global_main_property(7, 8, 0, 16), bad_size);
    assert_eq!(get_global_main_property(7, 0, 0, 0), bad_size);
}

#[test]
fn array_property_holds_whole_values() {
    let address = global_main_address(7);
    assert_eq!(get_global_main_property_array(7, 16, 0, 16), Ok((address, 1)));
    assert_eq!(get_global_main_property_array(7, 16, 0, 48), Ok((address, 3)));
    assert_eq!(get_global_main_property_array(7, 16, 3, 48), Err(CoreAudioError::PropertyAccessFailed(3)));
    let bad_size = Err(CoreAudioError::PropertyAccessFailed(0x2173697A));
    assert_eq!(get_global_main_property_array(7, 16, 0, 0), bad_size);
    assert_eq!(get_global_main_property_array(7, 16, 0, 40), bad_size);
    assert_eq!(get_global_main_property_array(7, 0, 0, 40), bad_size);
}

#[test]
fn description_embeds_the_three_uids() {
    let uuid = [
        0xa1, 0xa2, 0xa3, 0xa4, 0xb1, 0xb2, 0xc1, 0xc2, 0xd1, 0xd2, 0xd3, 0xd4, 0xd5, 0xd6, 0xd7, 0xd8,
    ];
    let d: AggregateDescription = AggregateDevice::create_aggregate_description(
        117,
        String::from("tap-uid"),
        String::from("BuiltInMicrophoneDevice"),
        String::from("BuiltInSpeakerDevice"),
        uuid,
    );
    assert_eq!(d.name, "Tap-117");
    assert_eq!(d.uid, "a1a2a3a4-b1b2-c1c2-d1d2-d3d4d5d6d7d8");
    assert_eq!(d.main_sub_device, "BuiltInSpeakerDevice");
    assert!(d.is_private);
    assert!(!d.is_stacked);
    assert!(d.tap_auto_start);
    assert_eq!(d.sub_device_list, vec![String::from("BuiltInMicrophoneDevice")]);
    assert_eq!(d.clock_device, "BuiltInMicrophoneDevice");
    assert_eq!(d.tap_list, vec![String::from("tap-uid")]);
}

#[test]
fn description_uid_is_hyphenated_lower_case() {
    let mut uuid = [0u8; 16];
    for (i, b) in uuid.iter_mut().enumerate() {
        *b = (i as u8) * 17;
    }
    let d = AggregateDevice::create_aggregate_description(0, String::new(), String::new(), String::new(), uuid);
    assert_eq!(d.uid, "00112233-4455-6677-8899-aabbccddeeff");
    assert_eq!(d.name, "Tap-0");
    let d = AggregateDevice::create_aggregate_description(
        u32::MAX,
        String::new(),
        String::new(),
        String::new(),
        [0x0f; 16],
    );
    assert_eq!(d.uid, "0f0f0f0f-0f0f-0f0f-0f0f-0f0f0f0f0f0f");
    assert_eq!(d.name, "Tap-4294967295");
}

#[test]
fn decimal_numerals_have_no_leading_zeros() {
    for n in [0u32, 7, 10, 99, 100, 1000, 40302, 4294967295] {
        let mut text = String::from("x");
        push_decimal(&mut text, n);
        assert_eq!(text, format!("x{}", n));
    }
}
