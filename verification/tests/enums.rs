use planif::bitmask::{contains, decode, encode};
use planif::enums::{
    combine_flags, short_word, signed_pattern, DayOfMonth, DayOfWeek, Month, TaskCreationFlags, WeekOfMonth,
};
use planif::error::ErrorKind;

#[test]
fn day_of_month_first_and_last_numbered_day() {
    assert_eq!(DayOfMonth::Day(1).encode().unwrap(), 1);
    assert_eq!(DayOfMonth::Day(2).encode().unwrap(), 2);
    assert_eq!(DayOfMonth::Day(15).encode().unwrap(), 1 << 14);
    assert_eq!(DayOfMonth::Day(31).encode().unwrap(), 1 << 30);
    assert_eq!(DayOfMonth::Day(31).encode().unwrap(), 1073741824);
}

#[test]
fn day_of_month_out_of_range() {
    for n in [0, 32, -1, 33, i32::MIN, i32::MAX] {
        let e = DayOfMonth::Day(n).encode().unwrap_err();
        assert_eq!(e.kind(), ErrorKind::OutOfRange);
        assert_eq!(
            e.message(),
            "Index out of bounds. Days of month must be between 1 and 31 inclusively."
        );
    }
}

#[test]
fn day_of_month_last_is_the_highest_bit() {
    let last = DayOfMonth::Last.encode().unwrap();
    assert_eq!(last, 0x8000_0000);
    for n in 1..=31 {
        let day = DayOfMonth::Day(n).encode().unwrap();
        assert_eq!(day, 1u32 << (n - 1));
        assert_eq!(day & last, 0);
    }
}

#[test]
fn days_and_last_fold_together() {
    let mask = encode(&vec![DayOfMonth::Day(1), DayOfMonth::Last, DayOfMonth::Day(15)]).unwrap();
    assert_eq!(mask, 0x8000_0000 | 1 | (1 << 14));
    assert_eq!(signed_pattern(mask), i32::MIN + 1 + (1 << 14));
}

#[test]
fn encode_rejects_a_day_out_of_range() {
    let e = encode(&vec![DayOfMonth::Day(3), DayOfMonth::Day(32)]).unwrap_err();
    assert_eq!(e.kind(), ErrorKind::OutOfRange);
    assert_eq!(e.message(), "A calendar value lies outside its valid range.");
    assert_eq!(e.to_string(), "Out Of Range Error: A calendar value lies outside its valid range.");
}

#[test]
fn encode_empty_is_zero() {
    assert_eq!(encode::<DayOfWeek>(&vec![]).unwrap(), 0);
    assert_eq!(encode::<Month>(&vec![]).unwrap(), 0);
    assert_eq!(encode::<WeekOfMonth>(&vec![]).unwrap(), 0);
    assert_eq!(encode::<DayOfMonth>(&vec![]).unwrap(), 0);
}

#[test]
fn days_of_week_bits() {
    assert_eq!(encode(&vec![DayOfWeek::Sunday]).unwrap(), 0x01);
    assert_eq!(encode(&vec![DayOfWeek::Monday]).unwrap(), 0x02);
    assert_eq!(encode(&vec![DayOfWeek::Tuesday]).unwrap(), 0x04);
    assert_eq!(encode(&vec![DayOfWeek::Wednesday]).unwrap(), 0x08);
    assert_eq!(encode(&vec![DayOfWeek::Thursday]).unwrap(), 0x10);
    assert_eq!(encode(&vec![DayOfWeek::Friday]).unwrap(), 0x20);
    assert_eq!(encode(&vec![DayOfWeek::Saturday]).unwrap(), 0x40);
    assert_eq!(encode(&vec![DayOfWeek::Monday, DayOfWeek::Friday]).unwrap(), 0x22);
}

#[test]
fn months_bits() {
    assert_eq!(encode(&vec![Month::January]).unwrap(), 0x001);
    assert_eq!(encode(&vec![Month::August]).unwrap(), 0x080);
    assert_eq!(encode(&vec![Month::September]).unwrap(), 0x100);
    assert_eq!(encode(&vec![Month::December]).unwrap(), 0x800);
    assert_eq!(encode(&vec![Month::December, Month::January, Month::June]).unwrap(), 0x821);
}

#[test]
fn weeks_bits() {
    assert_eq!(encode(&vec![WeekOfMonth::First]).unwrap(), 1);
    assert_eq!(encode(&vec![WeekOfMonth::Second]).unwrap(), 2);
    assert_eq!(encode(&vec![WeekOfMonth::Third]).unwrap(), 4);
    assert_eq!(encode(&vec![WeekOfMonth::Fourth]).unwrap(), 8);
    assert_eq!(
        encode(&vec![
            WeekOfMonth::First,
            WeekOfMonth::Second,
            WeekOfMonth::Third,
            WeekOfMonth::Fourth
        ])
        .unwrap(),
        15
    );
}

#[test]
fn duplicates_do_not_change_the_mask() {
    let once = encode(&vec![DayOfWeek::Monday, DayOfWeek::Friday]).unwrap();
    let twice = encode(&vec![
        DayOfWeek::Friday,
        DayOfWeek::Monday,
        DayOfWeek::Monday,
        DayOfWeek::Friday,
    ])
    .unwrap();
    assert_eq!(once, twice);
}

#[test]
fn decode_gives_members_by_rising_bit() {
    assert_eq!(
        decode::<DayOfWeek>(0x22).unwrap(),
        vec![DayOfWeek::Monday, DayOfWeek::Friday]
    );
    assert_eq!(decode::<Month>(0).unwrap(), vec![]);
    assert_eq!(
        decode::<DayOfMonth>(0x8000_0001).unwrap(),
        vec![DayOfMonth::Day(1), DayOfMonth::Last]
    );
    assert_eq!(
        decode::<DayOfMonth>(1 << 30).unwrap(),
        vec![DayOfMonth::Day(31)]
    );
}

#[test]
fn decode_after_encode_gives_the_set_back() {
    let months = vec![Month::March, Month::January, Month::November, Month::March];
    let back = decode::<Month>(encode(&months).unwrap()).unwrap();
    assert_eq!(back, vec![Month::January, Month::March, Month::November]);

    let sorted = vec![WeekOfMonth::Second, WeekOfMonth::Fourth];
    assert_eq!(decode::<WeekOfMonth>(encode(&sorted).unwrap()).unwrap(), sorted);

    let days = vec![DayOfMonth::Day(7), DayOfMonth::Day(31), DayOfMonth::Last];
    assert_eq!(decode::<DayOfMonth>(encode(&days).unwrap()).unwrap(), days);
}

#[test]
fn encode_after_decode_gives_the_mask_back() {
    for mask in [0u32, 1, 0x7f, 0x55, 0x2a] {
        let days = decode::<DayOfWeek>(mask).unwrap();
        assert_eq!(encode(&days).unwrap(), mask);
    }
    for mask in [0u32, 0xfff, 0x801, 0xffff_ffff, 0x8000_0000, 0x1234_5678] {
        let days = decode::<DayOfMonth>(mask).unwrap();
        assert_eq!(encode(&days).unwrap(), mask);
    }
}

#[test]
fn decode_rejects_unknown_bits() {
    for (mask, ok) in [(0x7fu32, true), (0x80, false), (0x100, false), (0x8000_0000, false)] {
        assert_eq!(decode::<DayOfWeek>(mask).is_ok(), ok);
    }
    assert!(decode::<Month>(0xfff).is_ok());
    assert!(decode::<Month>(0x1000).is_err());
    assert!(decode::<WeekOfMonth>(0xf).is_ok());
    let e = decode::<WeekOfMonth>(0x10).unwrap_err();
    assert_eq!(e.kind(), ErrorKind::OutOfRange);
    assert_eq!(e.message(), "The bit mask sets a bit that stands for no calendar value.");
}

#[test]
fn contains_reads_one_bit() {
    let mask = encode(&vec![Month::April, Month::May]).unwrap();
    assert!(contains(mask, &Month::April));
    assert!(contains(mask, &Month::May));
    assert!(!contains(mask, &Month::June));
    assert!(!contains(0xffff_ffff, &DayOfMonth::Day(0)));
    assert!(contains(0xffff_ffff, &DayOfMonth::Day(31)));
}

#[test]
fn signed_pattern_keeps_the_bits() {
    assert_eq!(signed_pattern(0), 0);
    assert_eq!(signed_pattern(1), 1);
    assert_eq!(signed_pattern(0x7fff_ffff), i32::MAX);
    assert_eq!(signed_pattern(0x8000_0000), i32::MIN);
    assert_eq!(signed_pattern(0xffff_ffff), -1);
    assert_eq!(signed_pattern(0x8000_0001), i32::MIN + 1);
}

#[test]
fn task_creation_flag_values() {
    assert_eq!(TaskCreationFlags::ValidateOnly.value(), 1);
    assert_eq!(TaskCreationFlags::Create.value(), 2);
    assert_eq!(TaskCreationFlags::Update.value(), 4);
    assert_eq!(TaskCreationFlags::CreateOrUpdate.value(), 6);
    assert_eq!(TaskCreationFlags::Disable.value(), 8);
    assert_eq!(TaskCreationFlags::DontAddPrincipalAce.value(), 16);
    assert_eq!(TaskCreationFlags::IgnoreRegistrationTriggers.value(), 32);
}

#[test]
fn task_creation_flags_combine_by_or() {
    assert_eq!(combine_flags(&vec![]), 0);
    assert_eq!(
        combine_flags(&vec![TaskCreationFlags::Create, TaskCreationFlags::Update]),
        TaskCreationFlags::CreateOrUpdate.value()
    );
    assert_eq!(
        combine_flags(&vec![TaskCreationFlags::CreateOrUpdate, TaskCreationFlags::Disable]),
        14
    );
    assert_eq!(
        combine_flags(&vec![
            TaskCreationFlags::DontAddPrincipalAce,
            TaskCreationFlags::IgnoreRegistrationTriggers,
            TaskCreationFlags::DontAddPrincipalAce,
        ]),
        48
    );
}

#[test]
fn task_creation_flags_have_bits_of_their_own() {
    let single = [
        TaskCreationFlags::ValidateOnly,
        TaskCreationFlags::Create,
        TaskCreationFlags::Update,
        TaskCreationFlags::Disable,
        TaskCreationFlags::DontAddPrincipalAce,
        TaskCreationFlags::IgnoreRegistrationTriggers,
    ];
    for a in single {
        assert_eq!(a.value().count_ones(), 1);
        for b in single {
            if a != b {
                assert_eq!(a.value() & b.value(), 0);
            }
        }
    }
}

#[test]
fn short_word_keeps_what_fits() {
    assert_eq!(short_word(0).unwrap(), 0);
    assert_eq!(short_word(0x7f).unwrap(), 0x7f);
    assert_eq!(short_word(0xfff).unwrap(), 0xfff);
    assert_eq!(short_word(0x7fff).unwrap(), i16::MAX);
    for mask in [0x8000u32, 0x1_0000, 0xffff_ffff] {
        let e = short_word(mask).unwrap_err();
        assert_eq!(e.kind(), ErrorKind::OutOfRange);
        assert_eq!(e.message(), "The bit mask does not fit the 16 bits of the task store.");
    }
}
