use smash_arc::{hash40, HashLabels, Hash40, Locale, Region};

#[test]
fn crc32_check_values() {
    assert_eq!(hash40("").crc32(), 0);
    assert_eq!(hash40("").as_u64(), 0);
    assert_eq!(hash40("123456789").crc32(), 0xCBF43926);
    assert_eq!(hash40("123456789").len(), 9);
}

#[test]
fn hash40_accessors() {
    let h = Hash40(0x29954022ed);
    assert_eq!(h.len(), 0x29);
    assert_eq!(h.crc32(), 0x954022ed);
    assert_eq!(Hash40::from(7u64), Hash40(7));
}

#[test]
fn labels_file_with_model_path() {
    let labels = HashLabels::from_string("fighter/mario/model/body/c00/model.numatb\n");
    let h = hash40("fighter/mario/model/body/c00/model.numatb");
    assert_eq!(h.as_u64(), 0x0000_0029_9540_22ED);
    assert_eq!(h.label(&labels), Some("fighter/mario/model/body/c00/model.numatb"));
}

#[test]
fn labels_round_trip_and_absent() {
    let text = "one\ntwo\r\nthree";
    let labels = HashLabels::from_string(text);
    for line in ["one", "two", "three"] {
        assert_eq!(hash40(line).label(&labels), Some(line));
    }
    assert_eq!(hash40("four").label(&labels), None);
    assert_eq!(hash40("two\r").label(&labels), None);
}

#[test]
fn labels_keep_lone_carriage_return_and_empty_lines() {
    let labels = HashLabels::from_string("x\r\n\nlast\r");
    assert_eq!(hash40("x").label(&labels), Some("x"));
    assert_eq!(hash40("").label(&labels), Some(""));
    assert_eq!(hash40("last\r").label(&labels), Some("last\r"));
}

#[test]
fn add_label_returns_its_hash() {
    let mut labels = HashLabels::new();
    let h = labels.add_label(String::from("fighter/mario"));
    assert_eq!(h, hash40("fighter/mario"));
    assert_eq!(h.label(&labels), Some("fighter/mario"));
}

#[test]
fn region_numbers_and_names() {
    assert_eq!(Region::from(2usize), Region::UsEnglish);
    assert_eq!(Region::from(14u32), Region::TaiwanChinese);
    assert_eq!(Region::from(15u8), Region::NoRegion);
    assert_eq!(Region::UsEnglish.ordinal(), 2);
    assert_eq!(Region::EuGerman.name(), "eu_de");
    assert_eq!(Region::NoRegion.to_string(), "");
    assert_eq!(Region::from_name("zh_tw"), Region::TaiwanChinese);
    assert_eq!(Region::from_name("xx_yy"), Region::NoRegion);
}

#[test]
fn region_locales() {
    assert_eq!(Region::EuRussian.get_locale(), Some(Locale::Europe));
    assert_eq!(Region::UsSpanish.get_locale(), Some(Locale::UnitedStates));
    assert_eq!(Region::TaiwanChinese.get_locale(), Some(Locale::China));
    assert_eq!(Region::NoRegion.get_locale(), None);
    assert_eq!(Locale::from(4u16), Locale::Korea);
    assert_eq!(Locale::from_name("jp"), Locale::Japan);
    assert_eq!(Locale::Europe.name(), "eu");
}

#[test]
fn names_parse_through_from_str() {
    assert_eq!("us_en".parse::<Region>().unwrap(), Region::UsEnglish);
    assert_eq!("kr_ko".parse::<Region>().unwrap(), Region::Korean);
    assert_eq!("".parse::<Region>().unwrap(), Region::NoRegion);
    assert_eq!("zh".parse::<Locale>().unwrap(), Locale::China);
    assert_eq!(Hash40::from("fighter"), hash40("fighter"));
}

#[test]
fn hash_word_from_crc_and_length() {
    assert_eq!(Hash40::from_crc32_and_len(0x954022ed, 41), Hash40(0x29954022ed));
    assert_eq!(Hash40::from_crc32_and_len(7, 0x1_0000_0002), Hash40(0x2_0000_0007));
}
