use nfc::target_info::{
    BarcodeInfo, DepInfo, FelicaInfo, Iso14443aInfo, Iso14443b2ctInfo, Iso14443b2srInfo,
    Iso14443bInfo, Iso14443biInfo, JewelInfo, INFO_LEN,
};
use nfc::{BaudRate, DepMode, ModulationType, RawTarget, Target, TargetInfo};

fn filled<const N: usize>(start: u8) -> [u8; N] {
    let mut a = [0u8; N];
    for (i, b) in a.iter_mut().enumerate() {
        *b = start.wrapping_add(i as u8);
    }
    a
}

fn iso14443a() -> Iso14443aInfo {
    Iso14443aInfo {
        atqa: [0x00, 0x44],
        sak: 0x08,
        uid_len: 7,
        uid: filled(0x04),
        ats_len: 254,
        ats: filled(0x80),
    }
}

fn all_targets() -> Vec<Target> {
    vec![
        Target { baud_rate: BaudRate::Nbr106, info: TargetInfo::ISO14443A { info: iso14443a() } },
        Target {
            baud_rate: BaudRate::Nbr212,
            info: TargetInfo::FELICA {
                info: FelicaInfo {
                    len: 18,
                    res_code: 1,
                    id: filled(0x10),
                    pad: filled(0x20),
                    sys_code: [0x88, 0xb4],
                },
            },
        },
        Target {
            baud_rate: BaudRate::Nbr106,
            info: TargetInfo::ISO14443B {
                info: Iso14443bInfo {
                    pupi: filled(1),
                    application_data: filled(5),
                    protocol_info: filled(9),
                    card_identifier: 0xcc,
                },
            },
        },
        Target {
            baud_rate: BaudRate::Nbr847,
            info: TargetInfo::ISO14443BI {
                info: Iso14443biInfo {
                    div: filled(0x30),
                    ver_log: 2,
                    config: 3,
                    atr_len: 33,
                    atr: filled(0x40),
                },
            },
        },
        Target {
            baud_rate: BaudRate::Nbr106,
            info: TargetInfo::ISO14443B2SR { info: Iso14443b2srInfo { uid: filled(0xd0) } },
        },
        Target {
            baud_rate: BaudRate::Nbr106,
            info: TargetInfo::ISO14443B2CT {
                info: Iso14443b2ctInfo { uid: filled(0xe0), prod_code: 7, fab_code: 9 },
            },
        },
        Target {
            baud_rate: BaudRate::Nbr106,
            info: TargetInfo::JEWEL { info: JewelInfo { sens_res: [0x0c, 0x00], id: filled(0x50) } },
        },
        Target {
            baud_rate: BaudRate::Nbr106,
            info: TargetInfo::BARCODE { info: BarcodeInfo { data_len: 16, data: filled(0x60) } },
        },
        Target {
            baud_rate: BaudRate::Nbr424,
            info: TargetInfo::DEP {
                info: DepInfo {
                    nfcid3: filled(0x70),
                    did: 1,
                    bs: 2,
                    br: 3,
                    to: 14,
                    pp: 0x32,
                    gb: filled(0xa0),
                    gb_len: 20,
                    ndm: DepMode::Active,
                },
            },
        },
    ]
}

#[test]
fn decode_of_encode_gives_back_every_variant() {
    for t in all_targets() {
        let raw = t.encode();
        assert_eq!(raw.info.len(), INFO_LEN);
        assert_eq!(Target::decode(&raw), t);
    }
}

#[test]
fn encode_writes_codes_of_variant_and_speed() {
    let targets = all_targets();
    let raw = targets[0].encode();
    assert_eq!(raw.modulation_type, 1);
    assert_eq!(raw.baud_rate, 1);
    let raw = targets[1].encode();
    assert_eq!(raw.modulation_type, 7);
    assert_eq!(raw.baud_rate, 2);
    let raw = targets[8].encode();
    assert_eq!(raw.modulation_type, 8);
    assert_eq!(raw.baud_rate, 3);
    assert_eq!(raw.info[72..76], [2, 0, 0, 0]);
}

#[test]
fn iso14443a_record_uses_native_layout() {
    let raw = Target { baud_rate: BaudRate::Nbr106, info: TargetInfo::ISO14443A { info: iso14443a() } }
        .encode();
    assert_eq!(raw.info[0..2], [0x00, 0x44]);
    assert_eq!(raw.info[2], 0x08);
    assert_eq!(raw.info[3..8], [0; 5]);
    assert_eq!(raw.info[8..16], [7, 0, 0, 0, 0, 0, 0, 0]);
    assert_eq!(raw.info[16], 0x04);
    assert_eq!(raw.info[32..40], [254, 0, 0, 0, 0, 0, 0, 0]);
    assert_eq!(raw.info[40], 0x80);
}

#[test]
fn decode_reads_only_the_selected_arm() {
    let mut info = vec![0xffu8; INFO_LEN];
    info[0] = 0x0c;
    info[1] = 0x00;
    info[2..6].copy_from_slice(&[1, 2, 3, 4]);
    let raw = RawTarget { info, modulation_type: ModulationType::Jewel.code(), baud_rate: 1 };
    let t = Target::decode(&raw);
    assert_eq!(t.baud_rate, BaudRate::Nbr106);
    assert_eq!(
        t.info,
        TargetInfo::JEWEL { info: JewelInfo { sens_res: [0x0c, 0x00], id: [1, 2, 3, 4] } }
    );
    assert_eq!(t.info.modulation_type(), ModulationType::Jewel);
}

#[test]
fn codes_of_enumerants() {
    assert_eq!(BaudRate::from_code(4), Some(BaudRate::Nbr847));
    assert_eq!(BaudRate::from_code(5), None);
    assert_eq!(ModulationType::from_code(9), Some(ModulationType::Barcode));
    assert_eq!(ModulationType::from_code(0), None);
    assert_eq!(DepMode::from_code(1), Some(DepMode::Passive));
    assert_eq!(DepMode::from_code(3), None);
    assert_eq!(ModulationType::Felica.code(), 7);
    assert_eq!(nfc::Property::EasyFraming.code(), 11);
}
