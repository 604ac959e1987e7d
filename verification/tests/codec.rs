use w25q::types::{SR1, SR2, SR3};

#[test]
fn sr1_pack_unpack_is_identity_for_all_bytes() {
    for b in 0..=255u8 {
        assert_eq!(SR1::from_u8(b).to_u8(), b);
    }
}

#[test]
fn sr1_unpack_pack_reproduces_fields_for_all_bytes() {
    for b in 0..=255u8 {
        let s = SR1::from_u8(b);
        assert_eq!(SR1::from_u8(s.to_u8()), s);
    }
}

#[test]
fn sr2_unpack_pack_reproduces_fields_for_all_bytes() {
    for b in 0..=255u8 {
        let s = SR2::from_u8(b);
        assert_eq!(SR2::from_u8(s.to_u8()), s);
    }
}

#[test]
fn sr3_unpack_pack_reproduces_fields_for_all_bytes() {
    for b in 0..=255u8 {
        let s = SR3::from_u8(b);
        assert_eq!(SR3::from_u8(s.to_u8()), s);
    }
}

#[test]
fn sr1_field_decode() {
    let s = SR1::from_u8(0b1010_1101);
    assert!(s.srp0);
    assert!(!s.sec);
    assert!(s.tb);
    assert_eq!(s.bp, 0b011);
    assert!(!s.wel);
    assert!(s.busy);

    let all = SR1::from_u8(0xFF);
    assert!(all.srp0 && all.sec && all.tb && all.wel && all.busy);
    assert_eq!(all.bp, 0b111);

    let none = SR1::from_u8(0x00);
    assert!(!none.srp0 && !none.sec && !none.tb && !none.wel && !none.busy);
    assert_eq!(none.bp, 0);
}

#[test]
fn sr2_field_decode() {
    let s = SR2::from_u8(0b1101_1011);
    assert!(s.sus);
    assert!(s.cmp);
    assert_eq!(s.lb, 0b011);
    assert!(s.qe);
    assert!(s.srp1);
}

#[test]
fn sr2_struct_roundtrip() {
    for bits in 0..64u8 {
        let s = SR2 {
            sus: bits & 1 != 0,
            cmp: bits & 2 != 0,
            lb: (bits >> 2) & 0b111,
            qe: bits & 32 != 0,
            srp1: bits & 16 != 0,
        };
        assert_eq!(SR2::from_u8(s.to_u8()), s);
    }
}

#[test]
fn sr3_struct_roundtrip() {
    for bits in 0..16u8 {
        let s = SR3 {
            hold_or_reset: bits & 1 != 0,
            driver_strength: (bits >> 1) & 0b11,
            wps: bits & 8 != 0,
        };
        assert_eq!(SR3::from_u8(s.to_u8()), s);
    }
}

#[test]
fn sr3_field_decode() {
    let s = SR3::from_u8(0b1010_0100);
    assert!(s.hold_or_reset);
    assert_eq!(s.driver_strength, 0b01);
    assert!(s.wps);
}

#[test]
fn sr1_writable_zeroes_busy_and_wel_for_all_bytes() {
    for b in 0..=255u8 {
        let w = SR1::from_u8(b).to_writable_u8();
        assert_eq!(w & 0b0000_0011, 0);
    }
}

#[test]
fn sr1_writable_ignores_busy_and_wel() {
    for b in 0..=255u8 {
        let x = SR1::from_u8(b);
        // The same byte with busy and wel forced on, then off.
        let y = SR1::from_u8(b | 0b0000_0011);
        let z = SR1::from_u8(b & !0b0000_0011);
        assert_eq!(x.to_writable_u8(), y.to_writable_u8());
        assert_eq!(x.to_writable_u8(), z.to_writable_u8());
    }
}

#[test]
fn sr1_writable_layout() {
    let s = SR1 { srp0: true, sec: true, tb: false, bp: 0b101, wel: true, busy: true };
    // srp0 at bit 7, sec at bit 6, tb at bit 5, bp at bits 2..=4; only the
    // read-only wel and busy are dropped.
    assert_eq!(s.to_writable_u8(), 0b1101_0100);
    let s = SR1 { srp0: false, ..s };
    assert_eq!(s.to_writable_u8(), 0b0101_0100);
}

#[test]
fn sr2_writable_layout() {
    let s = SR2 { sus: true, cmp: true, lb: 0b011, qe: true, srp1: true };
    // cmp at bit 6, lb at bits 3..=5, qe at bit 1; sus and srp1 dropped.
    assert_eq!(s.to_writable_u8(), 0b0101_1010);
}

#[test]
fn sr3_writable_layout() {
    let s = SR3 { hold_or_reset: true, driver_strength: 0b10, wps: true };
    // driver strength at bits 5..=6, wps at bit 2; hold_or_reset dropped.
    assert_eq!(s.to_writable_u8(), 0b0100_0100);
}
