//! Registry behaviour and seed string parsing.

use cavegen::hex::{HexParseError, from_hex_str};
use cavegen::model::{CaveInfoError, FloorInfo};
use cavegen::registry::SublevelRegistry;

fn floor(sublevel: u32) -> FloorInfo {
    FloorInfo {
        cave_name: None,
        sublevel,
        max_main_objects: 0,
        max_treasures: 0,
        max_gates: 0,
        num_rooms: 0,
        corridor_probability: 0,
        cap_probability: 0,
        has_geyser: false,
        exit_plugged: false,
        cave_units: Vec::new(),
        teki_info: Vec::new(),
        item_info: Vec::new(),
        gate_info: Vec::new(),
        cap_info: Vec::new(),
        is_final_floor: false,
    }
}

#[test]
fn test_registry_lookup() {
    let mut reg = SublevelRegistry::new();
    let populated = reg.ensure_init(
        vec!["gk3".to_string(), "scx7".to_string()],
        vec![floor(2), floor(6)],
    );
    assert!(populated);
    assert_eq!(reg.lookup("GK3").unwrap().sublevel, 2);
    assert_eq!(reg.lookup("gk3").unwrap().sublevel, 2);
    assert_eq!(reg.lookup("SCx7").unwrap().sublevel, 6);
    assert_eq!(reg.lookup("scX7").unwrap().sublevel, 6);
    assert_eq!(reg.lookup("BK1").unwrap_err(), CaveInfoError::NotFound);
    assert_eq!(reg.lookup("gk").unwrap_err(), CaveInfoError::NotFound);
    assert_eq!(reg.lookup("").unwrap_err(), CaveInfoError::NotFound);
}

#[test]
fn test_registry_init_once() {
    let mut reg = SublevelRegistry::new();
    assert!(reg.ensure_init(vec!["gk3".to_string()], vec![floor(2)]));
    // A second population attempt does nothing and reports so.
    let again = reg.ensure_init(vec!["bk1".to_string()], vec![floor(0)]);
    assert!(!again);
    assert!(reg.lookup("bk1").is_err());
    assert_eq!(reg.lookup("gk3").unwrap().sublevel, 2);
}

#[test]
fn test_registry_rejects_bad_entries() {
    let mut reg = SublevelRegistry::new();
    // A key that is not normalized is refused, leaving the registry open.
    assert!(!reg.ensure_init(vec!["GK3".to_string()], vec![floor(2)]));
    assert!(reg.lookup("gk3").is_err());
    // Mismatched lengths are refused too.
    assert!(!reg.ensure_init(vec!["gk3".to_string()], vec![]));
    // A well-formed population afterwards still succeeds.
    assert!(reg.ensure_init(vec!["gk3".to_string()], vec![floor(2)]));
    assert_eq!(reg.lookup("gk3").unwrap().sublevel, 2);
}

#[test]
fn test_from_hex_str_values() {
    assert_eq!(from_hex_str("0x10"), Ok(16));
    assert_eq!(from_hex_str("10"), Ok(16));
    assert_eq!(from_hex_str("1A"), Ok(26));
    assert_eq!(from_hex_str("1a"), Ok(26));
    assert_eq!(from_hex_str("0"), Ok(0));
    assert_eq!(from_hex_str("0xDEADBEEF"), Ok(0xDEAD_BEEF));
    assert_eq!(from_hex_str("FFFFFFFF"), Ok(u32::MAX));
    assert_eq!(from_hex_str("0x00000000010"), Ok(16));
    assert_eq!(from_hex_str("+1a"), Ok(26));
}

#[test]
fn test_from_hex_str_errors() {
    assert_eq!(from_hex_str(""), Err(HexParseError::Empty));
    assert_eq!(from_hex_str("0x"), Err(HexParseError::Empty));
    assert_eq!(from_hex_str("+"), Err(HexParseError::InvalidDigit));
    assert_eq!(from_hex_str("ZZ"), Err(HexParseError::InvalidDigit));
    assert_eq!(from_hex_str("1G"), Err(HexParseError::InvalidDigit));
    assert_eq!(from_hex_str("0x0x10"), Err(HexParseError::InvalidDigit));
    assert_eq!(from_hex_str(" 10"), Err(HexParseError::InvalidDigit));
    assert_eq!(from_hex_str("100000000"), Err(HexParseError::PosOverflow));
    assert_eq!(from_hex_str("-1"), Err(HexParseError::InvalidDigit));
    assert_eq!(from_hex_str("-0"), Err(HexParseError::InvalidDigit));
}

#[test]
fn test_from_hex_str_matches_std() {
    // The contract mirrors `u32::from_str_radix` with the prefix stripped:
    // spot-check agreement on accepted values and on the odd corners.
    for s in ["0", "10", "ffffFFFF", "+2", "-0", "-00", "0x1"] {
        let stripped = s.strip_prefix("0x").unwrap_or(s);
        let ours = from_hex_str(s).ok();
        let std_result = u32::from_str_radix(stripped, 16).ok();
        assert_eq!(ours, std_result, "mismatch on {s}");
    }
}
