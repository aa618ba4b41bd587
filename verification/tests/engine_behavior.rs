//! Engine handle behaviour: configuration round trips, decode records,
//! null safety and the open-file table.

use rizin_rs::util::RzCore;
use rizin_rs::{
    AbbrevError, AnalysisError, AnalysisOp, AnalysisOpMask, ConfigError, Core, DecodeError,
    DwarfAbbrev, OpenError,
};

#[test]
fn lib_test_core() {
    let _ = Core::new();
}

#[test]
fn util_test_core() {
    let _ = RzCore::new();
}

#[test]
fn config_scenario_set_then_get() {
    let mut core = Core::new();
    assert!(core.config_set("x.y", "z").is_ok());
    assert_eq!(core.config_get("x.y").as_deref(), Some("z"));
    assert_eq!(core.config_get("unset.key"), None);
}

#[test]
fn config_last_set_wins() {
    let mut core = Core::new();
    assert!(core.config_set("asm.arch", "model").is_ok());
    assert!(core.config_set("asm.bits", "32").is_ok());
    assert!(core.config_set("asm.arch", "model2").is_ok());
    assert_eq!(core.config_get("asm.arch").as_deref(), Some("model2"));
    assert_eq!(core.config_get("asm.bits").as_deref(), Some("32"));
}

#[test]
fn config_rejects_interior_nul() {
    let mut core = Core::new();
    assert_eq!(core.config_set("a\0b", "v"), Err(ConfigError::Encoding));
    assert_eq!(core.config_set("k", "v\0"), Err(ConfigError::Encoding));
    assert_eq!(core.config_get("a\0b"), None);
    assert_eq!(core.config_get("k"), None);
}

#[test]
fn analysis_scenario_four_byte_decode() {
    let core = Core::new();
    let bytes = [0u8, 0, 0, 0];
    let op = core.analysis_op(&bytes, 0, AnalysisOpMask::Il).unwrap();
    let mnemonic = op.mnemonic().unwrap();
    assert!(!mnemonic.is_empty());
    assert_eq!(mnemonic, "add");
    assert_eq!(op.size, 4);
    let disasm_only = core.analysis_op(&bytes, 0, AnalysisOpMask::Disasm).unwrap();
    assert_eq!(disasm_only.il_str(false), None);
}

#[test]
fn analysis_mnemonic_table() {
    let core = Core::new();
    for (first, expected) in [(4u8, "add"), (1, "sub"), (6, "mul"), (7, "mov")] {
        let bytes = [first, 0, 0, 0];
        let op = core.analysis_op(&bytes, 8, AnalysisOpMask::Disasm).unwrap();
        assert_eq!(op.mnemonic().unwrap(), expected);
        assert_eq!(op.addr, 8);
    }
}

#[test]
fn analysis_short_buffer_fails() {
    let core = Core::new();
    assert_eq!(
        core.analysis_op(&[0u8, 1], 0, AnalysisOpMask::Il).err(),
        Some(AnalysisError::Decode)
    );
    assert_eq!(
        core.analysis_op(&[], 0, AnalysisOpMask::Basic).err(),
        Some(AnalysisError::Decode)
    );
}

#[test]
fn analysis_basic_mask_has_no_mnemonic() {
    let core = Core::new();
    let op = core.analysis_op(&[2u8, 0, 0, 0], 0, AnalysisOpMask::Basic).unwrap();
    assert_eq!(op.mnemonic().err(), Some(DecodeError::NullMnemonic));
    assert_eq!(op.il_str(true), None);
}

#[test]
fn null_mnemonic_is_an_error_not_a_crash() {
    let op = AnalysisOp { addr: 0, size: 0, mnemonic: None, il_op: None };
    assert_eq!(op.mnemonic().err(), Some(DecodeError::NullMnemonic));
}

#[test]
fn il_rendering_compact_and_pretty() {
    let core = Core::new();
    let op = core.analysis_op(&[1u8, 0, 0, 0], 0, AnalysisOpMask::Il).unwrap();
    assert_eq!(op.il_str(false).as_deref(), Some("(set x0 (sub x1 x2))"));
    assert_eq!(op.il_str(true).as_deref(), Some("(set x0\n  (sub x1 x2))"));
}

#[test]
fn bin_open_close_lifecycle() {
    let mut core = Core::new();
    let a = core.bin_open("/bin/a").unwrap();
    let b = core.bin_open("/bin/b").unwrap();
    assert!(core.bin_close(a));
    assert!(core.bin_close(b));
    let c = core.bin_open("/bin/c").unwrap();
    assert!(core.bin_close(c));
}

#[test]
fn bin_open_rejects_bad_paths() {
    let mut core = Core::new();
    assert_eq!(core.bin_open("").err(), Some(OpenError::Null));
    assert_eq!(core.bin_open("a\0b").err(), Some(OpenError::Encoding));
}

#[test]
fn abbrev_parse_null_on_empty_input() {
    assert!(matches!(DwarfAbbrev::new(&[]), Err(AbbrevError::Null)));
    assert!(DwarfAbbrev::new(&[1u8, 2, 3]).is_ok());
}
