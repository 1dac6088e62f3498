use mimic_host::registers::RegisterFile;

#[test]
fn a_new_register_file_is_all_zero() {
    let regs = RegisterFile::new();
    for index in 0..32 {
        assert_eq!(regs.read(index), 0);
    }
    assert_eq!(regs.dump(), [0u32; 32]);
}

#[test]
fn a_written_register_reads_back() {
    let mut regs = RegisterFile::new();
    regs.write(2, 1);
    regs.write(4, 42);
    regs.write(31, 0xFFFF_FFFF);
    assert_eq!(regs.read(2), 1);
    assert_eq!(regs.read(4), 42);
    assert_eq!(regs.read(31), 0xFFFF_FFFF);
    assert_eq!(regs.read(3), 0);
    regs.write(4, 7);
    assert_eq!(regs.read(4), 7);
}

#[test]
fn register_zero_stays_zero_whatever_is_written() {
    let mut regs = RegisterFile::new();
    for value in [1u32, 42, 0xFFFF_FFFF, 0, 0x8000_0000] {
        regs.write(0, value);
        assert_eq!(regs.read(0), 0);
        assert_eq!(regs.dump()[0], 0);
    }
    regs.write(5, 9);
    regs.write(0, 9);
    assert_eq!(regs.read(0), 0);
    assert_eq!(regs.read(5), 9);
}

#[test]
fn a_write_to_register_zero_changes_no_other_register() {
    let mut regs = RegisterFile::new();
    for index in 1..32usize {
        regs.write(index, index as u32 * 3);
    }
    let before = regs.dump();
    regs.write(0, 0xDEAD_BEEF);
    assert_eq!(regs.dump(), before);
}

#[test]
fn a_snapshot_is_taken_over_but_for_register_zero() {
    let mut words = [0u32; 32];
    for (index, word) in words.iter_mut().enumerate() {
        *word = 100 + index as u32;
    }
    let regs = RegisterFile::from_snapshot(words);
    assert_eq!(regs.read(0), 0);
    for index in 1..32usize {
        assert_eq!(regs.read(index), 100 + index as u32);
    }
    let mut expected = words;
    expected[0] = 0;
    assert_eq!(regs.dump(), expected);
}
