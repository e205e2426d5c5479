use rv32i_pipeline::register_file::RegisterFile;

#[test]
fn setting_register_zero_has_no_effect() {
    let mut register_file = RegisterFile::new(2);

    register_file.write(0, 123);
    let register_zero_value = register_file.read(0);

    assert_eq!(register_zero_value, 0);
}

#[test]
fn setting_registers_one_to_length_hold_values() {
    let mut register_file = RegisterFile::new(32);

    for n in 1..32 {
        register_file.write(n, n as u32);
        assert_eq!(register_file.read(n), n as u32);
    }
}

#[test]
fn reading_register_twice_reads_same_value() {
    let mut register_file = RegisterFile::new(2);

    register_file.write(1, 123);

    let read_one = register_file.read(1);
    let read_two = register_file.read(1);

    assert_eq!(read_one, read_two);
}

#[test]
fn subsequent_writes_overwrite_previous_values() {
    let mut register_file = RegisterFile::new(2);

    register_file.write(1, 123);
    let first_value = register_file.read(1);

    register_file.write(1, 234);
    let second_value = register_file.read(1);

    assert_eq!(first_value, 123);
    assert_ne!(first_value, second_value);
    assert_eq!(second_value, 234);
}

#[test]
fn writing_the_same_value_twice_is_idempotent() {
    let mut once = RegisterFile::new(4);
    let mut twice = RegisterFile::new(4);

    once.write(3, 9);
    twice.write(3, 9);
    twice.write(3, 9);

    assert_eq!(twice.read(3), 9);
    assert_eq!(once.read(3), twice.read(3));
}

#[test]
fn fresh_register_file_reads_zero_everywhere() {
    let register_file = RegisterFile::new(32);
    for n in 0..32 {
        assert_eq!(register_file.read(n), 0);
    }
}
