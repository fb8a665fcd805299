use sen5x_rs::Command;

#[test]
fn command_table_entries() {
    assert_eq!(Command::StartMeasurement.as_tuple(), (0x0021, 50, false));
    assert_eq!(Command::Reinit.as_tuple(), (0xd304, 100, true));
    assert_eq!(Command::GetSerialNumber.as_tuple(), (0xd033, 20, true));
    assert_eq!(Command::ReadProductName.as_tuple(), (0xd014, 20, true));
    assert_eq!(Command::ReadFirmwareVersion.as_tuple(), (0xd100, 20, true));
    assert_eq!(Command::ReadMeasurement.as_tuple(), (0x03c4, 20, true));
    assert_eq!(Command::GetReadDataReadyStatus.as_tuple(), (0x0202, 20, true));
}

#[test]
fn answer_lengths_in_words() {
    assert_eq!(Command::StartMeasurement.response_words(), 0);
    assert_eq!(Command::Reinit.response_words(), 0);
    assert_eq!(Command::GetSerialNumber.response_words(), 3);
    assert_eq!(Command::ReadProductName.response_words(), 16);
    assert_eq!(Command::ReadFirmwareVersion.response_words(), 1);
    assert_eq!(Command::ReadMeasurement.response_words(), 8);
    assert_eq!(Command::GetReadDataReadyStatus.response_words(), 1);
}

#[test]
fn opcodes_are_all_different() {
    let all = [
        Command::StartMeasurement,
        Command::Reinit,
        Command::GetSerialNumber,
        Command::ReadProductName,
        Command::ReadFirmwareVersion,
        Command::ReadMeasurement,
        Command::GetReadDataReadyStatus,
    ];
    for (i, a) in all.iter().enumerate() {
        for b in all.iter().skip(i + 1) {
            assert_ne!(a.as_tuple().0, b.as_tuple().0);
        }
    }
}
