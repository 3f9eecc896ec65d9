use timeflippers::time::Timestamp;
use timeflippers::timeflip::Command;
use timeflippers::{BlinkInterval, Facet, FacetTask, Minutes, Percent};

#[test]
fn command_ids() {
    let facet = Facet::new(1).unwrap();
    assert_eq!(Command::LockMode(true).id(), 0x04);
    assert_eq!(Command::AutoPauseTime(Minutes(1)).id(), 0x05);
    assert_eq!(Command::PauseMode(false).id(), 0x06);
    assert_eq!(Command::GetTime.id(), 0x07);
    assert_eq!(Command::Time(Timestamp(0)).id(), 0x08);
    assert_eq!(Command::Brightness(Percent::new(1).unwrap()).id(), 0x09);
    assert_eq!(Command::BlinkInterval(BlinkInterval::new(5).unwrap()).id(), 0x0A);
    assert_eq!(Command::ReadStatus.id(), 0x10);
    assert_eq!(Command::SetColor { facet, red: 0, green: 0, blue: 0 }.id(), 0x11);
    assert_eq!(Command::SetTaskParameter(facet, FacetTask::Simple).id(), 0x13);
    assert_eq!(Command::GetTaskParameter(facet).id(), 0x14);
}

#[test]
fn switches_are_written_as_1_and_2() {
    assert_eq!(Command::LockMode(true).to_vec(), vec![0x04, 0x01]);
    assert_eq!(Command::LockMode(false).to_vec(), vec![0x04, 0x02]);
    assert_eq!(Command::PauseMode(true).to_vec(), vec![0x06, 0x01]);
    assert_eq!(Command::PauseMode(false).to_vec(), vec![0x06, 0x02]);
}

#[test]
fn commands_without_payload_are_one_byte() {
    assert_eq!(Command::GetTime.to_vec(), vec![0x07]);
    assert_eq!(Command::ReadStatus.to_vec(), vec![0x10]);
}

#[test]
fn integers_are_written_big_endian() {
    assert_eq!(Command::AutoPauseTime(Minutes(0x0102)).to_vec(), vec![0x05, 0x01, 0x02]);
    assert_eq!(Command::AutoPauseTime(Minutes(480)).to_vec(), vec![0x05, 0x01, 0xE0]);
    assert_eq!(
        Command::Time(Timestamp(0x0102_0304_0506_0708)).to_vec(),
        vec![0x08, 1, 2, 3, 4, 5, 6, 7, 8]
    );
    assert_eq!(
        Command::Time(Timestamp(1_700_000_000)).to_vec(),
        vec![0x08, 0, 0, 0, 0, 0x65, 0x53, 0xF1, 0x00]
    );
}

#[test]
fn brightness_payload_is_the_byte_written() {
    for value in 0..=100usize {
        let percent = Percent::new(value).unwrap();
        let data = Command::Brightness(percent).to_vec();
        assert_eq!(data.len(), 2);
        assert_eq!(data[0], 0x09);
        assert_eq!(Percent::new(usize::from(data[1])), Ok(percent));
    }
}

#[test]
fn blink_interval_payload_is_the_seconds() {
    assert_eq!(
        Command::BlinkInterval(BlinkInterval::new(30).unwrap()).to_vec(),
        vec![0x0A, 30]
    );
}

#[test]
fn color_is_facet_then_three_channels() {
    let command = Command::SetColor {
        facet: Facet::new(12).unwrap(),
        red: 0x0102,
        green: 0x0304,
        blue: 0xFFFE,
    };
    assert_eq!(command.to_vec(), vec![0x11, 12, 1, 2, 3, 4, 0xFF, 0xFE]);
}

#[test]
fn task_parameters_always_carry_kind_and_timer() {
    let facet = Facet::new(3).unwrap();
    assert_eq!(
        Command::SetTaskParameter(facet, FacetTask::Simple).to_vec(),
        vec![0x13, 3, 0, 0, 0, 0, 0]
    );
    assert_eq!(
        Command::SetTaskParameter(facet, FacetTask::Pomodoro(1500)).to_vec(),
        vec![0x13, 3, 1, 0, 0, 0x05, 0xDC]
    );
    assert_eq!(Command::GetTaskParameter(facet).to_vec(), vec![0x14, 3]);
}
