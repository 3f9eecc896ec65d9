use timeflippers::time::Timestamp;
use timeflippers::timeflip::result::decode_time;
use timeflippers::timeflip::{
    Command, CommandResult, FacetSettings, FacetSettingsError, GetTimeError, SystemStatus,
    SystemStatusError,
};
use timeflippers::{Facet, FacetError, FacetTask, Minutes};

#[test]
fn unit_result_decodes_from_anything() {
    assert_eq!(<() as CommandResult>::from_data(&[]), Ok(()));
    assert_eq!(<() as CommandResult>::from_data(&[1, 2, 3]), Ok(()));
}

#[test]
fn time_result_decodes() {
    let data = [0x07, 0, 0, 0, 0, 0x65, 0x53, 0xF1, 0x00];
    assert_eq!(<Timestamp as CommandResult>::from_data(&data), Ok(Timestamp(1_700_000_000)));
    assert_eq!(<Timestamp as CommandResult>::from_data(&data).unwrap().secs(), 1_700_000_000);
}

#[test]
fn time_result_round_trips_with_the_time_command() {
    let time = Timestamp(1_234_567_890);
    let mut data = Command::Time(time).to_vec();
    data[0] = 0x07;
    assert_eq!(<Timestamp as CommandResult>::from_data(&data), Ok(time));
}

#[test]
fn time_result_errors() {
    assert_eq!(
        <Timestamp as CommandResult>::from_data(&[0x07, 0, 0, 0, 0, 0, 0, 0]),
        Err(GetTimeError::TooShort(8))
    );
    assert_eq!(
        <Timestamp as CommandResult>::from_data(&[0x08, 0, 0, 0, 0, 0, 0, 0, 1]),
        Err(GetTimeError::InvalidCommand(0x08))
    );
    assert_eq!(
        <Timestamp as CommandResult>::from_data(&[0x07, 0x80, 0, 0, 0, 0, 0, 0, 0]),
        Err(GetTimeError::TimestampTooBig(0x8000_0000_0000_0000))
    );
    // The calendar ends long before this many seconds.
    assert_eq!(
        <Timestamp as CommandResult>::from_data(&[0x07, 0x7F, 0xFF, 0xFF, 0xFF, 0xFF, 0xFF, 0xFF, 0xFF]),
        Err(GetTimeError::Timestamp(0x7FFF_FFFF_FFFF_FFFF))
    );
}

#[test]
fn decode_time_goes_by_what_it_is_told_of_the_calendar() {
    let data = [0x07, 0, 0, 0, 0, 0, 0, 0, 9];
    assert_eq!(decode_time(&data, true), Ok(Timestamp(9)));
    assert_eq!(decode_time(&data, false), Err(GetTimeError::Timestamp(9)));
    assert_eq!(decode_time(&data[..8], true), Err(GetTimeError::TooShort(8)));
}

#[test]
fn system_status_decodes() {
    assert_eq!(
        SystemStatus::from_data(&[1, 2, 0x01, 0xE0]),
        Ok(SystemStatus { lock_mode: true, pause_mode: false, auto_pause_time: Minutes(480) })
    );
    assert_eq!(
        SystemStatus::from_data(&[2, 1, 0, 0, 99]),
        Ok(SystemStatus { lock_mode: false, pause_mode: true, auto_pause_time: Minutes(0) })
    );
}

#[test]
fn system_status_errors() {
    assert_eq!(SystemStatus::from_data(&[1, 2, 0]), Err(SystemStatusError::TooShort(3)));
    assert_eq!(SystemStatus::from_data(&[0, 3, 0, 0]), Err(SystemStatusError::InvalidLockMode(0)));
    assert_eq!(SystemStatus::from_data(&[1, 3, 0, 0]), Err(SystemStatusError::InvalidPauseMode(3)));
}

#[test]
fn facet_settings_decode() {
    assert_eq!(
        FacetSettings::from_data(&[0x14, 3, 1, 0, 0, 0x05, 0xDC, 0, 0, 0, 42]),
        Ok(FacetSettings {
            facet: Facet::new(3).unwrap(),
            task: FacetTask::Pomodoro(1500),
            seconds_since_start: 42,
        })
    );
    assert_eq!(
        FacetSettings::from_data(&[0x14, 12, 0, 9, 9, 9, 9, 0x01, 0x02, 0x03, 0x04]),
        Ok(FacetSettings {
            facet: Facet::new(12).unwrap(),
            task: FacetTask::Simple,
            seconds_since_start: 0x0102_0304,
        })
    );
}

#[test]
fn facet_settings_round_trip_with_the_task_command() {
    let facet = Facet::new(5).unwrap();
    for task in [FacetTask::Simple, FacetTask::Pomodoro(0), FacetTask::Pomodoro(0xFFFF_FFFF)] {
        let mut data = Command::SetTaskParameter(facet, task).to_vec();
        data[0] = 0x14;
        data.extend_from_slice(&[0, 0, 0, 7]);
        let settings = FacetSettings::from_data(&data).unwrap();
        assert_eq!(settings.facet, facet);
        assert_eq!(settings.seconds_since_start, 7);
        if task == FacetTask::Pomodoro(0) || task == FacetTask::Pomodoro(0xFFFF_FFFF) {
            assert_eq!(settings.task, task);
        } else {
            assert_eq!(settings.task, FacetTask::Simple);
        }
    }
}

#[test]
fn facet_settings_errors() {
    assert_eq!(
        FacetSettings::from_data(&[0x14, 3, 1, 0, 0, 0, 0, 0, 0, 0]),
        Err(FacetSettingsError::TooShort(10))
    );
    assert_eq!(
        FacetSettings::from_data(&[0x13, 3, 1, 0, 0, 0, 0, 0, 0, 0, 0]),
        Err(FacetSettingsError::InvalidCommand(0x13))
    );
    assert_eq!(
        FacetSettings::from_data(&[0x14, 13, 1, 0, 0, 0, 0, 0, 0, 0, 0]),
        Err(FacetSettingsError::InvalidFacet(FacetError::InvalidIndex(13)))
    );
    assert_eq!(
        FacetSettings::from_data(&[0x14, 0, 7, 0, 0, 0, 0, 0, 0, 0, 0]),
        Err(FacetSettingsError::InvalidFacet(FacetError::InvalidIndex(0)))
    );
    assert_eq!(
        FacetSettings::from_data(&[0x14, 1, 2, 0, 0, 0, 0, 0, 0, 0, 0]),
        Err(FacetSettingsError::InvalidTask(2))
    );
}

#[test]
fn system_status_round_trips_with_the_switch_commands() {
    for lock in [true, false] {
        for pause in [true, false] {
            let mut data = Command::LockMode(lock).to_vec()[1..].to_vec();
            data.extend_from_slice(&Command::PauseMode(pause).to_vec()[1..]);
            data.extend_from_slice(&Command::AutoPauseTime(Minutes(0xABCD)).to_vec()[1..]);
            assert_eq!(
                SystemStatus::from_data(&data),
                Ok(SystemStatus {
                    lock_mode: lock,
                    pause_mode: pause,
                    auto_pause_time: Minutes(0xABCD),
                })
            );
        }
    }
}
