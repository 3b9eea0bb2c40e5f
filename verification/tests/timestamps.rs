use cloubil::errors::SigningError;
use cloubil::timestamp::Timestamp;

fn at(year: i32, month: u32, day: u32, hour: u32, minute: u32, second: u32) -> Timestamp {
    Timestamp {
        year,
        month,
        day,
        hour,
        minute,
        second,
    }
}

#[test]
fn renderings_of_one_instant() {
    let t = at(2023, 1, 1, 0, 0, 0);
    assert_eq!(t.amz_date(), Ok("20230101T000000Z".to_string()));
    assert_eq!(t.date_stamp(), Ok("20230101".to_string()));
    let t = at(2015, 8, 30, 12, 36, 0);
    assert_eq!(t.amz_date(), Ok("20150830T123600Z".to_string()));
    assert_eq!(t.date_stamp(), Ok("20150830".to_string()));
}

#[test]
fn renderings_pad_each_field_with_zeros() {
    let t = at(7, 3, 4, 5, 6, 9);
    assert_eq!(t.amz_date(), Ok("00070304T050609Z".to_string()));
    assert_eq!(t.date_stamp(), Ok("00070304".to_string()));
    let t = at(0, 1, 1, 0, 0, 0);
    assert_eq!(t.amz_date(), Ok("00000101T000000Z".to_string()));
    let t = at(9999, 12, 31, 23, 59, 59);
    assert_eq!(t.amz_date(), Ok("99991231T235959Z".to_string()));
    assert_eq!(t.date_stamp(), Ok("99991231".to_string()));
}

#[test]
fn date_stamp_is_the_start_of_the_full_rendering() {
    for t in [
        at(2023, 1, 1, 0, 0, 0),
        at(2024, 2, 29, 23, 59, 59),
        at(1999, 12, 31, 7, 8, 9),
        at(800, 6, 15, 12, 0, 30),
    ] {
        let full = t.amz_date().unwrap();
        let date = t.date_stamp().unwrap();
        assert_eq!(full.len(), 16);
        assert_eq!(date.len(), 8);
        assert_eq!(&full[..8], date);
        assert_eq!(&full[8..9], "T");
        assert_eq!(&full[15..], "Z");
    }
}

#[test]
fn new_accepts_the_days_of_the_calendar() {
    assert_eq!(
        Timestamp::new(2023, 1, 1, 0, 0, 0),
        Ok(at(2023, 1, 1, 0, 0, 0))
    );
    assert_eq!(
        Timestamp::new(2024, 2, 29, 23, 59, 59),
        Ok(at(2024, 2, 29, 23, 59, 59))
    );
    assert!(Timestamp::new(2000, 2, 29, 0, 0, 0).is_ok());
    assert!(Timestamp::new(2023, 12, 31, 0, 0, 0).is_ok());
    assert!(Timestamp::new(2023, 4, 30, 0, 0, 0).is_ok());
    assert!(Timestamp::new(0, 1, 1, 0, 0, 0).is_ok());
    assert!(Timestamp::new(9999, 12, 31, 23, 59, 59).is_ok());
}

#[test]
fn new_refuses_what_is_off_the_calendar() {
    assert_eq!(Timestamp::new(2023, 2, 29, 0, 0, 0), Err(SigningError::Clock));
    assert_eq!(Timestamp::new(1900, 2, 29, 0, 0, 0), Err(SigningError::Clock));
    assert_eq!(Timestamp::new(2100, 2, 29, 0, 0, 0), Err(SigningError::Clock));
    assert_eq!(Timestamp::new(2024, 2, 30, 0, 0, 0), Err(SigningError::Clock));
    assert_eq!(Timestamp::new(2023, 4, 31, 0, 0, 0), Err(SigningError::Clock));
    assert_eq!(Timestamp::new(2023, 6, 31, 0, 0, 0), Err(SigningError::Clock));
    assert_eq!(Timestamp::new(2023, 9, 31, 0, 0, 0), Err(SigningError::Clock));
    assert_eq!(Timestamp::new(2023, 11, 31, 0, 0, 0), Err(SigningError::Clock));
    assert_eq!(Timestamp::new(2023, 1, 32, 0, 0, 0), Err(SigningError::Clock));
    assert_eq!(Timestamp::new(2023, 1, 0, 0, 0, 0), Err(SigningError::Clock));
    assert_eq!(Timestamp::new(2023, 0, 1, 0, 0, 0), Err(SigningError::Clock));
    assert_eq!(Timestamp::new(2023, 13, 1, 0, 0, 0), Err(SigningError::Clock));
    assert_eq!(Timestamp::new(2023, 1, 1, 24, 0, 0), Err(SigningError::Clock));
    assert_eq!(Timestamp::new(2023, 1, 1, 0, 60, 0), Err(SigningError::Clock));
    assert_eq!(Timestamp::new(2023, 1, 1, 0, 0, 60), Err(SigningError::Clock));
    assert_eq!(Timestamp::new(-1, 1, 1, 0, 0, 0), Err(SigningError::Clock));
    assert_eq!(Timestamp::new(10000, 1, 1, 0, 0, 0), Err(SigningError::Clock));
    assert_eq!(
        Timestamp::new(i32::MIN, u32::MAX, u32::MAX, u32::MAX, u32::MAX, u32::MAX),
        Err(SigningError::Clock)
    );
}

#[test]
fn check_agrees_with_new() {
    assert!(at(2024, 2, 29, 0, 0, 0).check());
    assert!(!at(2023, 2, 29, 0, 0, 0).check());
    assert!(at(2023, 2, 28, 23, 59, 59).check());
    assert!(!at(2023, 2, 28, 23, 59, 60).check());
    assert!(at(1600, 2, 29, 0, 0, 0).check());
    assert!(!at(1700, 2, 29, 0, 0, 0).check());
}

#[test]
fn renderings_refuse_what_is_off_the_calendar() {
    let t = at(2023, 2, 30, 0, 0, 0);
    assert_eq!(t.amz_date(), Err(SigningError::Clock));
    assert_eq!(t.date_stamp(), Err(SigningError::Clock));
    let t = at(-5, 1, 1, 0, 0, 0);
    assert_eq!(t.amz_date(), Err(SigningError::Clock));
    assert_eq!(t.date_stamp(), Err(SigningError::Clock));
    let t = at(12345, 1, 1, 0, 0, 0);
    assert_eq!(t.amz_date(), Err(SigningError::Clock));
}
