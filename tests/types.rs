use ccommon_rs::{
    metric_anon_union, option, option_default, option_load_default, BString, BStringRef,
    BStringRefMut, BStringStr, Bool, Error, LoggerStatus, LoggingError, OptionValue, Str, UInt,
};

#[test]
fn metric_anon_union_aligment_correct() {
    assert_eq!(
        std::mem::align_of::<metric_anon_union>(),
        std::mem::align_of::<u64>()
    );

    assert_eq!(
        std::mem::align_of::<metric_anon_union>(),
        std::mem::align_of::<i64>()
    );

    assert_eq!(
        std::mem::align_of::<metric_anon_union>(),
        std::mem::align_of::<f64>()
    );
}

#[test]
fn option_size_sanity() {
    assert!(std::mem::size_of::<option>() != 0);
}

#[test]
fn metric_values_read_back() {
    assert_eq!(metric_anon_union::counter(17).counter_value(), 17);
    assert_eq!(metric_anon_union::gauge(-5).gauge_value(), -5);
    assert_eq!(metric_anon_union::gauge(-1).counter_value(), u64::MAX);
    assert_eq!(metric_anon_union::uninit().counter_value(), 0);
}

#[test]
fn error_codes() {
    assert_eq!(Error::from(-1), Error::Generic);
    assert_eq!(Error::from(-2), Error::EAgain);
    assert_eq!(Error::from(-3), Error::ERetry);
    assert_eq!(Error::from(-4), Error::ENoMem);
    assert_eq!(Error::from(-5), Error::EEmpty);
    assert_eq!(Error::from(-6), Error::ERdHup);
    assert_eq!(Error::from(-7), Error::EInval);
    assert_eq!(Error::from(-8), Error::EOther);
    assert_eq!(Error::from(3), Error::EOther);
    assert_eq!(Error::EInval.code(), -7);
    assert_eq!(Error::Generic.as_str(), "Generic Error");
    assert_eq!(Error::ERdHup.as_str(), "ERDHUP");
}

#[test]
fn status_codes_and_conversion() {
    assert_eq!(LoggerStatus::OK.code(), 0);
    assert_eq!(LoggerStatus::LoggerNotSetupError.code(), 1);
    assert_eq!(LoggerStatus::RegistrationFailure.code(), 2);
    assert_eq!(LoggerStatus::LoggerAlreadySetError.code(), 3);
    assert_eq!(LoggerStatus::InvalidUTF8.code(), 4);
    assert_eq!(
        LoggerStatus::from(LoggingError::LoggerRegistrationFailure),
        LoggerStatus::RegistrationFailure
    );
    assert_eq!(
        LoggerStatus::from(LoggingError::LoggingAlreadySetUp),
        LoggerStatus::LoggerAlreadySetError
    );
}

#[test]
fn bstring_round_trip() {
    let b: BString = BStringStr("sea change").into_raw();
    assert_eq!(b.len(), 10);
    let r = BStringRef::from_raw(&b);
    assert_eq!(&r.as_bytes()[0..4], b"sea ");
    assert_eq!(r.as_bytes(), b"sea change");
    let back = r.into_raw();
    assert_eq!(back.as_slice(), b"sea change");
    BStringStr::free(b);
}

#[test]
fn bstring_write_overwrites_front() {
    let mut b = BStringStr("sea change").into_raw();
    {
        let mut w = BStringRefMut::from_raw(&mut b);
        assert_eq!(w.write(&[0u8, 1u8, 2u8]), 3);
        assert_eq!(&w.as_bytes()[0..3], &[0u8, 1u8, 2u8]);
        assert_eq!(&w.as_bytes()[3..], b" change");
    }
    let mut short = BStringStr("ab").into_raw();
    let mut w = BStringRefMut::from_raw(&mut short);
    assert_eq!(w.write(b"xyz"), 2);
    assert_eq!(w.into_raw().as_slice(), b"xy");
}

#[test]
fn options_hold_values() {
    let mut b = Bool::new(true, "flag", "a flag");
    assert_eq!(b.name(), "flag");
    assert_eq!(b.desc(), "a flag");
    assert!(b.value());
    assert!(b.default());
    assert!(!b.is_set());
    b.set_value(false);
    assert!(!b.value());
    assert!(b.default());
    assert!(b.is_set());

    let mut u = UInt::defaulted("n", "a number");
    assert_eq!(u.value(), 0);
    u.set_value(5);
    assert_eq!(u.value(), 5);
    assert_eq!(u.default(), 0);

    let s = Str::new(Some("log.txt"), "file", "log file");
    assert_eq!(s.value(), Some("log.txt"));
    assert_eq!(Str::defaulted("file", "log file").value(), None);
    let o = s.as_option();
    assert!(matches!(o.val, OptionValue::Str(Some("log.txt"))));
}

#[test]
fn option_defaults_load() {
    let mut u = UInt::new(35, "size", "buffer size");
    u.set_value(7);
    let mut opt = u.as_option();
    assert!(option_default(&mut opt).is_ok());
    assert!(opt.set);
    assert!(matches!(opt.val, OptionValue::UInt(35)));

    let mut all = vec![
        Bool::new(true, "a", "first").as_option(),
        UInt::new(5, "b", "second").as_option(),
    ];
    all[0].val = OptionValue::Bool(false);
    assert!(option_load_default(&mut all).is_ok());
    assert!(all.iter().all(|o| o.set));
    assert!(matches!(all[0].val, OptionValue::Bool(true)));
    assert!(matches!(all[1].val, OptionValue::UInt(5)));
}
