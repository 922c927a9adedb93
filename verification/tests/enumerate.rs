use seify::Args;
use seify::Driver;
use seify::Error;

#[test]
fn driver_names_parse_case_insensitively() {
    assert_eq!("aaronia".parse::<Driver>().unwrap(), Driver::Aaronia);
    assert_eq!("Aaronia".parse::<Driver>().unwrap(), Driver::Aaronia);
    assert_eq!("aaronia_http".parse::<Driver>().unwrap(), Driver::AaroniaHttp);
    assert_eq!("aaronia-http".parse::<Driver>().unwrap(), Driver::AaroniaHttp);
    assert_eq!("AaroniaHTTP".parse::<Driver>().unwrap(), Driver::AaroniaHttp);
    assert_eq!("rtlsdr".parse::<Driver>().unwrap(), Driver::RtlSdr);
    assert_eq!("RTL-SDR".parse::<Driver>().unwrap(), Driver::RtlSdr);
    assert_eq!("rtl".parse::<Driver>().unwrap(), Driver::RtlSdr);
    assert_eq!("soapy".parse::<Driver>().unwrap(), Driver::Soapy);
    assert_eq!("soapysdr".parse::<Driver>().unwrap(), Driver::Soapy);
    assert_eq!("hackrf".parse::<Driver>().unwrap(), Driver::HackRf);
    assert_eq!("HackRfOne".parse::<Driver>().unwrap(), Driver::HackRf);
    assert_eq!("bogus".parse::<Driver>(), Err(Error::ValueError));
    assert_eq!("".parse::<Driver>(), Err(Error::ValueError));
}

#[test]
fn enumerate_rejects_unknown_driver_names() {
    let args: Args = "driver=bogus".parse().unwrap();
    assert!(matches!(
        seify::enumerate_with_args(&args),
        Err(Error::ValueError)
    ));
}

#[test]
fn enumerate_reports_missing_backends() {
    for name in ["soapy", "rtlsdr", "aaronia", "aaronia_http"] {
        let args: Args = format!("driver={name}").parse().unwrap();
        assert!(matches!(
            seify::enumerate_with_args(&args),
            Err(Error::FeatureNotEnabled)
        ));
    }
}
