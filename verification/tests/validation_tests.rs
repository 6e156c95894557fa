use weather_alerts::error::ErrorKind;
use weather_alerts::models::{CreateUserRequest, UpdatePreferencesRequest};
use weather_alerts::validation::{normalize_country, to_capital};

fn request(email: &str, city: &str, country: &str) -> CreateUserRequest {
    CreateUserRequest {
        email: email.to_string(),
        city: city.to_string(),
        country: country.to_string(),
    }
}

#[test]
fn valid_registration_passes() {
    assert!(request("ana@example.org", "Porto", "pt").validate().is_ok());
    assert!(request("weirder-email@here.and.there.com", "São João da Madeira", "PT")
        .validate()
        .is_ok());
}

#[test]
fn email_is_checked_first() {
    for bad in ["", "abc", "abc@", "@example.org", "a @x.cz", "something@@somewhere.com"] {
        let err = request(bad, "", "").validate().unwrap_err();
        assert_eq!(err.kind(), ErrorKind::Validation);
        assert_eq!(err.message(), "email: not a valid email address");
    }
}

#[test]
fn city_length_counts_characters() {
    let hundred = "é".repeat(100);
    assert!(request("a@example.org", &hundred, "PT").validate().is_ok());
    let err = request("a@example.org", &"é".repeat(101), "PT").validate().unwrap_err();
    assert_eq!(err.message(), "city: must be 1 to 100 characters long");
}

#[test]
fn country_is_two_letters() {
    for bad in ["", "X", "XYZ", "X7", "É1", "x-"] {
        let err = request("a@example.org", "Porto", bad).validate().unwrap_err();
        assert_eq!(err.message(), "country: must be a two-letter country code");
    }
    for good in ["pt", "PT", "Pt", "zz"] {
        assert!(request("a@example.org", "Porto", good).validate().is_ok());
    }
}

#[test]
fn countries_are_written_in_capitals() {
    assert_eq!(normalize_country("pt"), "PT");
    assert_eq!(normalize_country("Pt"), "PT");
    assert_eq!(normalize_country("AZ"), "AZ");
    assert_eq!(normalize_country("az"), "AZ");
    assert_eq!(to_capital('m'), 'M');
    assert_eq!(to_capital('M'), 'M');
    assert_eq!(to_capital('é'), 'é');
    assert_eq!(to_capital('1'), '1');
}

#[test]
fn bounds_of_an_update_must_be_in_order() {
    let patch = |min_temp, max_temp| UpdatePreferencesRequest {
        min_temp,
        max_temp,
        alert_on_rain: None,
        alert_on_snow: None,
        alert_on_storm: None,
    };
    assert!(patch(Some(5), Some(30)).validate().is_ok());
    assert!(patch(Some(5), Some(5)).validate().is_ok());
    assert!(patch(Some(5), None).validate().is_ok());
    assert!(patch(None, Some(-40)).validate().is_ok());
    assert!(patch(None, None).validate().is_ok());
    let err = patch(Some(6), Some(5)).validate().unwrap_err();
    assert_eq!(err.kind(), ErrorKind::Validation);
    assert_eq!(err.message(), "max_temp: must not be below min_temp");
}
