use exopticon::errors::ServiceError;
use exopticon::models::{SlimUser, User};
use exopticon::onvif::{DeviceDateAndTime, NtpType, TimeType};

#[test]
fn slim_user_drops_the_password() {
    let user = User {
        id: 3,
        username: "operator".to_string(),
        password: "SECRET-REDACTED".to_string(),
        timezone: "America/Chicago".to_string(),
        inserted_at: 0,
        updated_at: 0,
    };
    let slim = SlimUser::from(user);
    assert_eq!(slim.id, 3);
    assert_eq!(slim.username, "operator");
    assert_eq!(slim.timezone, "America/Chicago");
}

#[test]
fn service_error_messages() {
    assert_eq!(ServiceError::InternalServerError.message(), "Internal Server Error");
    assert_eq!(ServiceError::NotFound.message(), "Not Found");
    assert_eq!(
        ServiceError::BadRequest("missing camera id".to_string()).message(),
        "missing camera id"
    );
}

#[test]
fn device_date_and_time_defaults() {
    let d = DeviceDateAndTime::new();
    assert_eq!(d.time_type, TimeType::Manual);
    assert!(!d.daylight_savings);
    assert_eq!(d.timezone, "UTC");
    assert!(d.utc_datetime.is_none());
}

#[test]
fn setting_names() {
    assert_eq!(TimeType::Manual.name(), "Manual");
    assert_eq!(TimeType::Ntp.name(), "Ntp");
    assert_eq!(NtpType::Ipv4.name(), "IPv4");
    assert_eq!(NtpType::Ipv6.name(), "IPv6");
    assert_eq!(NtpType::Dns.name(), "DNS");
}
