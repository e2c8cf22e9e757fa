use areum_backend::models::onboarding::{ApiResponse, OnboardingState, OnboardingStep, OnboardingStatusResponse};
use areum_backend::models::sensor_data::{DeviceInfo, HealthDataTimeQuery, StreamType};
use areum_backend::models::user::{validate_registration, RegistrationError};
use areum_backend::time::Timestamp;

fn request(username: &str, password: &str, email: &str) -> Result<(), RegistrationError> {
    validate_registration(username, password, email)
}

#[test]
fn register_user_returns_200_for_valid_data() {
    assert_eq!(request("protecteduser", "password123", "protecteduser@example.com"), Ok(()));
    assert_eq!(request("abc", "12345678", "@"), Ok(()));
}

#[test]
fn register_user_returns_400_for_invalid_data() {
    let verdict = request("", "", "invalid-email");
    assert_eq!(verdict, Err(RegistrationError::UsernameEmpty));
    assert_eq!(RegistrationError::UsernameEmpty.message(), "Username cannot be empty");
}

#[test]
fn each_rule_of_registration_has_its_error() {
    assert_eq!(request("ab", "password123", "a@b.c"), Err(RegistrationError::UsernameLength));
    assert_eq!(request(&"x".repeat(51), "password123", "a@b.c"), Err(RegistrationError::UsernameLength));
    assert_eq!(request(&"x".repeat(50), "password123", "a@b.c"), Ok(()));
    assert_eq!(request("abc", "", "a@b.c"), Err(RegistrationError::PasswordEmpty));
    assert_eq!(request("abc", "1234567", "a@b.c"), Err(RegistrationError::PasswordTooShort));
    assert_eq!(request("abc", "12345678", ""), Err(RegistrationError::EmailInvalid));
    assert_eq!(request("abc", "12345678", "invalid-email"), Err(RegistrationError::EmailInvalid));
    assert_eq!(RegistrationError::UsernameLength.message(), "Username must be between 3 and 50 characters");
    assert_eq!(RegistrationError::PasswordEmpty.message(), "Password cannot be empty");
    assert_eq!(RegistrationError::PasswordTooShort.message(), "Password must be at least 8 characters long");
    assert_eq!(RegistrationError::EmailInvalid.message(), "Valid email address is required");
}

#[test]
fn lengths_are_counted_in_bytes() {
    // Two letters of two bytes each make a username of four bytes.
    assert_eq!(request("\u{e9}\u{e9}", "password123", "a@b.c"), Ok(()));
    assert_eq!(request("\u{e9}", "password123", "a@b.c"), Err(RegistrationError::UsernameLength));
    assert_eq!(request("abc", "\u{e9}\u{e9}\u{e9}\u{e9}", "a@b.c"), Ok(()));
}

#[test]
fn streams_have_tags_and_labels() {
    let streams = [
        (StreamType::Acceleration, "acceleration", "Acceleration"),
        (StreamType::HeartRate, "heart_rate", "Heart rate"),
        (StreamType::BloodOxygen, "blood_oxygen", "Blood oxygen"),
        (StreamType::SkinTemperature, "skin_temperature", "Skin temperature"),
        (StreamType::GpsLocation, "gps_location", "GPS location"),
    ];
    for (stream, tag, label) in streams {
        assert_eq!(stream.as_str(), tag);
        assert_eq!(stream.label(), label);
        assert_eq!(StreamType::from_tag(tag), Some(stream));
    }
    assert_eq!(StreamType::from_tag("sleep"), None);
    assert_eq!(StreamType::from_tag("Heart_Rate"), None);
    assert_eq!(StreamType::from_tag(""), None);
}

#[test]
fn an_unknown_device_is_the_default() {
    let info = DeviceInfo::default();
    assert_eq!(info.device_type, "unknown");
    assert_eq!(info.model, "unknown");
    assert_eq!(info.os_version, "unknown");
    assert_eq!(info.device_id, None);
}

#[test]
fn a_time_query_names_stream_and_window() {
    let query = HealthDataTimeQuery {
        data_type: "heart_rate".to_string(),
        start_time: Timestamp::new(1, 0),
        end_time: Timestamp::new(2, 0),
    };
    assert_eq!(StreamType::from_tag(&query.clone().data_type), Some(StreamType::HeartRate));
}

#[test]
fn onboarding_starts_with_basic_info() {
    let state = OnboardingState::start();
    assert_eq!(state.current_step, OnboardingStep::BasicInfo);
    assert!(!state.basic_info_completed);
    assert!(!state.lifestyle_health_completed);
    assert!(!state.permissions_setup_completed);
}

#[test]
fn a_form_in_turn_moves_to_the_next_step() {
    let state = OnboardingState::start().after_form(OnboardingStep::BasicInfo);
    assert!(state.basic_info_completed);
    assert_eq!(state.current_step, OnboardingStep::LifestyleHealth);
    let state = state.after_form(OnboardingStep::LifestyleHealth);
    assert!(state.lifestyle_health_completed);
    assert_eq!(state.current_step, OnboardingStep::PermissionsSetup);
    let state = state.after_form(OnboardingStep::PermissionsSetup);
    assert!(state.permissions_setup_completed);
    assert_eq!(state.current_step, OnboardingStep::Personalization);
}

#[test]
fn a_form_out_of_turn_is_marked_but_moves_nothing() {
    let state = OnboardingState::start().after_form(OnboardingStep::PermissionsSetup);
    assert!(state.permissions_setup_completed);
    assert!(!state.basic_info_completed);
    assert_eq!(state.current_step, OnboardingStep::BasicInfo);
    let again = OnboardingState::start().after_form(OnboardingStep::BasicInfo).after_form(OnboardingStep::BasicInfo);
    assert_eq!(again, OnboardingState::start().after_form(OnboardingStep::BasicInfo));
    let unchanged = OnboardingState::start().after_form(OnboardingStep::Personalization);
    assert_eq!(unchanged, OnboardingState::start());
}

#[test]
fn steps_have_their_stored_names() {
    assert_eq!(OnboardingStep::BasicInfo.as_str(), "basic_info");
    assert_eq!(OnboardingStep::LifestyleHealth.as_str(), "lifestyle_health");
    assert_eq!(OnboardingStep::PermissionsSetup.as_str(), "permissions_setup");
    assert_eq!(OnboardingStep::Personalization.as_str(), "personalization");
    assert_eq!(OnboardingStep::Completed.as_str(), "completed");
    for step in [
        OnboardingStep::BasicInfo,
        OnboardingStep::LifestyleHealth,
        OnboardingStep::PermissionsSetup,
        OnboardingStep::Personalization,
        OnboardingStep::Completed,
    ] {
        assert_eq!(OnboardingStep::from_name(step.as_str()), Some(step));
    }
    assert_eq!(OnboardingStep::from_name("done"), None);
    assert_eq!(OnboardingStep::Personalization.next(), OnboardingStep::Completed);
    assert_eq!(OnboardingStep::Completed.next(), OnboardingStep::Completed);
}

#[test]
fn onboarding_status_returns_200_with_valid_token() {
    let state = OnboardingState::start();
    let status = OnboardingStatusResponse {
        user_id: "550e8400-e29b-41d4-a716-446655440000".to_string(),
        basic_info_completed: state.basic_info_completed,
        lifestyle_health_completed: state.lifestyle_health_completed,
        permissions_setup_completed: state.permissions_setup_completed,
        personalization_completed: false,
        onboarding_completed: false,
        current_step: state.current_step.as_str().to_string(),
    };
    let response = ApiResponse::success(None, Some(status));
    assert_eq!(response.status, "success");
    assert_eq!(response.message, None);
    let data = response.data.expect("data");
    assert_eq!(data.basic_info_completed, false);
    assert_eq!(data.lifestyle_health_completed, false);
    assert_eq!(data.permissions_setup_completed, false);
    assert_eq!(data.personalization_completed, false);
    assert_eq!(data.onboarding_completed, false);
    assert_eq!(data.current_step, "basic_info");
}

#[test]
fn an_error_answer_carries_a_message_and_no_data() {
    let response: ApiResponse<u8> = ApiResponse::error("Invalid user ID format".to_string());
    assert_eq!(response.status, "error");
    assert_eq!(response.message, Some("Invalid user ID format".to_string()));
    assert_eq!(response.data, None);
}
