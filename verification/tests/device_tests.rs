use device_auth::device::AuthFlowState;
use device_auth::device::DeviceAuthorization;
use device_auth::device::DeviceResponseFields;
use device_auth::device::device_authorization_from_response;
use device_auth::device::into_flow_state;
use device_auth::errors::AuthError;

fn full_fields() -> DeviceResponseFields {
    DeviceResponseFields {
        device_code: Some("dc_3584".to_string()),
        user_code: Some("WDJB-MJHT".to_string()),
        verification_uri: Some("https://github.com/login/device".to_string()),
        interval: Some(5),
        expires_in: Some(900),
    }
}

#[test]
fn accepts_a_complete_response() {
    let d = device_authorization_from_response(true, full_fields()).unwrap();
    assert_eq!(d.device_code, "dc_3584");
    assert_eq!(d.user_code, "WDJB-MJHT");
    assert_eq!(d.verification_uri, "https://github.com/login/device");
    assert_eq!(d.interval, 5);
    assert_eq!(d.expires_in, Some(900));
}

#[test]
fn missing_interval_falls_back_to_default() {
    let mut f = full_fields();
    f.interval = None;
    let d = device_authorization_from_response(true, f).unwrap();
    assert_eq!(d.interval, 5);
}

#[test]
fn zero_interval_is_raised_to_the_minimum() {
    let mut f = full_fields();
    f.interval = Some(0);
    let d = device_authorization_from_response(true, f).unwrap();
    assert_eq!(d.interval, 1);
}

#[test]
fn failure_status_is_a_provider_error() {
    let r = device_authorization_from_response(false, full_fields());
    assert_eq!(
        r,
        Err(AuthError::ProviderError(
            "device authorization request returned a failure status".to_string()
        ))
    );
}

#[test]
fn missing_device_code_is_malformed() {
    let mut f = full_fields();
    f.device_code = None;
    let r = device_authorization_from_response(true, f);
    assert_eq!(
        r,
        Err(AuthError::MalformedResponse(
            "device authorization response lacked a required field".to_string()
        ))
    );
}

#[test]
fn empty_device_code_is_malformed() {
    let mut f = full_fields();
    f.device_code = Some(String::new());
    let r = device_authorization_from_response(true, f);
    assert!(matches!(r, Err(AuthError::MalformedResponse(_))));
}

#[test]
fn missing_user_code_is_malformed() {
    let mut f = full_fields();
    f.user_code = None;
    let r = device_authorization_from_response(true, f);
    assert!(matches!(r, Err(AuthError::MalformedResponse(_))));
}

#[test]
fn missing_verification_uri_is_malformed() {
    let mut f = full_fields();
    f.verification_uri = None;
    let r = device_authorization_from_response(true, f);
    assert!(matches!(r, Err(AuthError::MalformedResponse(_))));
}

#[test]
fn flow_state_carries_the_authorization_over() {
    let d = DeviceAuthorization {
        device_code: "dc_3584".to_string(),
        user_code: "WDJB-MJHT".to_string(),
        verification_uri: "https://github.com/login/device".to_string(),
        interval: 7,
        expires_in: None,
    };
    let st: AuthFlowState = into_flow_state(d);
    assert_eq!(st.device_code, "dc_3584");
    assert_eq!(st.user_code, "WDJB-MJHT");
    assert_eq!(st.verification_uri, "https://github.com/login/device");
    assert_eq!(st.interval, 7);
}

#[test]
fn errors_describe_themselves() {
    assert_eq!(
        AuthError::Denied.describe(),
        "the user denied the authorization request"
    );
    assert_eq!(
        AuthError::Expired.describe(),
        "the device code expired before approval"
    );
    assert_eq!(
        AuthError::BindError.describe(),
        "the local callback port is unavailable"
    );
    assert_eq!(
        AuthError::NetworkError("timed out".to_string()).describe(),
        "network failure while contacting the provider"
    );
}

#[test]
fn errors_carry_their_cause() {
    let e = AuthError::ProviderError("server_error".to_string());
    assert_eq!(e.cause(), Some(&"server_error".to_string()));
    assert_eq!(AuthError::Denied.cause(), None);
    let n = AuthError::NetworkError("timed out".to_string());
    assert_eq!(n.cause(), Some(&"timed out".to_string()));
    let m = AuthError::MalformedResponse("bad body".to_string());
    assert_eq!(m.cause(), Some(&"bad body".to_string()));
}
