use vstd::prelude::*;
use crate::errors::AuthError;

verus! {

/// Interval assumed when the provider's device authorization names none,
/// in seconds: the provider-defined minimum.
pub const DEFAULT_POLL_INTERVAL: u64 = 5;

/// The fields of a device-authorization response body, as plain values.
/// The caller decodes the provider's JSON body and hands these in; a field
/// that the body lacks is `None`.
#[derive(Debug, Clone, PartialEq, Eq)]
pub struct DeviceResponseFields {
    pub device_code: Option<String>,
    pub user_code: Option<String>,
    pub verification_uri: Option<String>,
    pub interval: Option<u64>,
    pub expires_in: Option<u64>,
}

/// A provider-issued device authorization. Immutable once issued; its
/// lifetime is bounded by the provider's expiry.
#[derive(Debug, Clone, PartialEq, Eq)]
pub struct DeviceAuthorization {
    /// Opaque provider-issued secret, redeemed for the token once the user
    /// approves.
    pub device_code: String,
    /// Short code the user enters at the verification URL.
    pub user_code: String,
    /// Where the user enters the code.
    pub verification_uri: String,
    /// Minimum seconds between poll attempts.
    pub interval: u64,
    /// Lifetime of the device code in seconds, if the provider gave one.
    pub expires_in: Option<u64>,
}

/// A device authorization is well formed when its code is usable and its
/// interval respects the minimum of one second.
pub open spec fn device_authorization_wf(d: DeviceAuthorization) -> bool {
    d.device_code@.len() > 0 && d.interval >= 1
}

/// The read-only snapshot handed back to the caller after a flow starts.
/// The caller holds it only to re-submit `device_code` and `interval` to
/// the completion step.
#[derive(Debug, Clone, PartialEq, Eq)]
pub struct AuthFlowState {
    pub user_code: String,
    pub verification_uri: String,
    pub device_code: String,
    pub interval: u64,
}

/// The polling interval a device authorization settles on: the provider's
/// value raised to the minimum of one second, or the default when the
/// provider named none.
pub open spec fn spec_effective_interval(h: Option<u64>) -> u64 {
    match h {
        None => DEFAULT_POLL_INTERVAL,
        Some(i) => if i >= 1 {
            i
        } else {
            1
        },
    }
}

/// The response body carries everything a device authorization needs.
pub open spec fn device_fields_complete(f: DeviceResponseFields) -> bool {
    &&& f.device_code matches Some(c) && c@.len() > 0
    &&& f.user_code is Some
    &&& f.verification_uri is Some
}

/// Turns one device-authorization response into a `DeviceAuthorization`.
///
/// A failure status or a body without a usable device code, user code or
/// verification URL is rejected; a missing interval falls back to the
/// provider-defined minimum.
pub fn device_authorization_from_response(status_success: bool, f: DeviceResponseFields) -> (r:
    Result<DeviceAuthorization, AuthError>)
    ensures
        r is Ok <==> status_success && device_fields_complete(f),
        r matches Ok(d) ==> ({
            &&& f.device_code == Some(d.device_code)
            &&& f.user_code == Some(d.user_code)
            &&& f.verification_uri == Some(d.verification_uri)
            &&& d.interval == spec_effective_interval(f.interval)
            &&& d.expires_in == f.expires_in
            &&& device_authorization_wf(d)
        }),
        !status_success ==> (r matches Err(e) && e matches AuthError::ProviderError(c)
            && c@ == "device authorization request returned a failure status"@),
        status_success && !device_fields_complete(f) ==> (r matches Err(e) && e matches
            AuthError::MalformedResponse(c)
            && c@ == "device authorization response lacked a required field"@),
{
    if !status_success {
        return Err(
            AuthError::ProviderError(
                "device authorization request returned a failure status".to_owned(),
            ),
        );
    }
    let DeviceResponseFields { device_code, user_code, verification_uri, interval, expires_in } = f;
    match (device_code, user_code, verification_uri) {
        (Some(c), Some(u), Some(v)) => {
            if c.as_str().is_empty() {
                Err(
                    AuthError::MalformedResponse(
                        "device authorization response lacked a required field".to_owned(),
                    ),
                )
            } else {
                let eff: u64 = match interval {
                    None => DEFAULT_POLL_INTERVAL,
                    Some(i) => if i >= 1 {
                        i
                    } else {
                        1
                    },
                };
                Ok(
                    DeviceAuthorization {
                        device_code: c,
                        user_code: u,
                        verification_uri: v,
                        interval: eff,
                        expires_in,
                    },
                )
            }
        },
        _ => {
            Err(
                AuthError::MalformedResponse(
                    "device authorization response lacked a required field".to_owned(),
                ),
            )
        },
    }
}

/// Maps a device authorization into the snapshot the caller receives,
/// field for field.
pub fn into_flow_state(d: DeviceAuthorization) -> (r: AuthFlowState)
    ensures
        r.user_code == d.user_code,
        r.verification_uri == d.verification_uri,
        r.device_code == d.device_code,
        r.interval == d.interval,
{
    let DeviceAuthorization { device_code, user_code, verification_uri, interval, expires_in: _ } =
        d;
    AuthFlowState { user_code, verification_uri, device_code, interval }
}

} // verus!
