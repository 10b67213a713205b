use vstd::prelude::*;

verus! {

/// One of the callback-style `getUserMedia` entry points on `navigator`,
/// standard or vendor-prefixed.
#[derive(Clone, Copy, Debug, PartialEq, Eq, Structural)]
pub enum LegacyGetUserMedia {
    Standard,
    Webkit,
    Moz,
    Ms,
}

/// The media-capture API through which microphone access is requested.
#[derive(Clone, Copy, Debug, PartialEq, Eq, Structural)]
pub enum UserMediaApi {
    /// The promise-based `navigator.mediaDevices.getUserMedia`.
    MediaDevices,
    /// A callback-style `navigator.*getUserMedia`.
    Legacy(LegacyGetUserMedia),
}

/// Which media-capture entry points the host environment offers.
#[derive(Clone, Copy, Debug, PartialEq, Eq, Structural)]
pub struct UserMediaSupport {
    pub media_devices: bool,
    pub get_user_media: bool,
    pub webkit_get_user_media: bool,
    pub moz_get_user_media: bool,
    pub ms_get_user_media: bool,
}

/// The callback-style entry point in order of preference: the standard
/// name first, then the WebKit, Mozilla and Microsoft prefixes.
pub open spec fn spec_legacy_api(s: UserMediaSupport) -> Option<LegacyGetUserMedia> {
    if s.get_user_media {
        Some(LegacyGetUserMedia::Standard)
    } else if s.webkit_get_user_media {
        Some(LegacyGetUserMedia::Webkit)
    } else if s.moz_get_user_media {
        Some(LegacyGetUserMedia::Moz)
    } else if s.ms_get_user_media {
        Some(LegacyGetUserMedia::Ms)
    } else {
        None
    }
}

/// `mediaDevices` wherever it exists, else the preferred callback-style
/// entry point, else none.
pub open spec fn spec_user_media_api(s: UserMediaSupport) -> Option<UserMediaApi> {
    if s.media_devices {
        Some(UserMediaApi::MediaDevices)
    } else {
        match spec_legacy_api(s) {
            Some(l) => Some(UserMediaApi::Legacy(l)),
            None => None,
        }
    }
}

/// Picks the callback-style `getUserMedia` entry point.
pub fn select_legacy_api(s: &UserMediaSupport) -> (r: Option<LegacyGetUserMedia>)
    ensures
        r == spec_legacy_api(*s),
        r is None <==> !(s.get_user_media || s.webkit_get_user_media || s.moz_get_user_media
            || s.ms_get_user_media),
{
    if s.get_user_media {
        Some(LegacyGetUserMedia::Standard)
    } else if s.webkit_get_user_media {
        Some(LegacyGetUserMedia::Webkit)
    } else if s.moz_get_user_media {
        Some(LegacyGetUserMedia::Moz)
    } else if s.ms_get_user_media {
        Some(LegacyGetUserMedia::Ms)
    } else {
        None
    }
}

/// Picks the media-capture API through which microphone access is requested.
pub fn select_user_media_api(s: &UserMediaSupport) -> (r: Option<UserMediaApi>)
    ensures
        r == spec_user_media_api(*s),
        s.media_devices <==> r == Some(UserMediaApi::MediaDevices),
        r is None <==> !(s.media_devices || s.get_user_media || s.webkit_get_user_media
            || s.moz_get_user_media || s.ms_get_user_media),
{
    if s.media_devices {
        Some(UserMediaApi::MediaDevices)
    } else {
        match select_legacy_api(s) {
            Some(l) => Some(UserMediaApi::Legacy(l)),
            None => None,
        }
    }
}

/// How a request for microphone access ended.
pub enum PermissionOutcome<S> {
    /// Access was granted; the platform handed over the live stream.
    Granted(S),
    /// Access was denied, or no capture device exists.
    Denied,
}

/// What the caller's callback receives for an outcome: the stream when access
/// was granted, nothing otherwise. A denial is not reported to the callback.
pub open spec fn spec_delivered<S>(o: PermissionOutcome<S>) -> Option<S> {
    match o {
        PermissionOutcome::Granted(s) => Some(s),
        PermissionOutcome::Denied => None,
    }
}

/// The stream to hand to the caller's callback, if any.
pub fn stream_to_deliver<S>(o: PermissionOutcome<S>) -> (r: Option<S>)
    ensures
        r == spec_delivered(o),
        o is Denied ==> r is None,
        o is Granted ==> r == Some(o->Granted_0),
{
    match o {
        PermissionOutcome::Granted(s) => Some(s),
        PermissionOutcome::Denied => None,
    }
}

} // verus!
