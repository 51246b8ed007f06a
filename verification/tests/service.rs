use trance::config::DaemonConfig;
use trance::inhibit::InhibitorState;
use trance::saver::SaverCatalog;
use trance::service::{control_call, control_peer, control_verdict, inhibit_call, uninhibit_call, ControlCall, Forward, PeerCredentials, ServiceError};

fn catalog() -> SaverCatalog {
    SaverCatalog {
        allowed: vec!["beams".to_string(), "storm".to_string(), "glyphs".to_string()],
        installed: vec!["beams".to_string(), "storm".to_string()],
    }
}

#[test]
fn peer_checks() {
    assert_eq!(
        control_peer(PeerCredentials::NoSender, ""),
        Err(ServiceError::AccessDenied("control request missing D-Bus sender".to_string()))
    );
    assert_eq!(control_peer(PeerCredentials::BusUnavailable, "no bus"), Err(ServiceError::Failed("no bus".to_string())));
    assert_eq!(
        control_peer(PeerCredentials::Unverifiable, ""),
        Err(ServiceError::AccessDenied("cannot verify D-Bus peer".to_string()))
    );
    assert_eq!(
        control_peer(PeerCredentials::Known { pid: None, uid: Some(1) }, ""),
        Err(ServiceError::AccessDenied("D-Bus peer PID unavailable".to_string()))
    );
    assert_eq!(control_peer(PeerCredentials::Known { pid: Some(9), uid: None }, ""), Ok((9, None)));
    assert_eq!(control_verdict(true), Ok(()));
    assert_eq!(
        control_verdict(false),
        Err(ServiceError::AccessDenied("control methods require the trance CLI or panel applet".to_string()))
    );
}

#[test]
fn settings_calls() {
    let cat = catalog();
    let mut c = DaemonConfig::default();
    let e = control_call(&ControlCall::Disable, &mut c, &cat).unwrap();
    assert!(!c.idle_enabled);
    assert_eq!(e.forward, Some(Forward::StopPresentation));
    assert_eq!(e.persist, Some("persisting config after Disable command"));
    assert!(e.sync_status);
    let e = control_call(&ControlCall::SetTimeout(20), &mut c, &cat).unwrap();
    assert_eq!(e.forward, Some(Forward::SetTimeout(20)));
    assert_eq!(c.idle_timeout_mins, 20);
    assert_eq!(
        control_call(&ControlCall::SetTimeout(0), &mut c, &cat).unwrap_err(),
        ServiceError::Failed("timeout must be between 1 and 240 minutes".to_string())
    );
    assert_eq!(c.idle_timeout_mins, 20);
    control_call(&ControlCall::SetSaver(String::new()), &mut c, &cat).unwrap();
    assert_eq!(c.active_saver, None);
    assert_eq!(
        control_call(&ControlCall::SetSaver("glyphs".into()), &mut c, &cat).unwrap_err(),
        ServiceError::Failed("resolving saver binary for glyphs".to_string())
    );
    control_call(&ControlCall::SetRenderScale(0.5f32.to_bits()), &mut c, &cat).unwrap();
    assert_eq!(c.render_scale, Some(0.5f32.to_bits()));
    assert_eq!(
        control_call(&ControlCall::SetRenderScale(1.5f32.to_bits()), &mut c, &cat).unwrap_err(),
        ServiceError::Failed("render_scale must be between 0.25 and 1.0".to_string())
    );
}

#[test]
fn presentation_calls() {
    let cat = catalog();
    let mut c = DaemonConfig::default();
    let before = c.duplicate();
    let e = control_call(&ControlCall::Preview("storm".into()), &mut c, &cat).unwrap();
    assert_eq!(e.forward, Some(Forward::Preview));
    assert!(e.mark_dirty && e.persist.is_none());
    assert_eq!(
        control_call(&ControlCall::Preview("nope".into()), &mut c, &cat).unwrap_err(),
        ServiceError::Failed("unknown or invalid screensaver name: nope".to_string())
    );
    let e = control_call(&ControlCall::StopPreview, &mut c, &cat).unwrap();
    assert_eq!(e.forward, Some(Forward::StopPresentation));
    let e = control_call(&ControlCall::SetGpuEnabled(true), &mut c, &cat).unwrap();
    assert_eq!(e.forward, None);
    assert!(!e.sync_status && !e.mark_dirty);
    assert!(c.same_as(&before));
}

#[test]
fn inhibit_calls() {
    let mut st = InhibitorState::new();
    assert_eq!(
        inhibit_call(&mut st, "vlc", "video", None),
        Err(ServiceError::Failed("inhibit request missing D-Bus sender".to_string()))
    );
    assert_eq!(inhibit_call(&mut st, "vlc", "video", Some(":1.5")), Ok(1));
    assert_eq!(inhibit_call(&mut st, "mpv", "video", Some(":1.6")), Ok(2));
    assert_eq!(
        uninhibit_call(&mut st, 1, Some(":1.6")),
        Err(ServiceError::Failed("unknown inhibit cookie for caller: 1".to_string()))
    );
    assert_eq!(uninhibit_call(&mut st, 1, Some(":1.5")), Ok(()));
    assert_eq!(st.list().len(), 1);
    assert_eq!(
        uninhibit_call(&mut st, 2, None),
        Err(ServiceError::Failed("un_inhibit request missing D-Bus sender".to_string()))
    );
    for _ in 0..31 {
        assert!(inhibit_call(&mut st, "a", "b", Some(":1.6")).is_ok());
    }
    assert_eq!(
        inhibit_call(&mut st, "a", "b", Some(":1.6")),
        Err(ServiceError::LimitsExceeded("too many concurrent inhibitors for this client".to_string()))
    );
}

#[test]
fn inhibit_calls_change_the_registry() {
    let mut st = InhibitorState::new();
    assert_eq!(inhibit_call(&mut st, "vlc", "video", Some(":1.5")), Ok(1));
    assert_eq!(st.list(), vec![(1, "vlc".to_string(), "video".to_string())]);
    assert_eq!(inhibit_call(&mut st, "mpv", "music", Some(":1.6")), Ok(2));
    assert_eq!(uninhibit_call(&mut st, 1, Some(":1.5")), Ok(()));
    assert_eq!(st.list(), vec![(2, "mpv".to_string(), "music".to_string())]);
    assert!(uninhibit_call(&mut st, 2, Some(":1.5")).is_err());
    assert_eq!(st.list().len(), 1);
}
