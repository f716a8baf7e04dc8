// Tests for the detour lifecycle, the once-only runtime slot, the
// interception bridge, the crash reporter, and the wide-string encoding.

use lovely_win::bridge::bridge_forward;
use lovely_win::bridge::bridge_return;
use lovely_win::bridge::dispatch_call;
use lovely_win::bridge::Dispatch;
use lovely_win::bridge::LoadArgs;
use lovely_win::detour::Detour;
use lovely_win::report::crash_message;
use lovely_win::report::window_title;
use lovely_win::report::Reporter;
use lovely_win::runtime::Runtime;
use lovely_win::runtime::RuntimeSlot;
use lovely_win::wide::encode_notice;
use lovely_win::wide::window_title_wide;
use lovely_win::wide::WideError;

fn sample_call() -> LoadArgs {
    LoadArgs {
        state: 0x77,
        buf: vec![0x2d, 0x2d, 0x20, 0x68, 0x69],
        len: 5,
        name: b"chunk1".to_vec(),
        mode: b"bt".to_vec(),
    }
}

#[test]
fn detour_two_phase_lifecycle() {
    let mut d = Detour::install(0x4321, 0x9999);
    assert!(!d.enabled());
    // Before enabling, calls still reach the original.
    assert_eq!(d.route(), 0x4321);
    d.enable();
    assert!(d.enabled());
    // Enabled: calls are redirected, the original stays callable.
    assert_eq!(d.route(), 0x9999);
    assert_eq!(d.trampoline(), 0x4321);
}

#[test]
fn runtime_slot_fills_exactly_once() {
    let mut slot = RuntimeSlot::empty();
    assert!(!slot.is_initialized());
    assert_eq!(slot.set(Runtime::init(true)), Ok(()));
    assert!(slot.is_initialized());
    assert!(slot.get().dump_all);
    // The second fill attempt is refused and the slot keeps its value.
    assert_eq!(slot.set(Runtime::init(false)), Err(Runtime { dump_all: false }));
    assert!(slot.get().dump_all);
}

// Round trip: an enabled detour routes the call into the bridge with the
// five values unmodified; the bridge forwards them untouched and returns
// the engine's status bit-identically, so electing to pass through yields
// the original's status.
#[test]
fn round_trip_through_bridge() {
    let mut d = Detour::install(0x4321, 0x9999);
    d.enable();
    match dispatch_call(&d, sample_call()) {
        Dispatch::ToBridge(got) => {
            assert_eq!(got.state, 0x77);
            assert_eq!(got.buf, vec![0x2d, 0x2d, 0x20, 0x68, 0x69]);
            assert_eq!(got.len, 5);
            assert_eq!(got.name, b"chunk1".to_vec());
            assert_eq!(got.mode, b"bt".to_vec());
        },
        Dispatch::ToOriginal(_) => panic!("enabled detour must redirect into the bridge"),
    }

    let mut slot = RuntimeSlot::empty();
    slot.set(Runtime::init(false)).unwrap();
    let fwd = bridge_forward(&slot, sample_call());
    assert_eq!(fwd.state, 0x77);
    assert_eq!(fwd.buf, vec![0x2d, 0x2d, 0x20, 0x68, 0x69]);
    assert_eq!(fwd.len, 5);
    assert_eq!(fwd.name, b"chunk1".to_vec());
    assert_eq!(fwd.mode, b"bt".to_vec());

    let original_status = 0u32;
    assert_eq!(bridge_return(original_status), original_status);
    assert_eq!(bridge_return(0xDEAD_BEEF), 0xDEAD_BEEF);
}

#[test]
fn disabled_detour_leaves_calls_untouched() {
    let d = Detour::install(0x4321, 0x9999);
    match dispatch_call(&d, sample_call()) {
        Dispatch::ToOriginal(got) => {
            assert_eq!(got.state, 0x77);
            assert_eq!(got.buf.len(), 5);
        },
        Dispatch::ToBridge(_) => panic!("a detour that is not enabled must not redirect"),
    }
}

#[test]
fn crash_message_exact_text() {
    assert_eq!(
        crash_message("thread panicked at 'oh no'"),
        "lovely-injector has crashed: \nthread panicked at 'oh no'"
    );
}

#[test]
fn window_title_exact_text() {
    assert_eq!(window_title("0.9.2"), "Lovely 0.9.2");
}

// Scenario: an uncaught failure after hooking.  The reporter fires exactly
// once and the notice carries the fixed title and the failure text.
#[test]
fn crash_reporter_fires_once() {
    let mut r = Reporter::new();
    assert_eq!(r.fired, 0);
    r.install();
    assert_eq!(r.fired, 0);
    let n = r.on_fatal("0.9.2", "patch logic failed");
    assert_eq!(r.fired, 1);
    assert_eq!(n.title, "Lovely 0.9.2");
    assert_eq!(n.body, "lovely-injector has crashed: \npatch logic failed");
    assert!(n.body.contains("patch logic failed"));
}

#[test]
fn wide_title_round_trips() {
    let w = window_title_wide("2.0").unwrap();
    assert_eq!(w.to_string().unwrap(), "Lovely 2.0");
}

#[test]
fn wide_title_trailing_nul_is_terminator() {
    // A sole final nul is the string's terminator: absorbed, not stored.
    let w = window_title_wide("2.0\u{0}").unwrap();
    assert_eq!(w.to_string().unwrap(), "Lovely 2.0");
}

#[test]
fn wide_title_interior_nul_is_refused() {
    assert!(matches!(window_title_wide("2.\u{0}0"), Err(WideError::InteriorNul)));
}

#[test]
fn wide_notice_round_trips() {
    let mut r = Reporter::new();
    r.install();
    let n = r.on_fatal("1.1", "boom");
    let (title, body) = encode_notice(&n).unwrap();
    assert_eq!(title.to_string().unwrap(), "Lovely 1.1");
    assert_eq!(body.to_string().unwrap(), "lovely-injector has crashed: \nboom");
}

#[test]
fn wide_notice_interior_nul_is_refused() {
    let mut r = Reporter::new();
    r.install();
    let n = r.on_fatal("1.1", "bo\u{0}om");
    assert!(matches!(encode_notice(&n), Err(WideError::InteriorNul)));
}
