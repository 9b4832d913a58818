use loopback_capture::{
    Duration, PlatformAudioEndpoint, PlatformCall, PlatformReply, StartError, StopError,
    StopFailures, TimebaseSnapshot,
};
use loopback_capture::DeviceHandle;

#[test]
fn two_plus_two() {
    let result: u64 = loopback_capture::add(2, 2);
    assert_eq!(result, 4);
}

#[test]
fn add_reaches_the_largest_count() {
    assert_eq!(loopback_capture::add(u64::MAX - 1, 1), u64::MAX);
    assert_eq!(loopback_capture::add(0, 0), 0);
}

#[test]
fn endpoint_asks_for_the_default_render_device() {
    assert_eq!(
        PlatformAudioEndpoint::resolve_default_render_device(),
        PlatformCall::EnumerateDefaultRenderDevice
    );
}

#[test]
fn endpoint_resolves_the_device_the_platform_names() {
    let device = DeviceHandle { id: 42 };
    assert_eq!(
        PlatformAudioEndpoint::resume_resolve_default_render_device(PlatformReply::Device(device)),
        Ok(device)
    );
}

#[test]
fn endpoint_without_a_device_is_unavailable() {
    assert_eq!(
        PlatformAudioEndpoint::resume_resolve_default_render_device(PlatformReply::Failed),
        Err(StartError::DeviceUnavailable)
    );
    assert_eq!(
        PlatformAudioEndpoint::resume_resolve_default_render_device(PlatformReply::Done),
        Err(StartError::DeviceUnavailable)
    );
}

#[test]
fn snapshot_keeps_both_readings_and_starts_at_zero() {
    let taken = TimebaseSnapshot::snapshot(123_456, 10_000_000);
    assert_eq!(
        taken,
        Some(TimebaseSnapshot {
            reference_counter_value: 123_456,
            counter_frequency: 10_000_000,
            start_position: 0,
        })
    );
}

#[test]
fn snapshot_needs_a_positive_frequency() {
    assert_eq!(TimebaseSnapshot::snapshot(1, 0), None);
    assert_eq!(TimebaseSnapshot::snapshot(1, -5), None);
    assert_eq!(TimebaseSnapshot::snapshot(-1, 0), None);
    assert!(TimebaseSnapshot::snapshot(0, 1).is_some());
}

#[test]
fn snapshot_takes_any_counter_value() {
    assert_eq!(
        TimebaseSnapshot::snapshot(-1, 10),
        Some(TimebaseSnapshot {
            reference_counter_value: -1,
            counter_frequency: 10,
            start_position: 0,
        })
    );
    assert!(TimebaseSnapshot::snapshot(i64::MIN, 1).is_some());
    assert!(TimebaseSnapshot::snapshot(i64::MAX, i64::MAX).is_some());
    let below_zero = TimebaseSnapshot::snapshot(-5, 10).unwrap();
    assert_eq!(below_zero.to_timestamp(20), Duration { nanos: 2_000_000_000 });
    assert_eq!(below_zero.start_wallclock(), None);
}

#[test]
fn to_timestamp_divides_the_position_by_the_frequency() {
    let snapshot = TimebaseSnapshot::snapshot(0, 10_000_000).unwrap();
    assert_eq!(snapshot.to_timestamp(0), Duration { nanos: 0 });
    assert_eq!(snapshot.to_timestamp(1), Duration { nanos: 100 });
    assert_eq!(snapshot.to_timestamp(480), Duration { nanos: 48_000 });
    assert_eq!(snapshot.to_timestamp(10_000_000), Duration { nanos: 1_000_000_000 });
}

#[test]
fn to_timestamp_rounds_down() {
    let snapshot = TimebaseSnapshot::snapshot(0, 3).unwrap();
    assert_eq!(snapshot.to_timestamp(1), Duration { nanos: 333_333_333 });
    assert_eq!(snapshot.to_timestamp(2), Duration { nanos: 666_666_666 });
    assert_eq!(snapshot.to_timestamp(3), Duration { nanos: 1_000_000_000 });
}

#[test]
fn to_timestamp_takes_the_largest_position() {
    let snapshot = TimebaseSnapshot::snapshot(0, 1).unwrap();
    assert_eq!(
        snapshot.to_timestamp(u64::MAX),
        Duration { nanos: 18_446_744_073_709_551_615u128 * 1_000_000_000u128 }
    );
}

#[test]
fn to_timestamp_counts_from_the_start_position() {
    let snapshot = TimebaseSnapshot {
        reference_counter_value: 0,
        counter_frequency: 1_000,
        start_position: 500,
    };
    assert_eq!(snapshot.to_timestamp(1_500), Duration { nanos: 1_000_000_000 });
    assert_eq!(snapshot.to_timestamp(500), Duration { nanos: 0 });
    assert_eq!(snapshot.to_timestamp(499), Duration { nanos: 0 });
    assert_eq!(snapshot.to_timestamp(0), Duration { nanos: 0 });
}

#[test]
fn a_faster_counter_than_the_resolution_can_stand_still() {
    let snapshot = TimebaseSnapshot::snapshot(0, 2_000_000_000).unwrap();
    assert_eq!(snapshot.to_timestamp(0), snapshot.to_timestamp(1));
    assert_eq!(snapshot.to_timestamp(2), Duration { nanos: 1 });
}

#[test]
fn start_wallclock_is_the_counter_over_the_frequency() {
    let snapshot = TimebaseSnapshot::snapshot(25_000_000, 10_000_000).unwrap();
    assert_eq!(snapshot.start_wallclock(), Some(Duration { nanos: 2_500_000_000 }));
    let at_zero = TimebaseSnapshot::snapshot(0, 10_000_000).unwrap();
    assert_eq!(at_zero.start_wallclock(), Some(Duration { nanos: 0 }));
}

#[test]
fn duration_splits_into_seconds_and_nanoseconds() {
    let span = Duration::from_nanos(2_500_000_123);
    assert_eq!(span.as_nanos(), 2_500_000_123);
    assert_eq!(span.as_secs(), 2);
    assert_eq!(span.subsec_nanos(), 500_000_123);
    let none = Duration::from_nanos(0);
    assert_eq!(none.as_secs(), 0);
    assert_eq!(none.subsec_nanos(), 0);
}

#[test]
fn no_failures_make_a_success() {
    let none = StopFailures::new();
    assert!(none.is_empty());
    assert_eq!(none.into_result(), Ok(()));
}

#[test]
fn failures_are_reported_together() {
    let capture = StopFailures { capture_stop: true, ..StopFailures::new() };
    let render = StopFailures { render_stream: true, ..StopFailures::new() };
    let both = capture.merge(render);
    assert!(!both.is_empty());
    assert_eq!(
        both,
        StopFailures { capture_stop: true, render_stream: true, ..StopFailures::new() }
    );
    assert_eq!(both.into_result(), Err(StopError::StopFailed(both)));
    assert_eq!(StopFailures::new().merge(StopFailures::new()), StopFailures::new());
}

#[test]
fn only_done_is_done() {
    assert!(PlatformReply::Done.is_done());
    assert!(!PlatformReply::Failed.is_done());
    assert!(!PlatformReply::NoPacket.is_done());
    assert!(!PlatformReply::Counter(0).is_done());
}
