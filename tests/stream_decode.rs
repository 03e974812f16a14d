use audio_ingest::error::DecodeError;
use audio_ingest::resample::resampled_len;
use audio_ingest::stream::{
    needs_fec, plan_packet, tally_stream, DecodeOutcome, PacketPlan, PacketTrace, StreamTally,
};

fn good(n: usize) -> PacketTrace {
    PacketTrace { len: 120, primary: DecodeOutcome::Samples(n), fec: DecodeOutcome::Failed }
}

#[test]
fn packet_plans() {
    assert_eq!(plan_packet(0), PacketPlan::Reject);
    assert_eq!(plan_packet(1), PacketPlan::Reject);
    assert_eq!(plan_packet(2), PacketPlan::Decode { oversized: false });
    assert_eq!(plan_packet(1275), PacketPlan::Decode { oversized: false });
    assert_eq!(plan_packet(1276), PacketPlan::Decode { oversized: true });
}

#[test]
fn fec_is_tried_on_failure_and_on_empty_success() {
    assert!(needs_fec(DecodeOutcome::Failed));
    assert!(needs_fec(DecodeOutcome::Samples(0)));
    assert!(!needs_fec(DecodeOutcome::Samples(960)));
}

#[test]
fn one_corrupt_packet_costs_at_most_one_frame() {
    let baseline = vec![good(960); 5];
    let mut corrupted = baseline.clone();
    corrupted[2] = PacketTrace { len: 120, primary: DecodeOutcome::Failed, fec: DecodeOutcome::Failed };
    let a = tally_stream(&baseline).unwrap();
    let b = tally_stream(&corrupted).unwrap();
    assert_eq!(a, 4800);
    assert_eq!(b, 3840);
    assert!(a - b <= 5760);

    // With FEC recovering the frame nothing is lost.
    corrupted[2].fec = DecodeOutcome::Samples(960);
    assert_eq!(tally_stream(&corrupted), Ok(4800));
}

#[test]
fn all_failed_is_an_error() {
    let bad = PacketTrace { len: 50, primary: DecodeOutcome::Failed, fec: DecodeOutcome::Failed };
    assert_eq!(tally_stream(&[bad, bad]), Err(DecodeError::CodecDecodeFailed));
    assert_eq!(tally_stream(&[]), Err(DecodeError::CodecDecodeFailed));
}

#[test]
fn tally_counts_each_kind() {
    let mut t = StreamTally::new();
    assert_eq!(t.record(1, DecodeOutcome::Failed, DecodeOutcome::Failed), 0);
    assert_eq!(t.record(100, DecodeOutcome::Samples(960), DecodeOutcome::Failed), 960);
    assert_eq!(t.record(100, DecodeOutcome::Samples(0), DecodeOutcome::Samples(480)), 480);
    assert_eq!(t.record(100, DecodeOutcome::Failed, DecodeOutcome::Failed), 0);
    assert_eq!(t.record(2000, DecodeOutcome::Samples(960), DecodeOutcome::Failed), 960);
    let s = t.stats();
    assert_eq!(s.rejected, 1);
    assert_eq!(s.successful, 2);
    assert_eq!(s.recovered, 1);
    assert_eq!(s.zero_sample, 1);
    assert_eq!(s.failed, 1);
    assert_eq!(s.lost, 1);
    assert_eq!(s.oversized, 1);
    assert_eq!(t.total_samples(), 2400);
    assert_eq!(t.finish(), Ok(2400));
}

#[test]
fn two_seconds_of_frames_resample_to_two_seconds() {
    let traces = vec![good(960); 100];
    let total = tally_stream(&traces).unwrap();
    assert_eq!(total, 96_000);
    assert_eq!(resampled_len(total as usize), 32_000);
}
