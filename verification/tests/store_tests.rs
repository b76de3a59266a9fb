use scd40_monitor::reading::Reading;
use scd40_monitor::store::run_ops;
use scd40_monitor::store::SharedReading;
use scd40_monitor::store::StoreOp;

#[test]
fn store_starts_at_sentinel() {
    let s = SharedReading::new();
    assert_eq!(s.read(), Reading::sentinel());
    assert_eq!(s.read().co2_ppm, 0);
    assert_eq!(s.read().temperature_centi, 0);
    assert_eq!(s.read().humidity_centi, 0);
}

#[test]
fn store_write_replaces_wholesale() {
    let mut s = SharedReading::new();
    let r1 = Reading::new(600, 2000, 4500);
    s.write(r1);
    assert_eq!(s.read(), r1);
    let r2 = Reading::new(815, 2140, 4600);
    s.write(r2);
    assert_eq!(s.read(), r2);
}

#[test]
fn interleaved_reads_return_completed_writes() {
    let mut s = SharedReading::new();
    let r1 = Reading::new(700, 1900, 4000);
    let r2 = Reading::new(815, 2140, 4600);
    let ops = vec![
        StoreOp::Read,
        StoreOp::Write(r1),
        StoreOp::Read,
        StoreOp::Read,
        StoreOp::Write(r2),
        StoreOp::Read,
    ];
    let reads = run_ops(&mut s, &ops);
    assert_eq!(reads, vec![Reading::sentinel(), r1, r1, r2]);
    assert_eq!(s.read(), r2);
}

#[test]
fn reads_before_any_write_see_sentinel() {
    let mut s = SharedReading::new();
    let ops = vec![StoreOp::Read, StoreOp::Read];
    let reads = run_ops(&mut s, &ops);
    assert_eq!(reads, vec![Reading::sentinel(), Reading::sentinel()]);
}
