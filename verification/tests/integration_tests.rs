#[allow(unused_imports)]
use hw_monitor_alignment::hello::HelloRust;

#[test]
fn assert_world_ok() {
    let cls1 = || true;
    let cls2 = || true;
    assert_eq!(cls1(), cls2());
}
