use rtls_ctl::range::AddressRange;
use rtls_ctl::scheduler::{Scheduler, CONCURRENCY};
use rtls_ctl::types::{GatewayDetection, GatewayType, Mac};

fn run(size: u32, limit: usize) -> (usize, Vec<u32>, Vec<GatewayDetection>) {
    let range = if size == 0 { AddressRange::new(1, 0) } else { AddressRange::new(1, size) };
    let mut s = Scheduler::new(range, limit);
    let mut peak = 0usize;
    let mut active: Vec<u32> = Vec::new();
    let mut admitted = Vec::new();
    loop {
        while let Some(a) = s.next_address() {
            active.push(a);
            admitted.push(a);
            peak = peak.max(s.in_flight());
            assert!(s.in_flight() <= limit);
        }
        if active.is_empty() {
            break;
        }
        // finish the oldest pipeline; even addresses find a gateway
        let a = active.remove(0);
        let found = if a % 2 == 0 {
            Some(GatewayDetection { ip: a, gateway: GatewayType::MG3, mac: Mac { bytes: [0; 6] } })
        } else {
            None
        };
        s.complete(found);
    }
    assert!(s.is_done());
    (peak, admitted, s.into_results())
}

#[test]
fn cap_is_never_exceeded() {
    for limit in [1usize, 2, 3, 7] {
        for size in [0u32, 1, 2, 5, 20] {
            let (peak, admitted, results) = run(size, limit);
            assert!(peak <= limit);
            assert_eq!(peak, (size as usize).min(limit));
            assert_eq!(admitted, (1..=size).collect::<Vec<u32>>());
            assert_eq!(results.len() as u32, size / 2);
        }
    }
}

#[test]
fn full_scheduler_admits_nothing_until_a_completion() {
    let mut s = Scheduler::new(AddressRange::new(10, 12), 1);
    assert_eq!(s.next_address(), Some(10));
    assert_eq!(s.next_address(), None);
    s.complete(None);
    assert_eq!(s.next_address(), Some(11));
    assert!(!s.is_done());
}

#[test]
fn default_concurrency() {
    assert_eq!(CONCURRENCY, 512);
}
