use cef::rc::{balanced_churn, churn_to_destruction, sole_reference_flips_on_retain};
use cef::rc::{DispatchObject, ReleaseOutcome};

#[test]
fn fresh_object_has_one_ref() {
    let obj = DispatchObject::new(42u32);
    assert!(obj.has_one_ref());
}

#[test]
fn add_ref_clears_has_one_ref() {
    let mut obj = DispatchObject::new(String::from("payload"));
    assert!(obj.has_one_ref());
    obj.add_ref();
    assert!(!obj.has_one_ref());
}

#[test]
fn has_one_ref_flip_for_any_value_type() {
    let (before, after) = sole_reference_flips_on_retain(7u8);
    assert!(before);
    assert!(!after);
    let (before, after) = sole_reference_flips_on_retain(vec![1i64, 2, 3]);
    assert!(before);
    assert!(!after);
    let (before, after) = sole_reference_flips_on_retain(String::from("x"));
    assert!(before);
    assert!(!after);
}

#[test]
fn balanced_add_release_preserves_object() {
    let mut obj = DispatchObject::new(String::from("kept alive"));
    let n = 50;
    for _ in 0..n {
        obj.add_ref();
    }
    for step in 0..n {
        match obj.release() {
            ReleaseOutcome::Retained(o) => obj = o,
            ReleaseOutcome::Destroyed(_) => {
                panic!("destroyed after {} of {} balanced releases", step + 1, n)
            }
        }
    }
    assert!(obj.has_one_ref());
    match obj.release() {
        ReleaseOutcome::Destroyed(v) => assert_eq!(v, "kept alive"),
        ReleaseOutcome::Retained(_) => panic!("final release did not destroy"),
    }
}

#[test]
fn balanced_churn_keeps_count_and_value() {
    let obj = DispatchObject::new(11u64);
    let obj = balanced_churn(obj, 1000);
    assert!(obj.has_one_ref());
    match obj.release() {
        ReleaseOutcome::Destroyed(v) => assert_eq!(v, 11),
        ReleaseOutcome::Retained(_) => panic!("final release did not destroy"),
    }
}

#[test]
fn extra_release_destroys_exactly_once() {
    // The wrapped value comes back exactly once, which is the drop-counter
    // reading of "freed exactly once": a second free could not hand the
    // value out again.
    let v = churn_to_destruction(String::from("destroyed once"), 1000);
    assert_eq!(v, "destroyed once");
}

#[test]
fn interleaved_churn_reaches_expected_count() {
    // A long interleaving of retains and releases; the object must stay
    // alive while the net count is positive and report a sole reference
    // exactly when the net count is one.
    let mut obj = DispatchObject::new(0u8);
    let mut net: i64 = 1;
    let mut x: u64 = 0x2545F4914F6CDD1D;
    for _ in 0..10_000 {
        x ^= x << 13;
        x ^= x >> 7;
        x ^= x << 17;
        let add = net <= 1 || x % 2 == 0;
        if add {
            obj.add_ref();
            net += 1;
        } else {
            match obj.release() {
                ReleaseOutcome::Retained(o) => obj = o,
                ReleaseOutcome::Destroyed(_) => panic!("destroyed while net count was {}", net),
            }
            net -= 1;
        }
        assert_eq!(obj.has_one_ref(), net == 1);
    }
    while net > 1 {
        match obj.release() {
            ReleaseOutcome::Retained(o) => obj = o,
            ReleaseOutcome::Destroyed(_) => panic!("destroyed while net count was {}", net),
        }
        net -= 1;
    }
    assert!(obj.has_one_ref());
    match obj.release() {
        ReleaseOutcome::Destroyed(_) => {}
        ReleaseOutcome::Retained(_) => panic!("final release did not destroy"),
    }
}

#[test]
fn interface_reads_wrapped_value() {
    let mut obj = DispatchObject::new(vec![1u32, 2, 3]);
    assert_eq!(obj.interface().len(), 3);
    obj.interface_mut().push(4);
    assert_eq!(obj.interface(), &vec![1, 2, 3, 4]);
    assert!(obj.has_one_ref());
}
