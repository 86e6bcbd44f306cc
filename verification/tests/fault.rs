use subsystem_util::fault::{
    Error, Fatal, Fault, NonFatal, OpaqueCause, RuntimeError, RuntimeFatalCause,
    RuntimeNonFatalCause, SubsystemSpawnCause,
};

#[test]
fn non_fatal_round_trip_no_active_heads() {
    let n = NonFatal::NoActiveHeads;
    let e = Error::from(n);
    match e.0 {
        Fault::NonFatal(m) => assert_eq!(m, n),
        _ => panic!("a non-fatal cause must classify as Fault::NonFatal"),
    }
}

#[test]
fn non_fatal_round_trip_ask_active_disputes_canceled() {
    let n = NonFatal::AskActiveDisputesCanceled;
    let e = Error::from(n);
    match e.0 {
        Fault::NonFatal(m) => assert_eq!(m, n),
        _ => panic!("a non-fatal cause must classify as Fault::NonFatal"),
    }
}

#[test]
fn non_fatal_round_trip_runtime() {
    let n = NonFatal::Runtime(RuntimeNonFatalCause { code: 11 });
    let e = Error::from(n);
    match e.0 {
        Fault::NonFatal(m) => assert_eq!(m, n),
        _ => panic!("a non-fatal cause must classify as Fault::NonFatal"),
    }
}

#[test]
fn fatal_round_trip_spawn_task() {
    let f = Fatal::SpawnTask(SubsystemSpawnCause { code: 7 });
    let e = Error::from(f);
    match e.0 {
        Fault::Fatal(g) => assert_eq!(g, f),
        _ => panic!("a fatal cause must classify as Fault::Fatal"),
    }
}

#[test]
fn fatal_round_trip_runtime() {
    let f = Fatal::Runtime(RuntimeFatalCause { code: 3 });
    let e = Error::from(f);
    match e.0 {
        Fault::Fatal(g) => assert_eq!(g, f),
        _ => panic!("a fatal cause must classify as Fault::Fatal"),
    }
}

#[test]
fn runtime_fatal_cause_classifies_fatal_runtime() {
    let r = RuntimeFatalCause { code: 42 };
    let e = Error::from(r);
    assert!(matches!(e.0, Fault::Fatal(Fatal::Runtime(c)) if c == r));
}

#[test]
fn runtime_non_fatal_cause_classifies_non_fatal_runtime() {
    let r = RuntimeNonFatalCause { code: 42 };
    let e = Error::from(r);
    assert!(matches!(e.0, Fault::NonFatal(NonFatal::Runtime(c)) if c == r));
}

#[test]
fn runtime_cause_into_local_cause_enums() {
    let rf = RuntimeFatalCause { code: 5 };
    assert_eq!(Fatal::from(rf), Fatal::Runtime(rf));
    let rn = RuntimeNonFatalCause { code: 6 };
    assert_eq!(NonFatal::from(rn), NonFatal::Runtime(rn));
}

#[test]
fn runtime_error_lands_in_matching_variant() {
    let rf = RuntimeFatalCause { code: 1 };
    let e = Error::from(RuntimeError::Fatal(rf));
    assert!(matches!(e.0, Fault::Fatal(Fatal::Runtime(c)) if c == rf));

    let rn = RuntimeNonFatalCause { code: 2 };
    let e = Error::from(RuntimeError::NonFatal(rn));
    assert!(matches!(e.0, Fault::NonFatal(NonFatal::Runtime(c)) if c == rn));
}

#[test]
fn opaque_cause_wraps_as_other_exactly_once() {
    let o = OpaqueCause { code: 8 };
    let e = Error::from(o);
    assert!(matches!(e.0, Fault::Other(c) if c == o));
}

#[test]
fn fault_constructors_pick_the_declared_variant() {
    let f: Fault<NonFatal, Fatal> = Fault::from_non_fatal(NonFatal::NoActiveHeads);
    assert!(matches!(f, Fault::NonFatal(NonFatal::NoActiveHeads)));

    let f: Fault<NonFatal, Fatal> =
        Fault::from_fatal(Fatal::SpawnTask(SubsystemSpawnCause { code: 0 }));
    assert!(matches!(f, Fault::Fatal(Fatal::SpawnTask(c)) if c.code == 0));

    let f: Fault<NonFatal, Fatal> = Fault::from_other(OpaqueCause { code: 1 });
    assert!(matches!(f, Fault::Other(c) if c.code == 1));
}

#[test]
fn fault_predicates_identify_exactly_one_variant() {
    let n: Fault<NonFatal, Fatal> = Fault::NonFatal(NonFatal::NoActiveHeads);
    assert!(n.is_non_fatal() && !n.is_fatal() && !n.is_other());

    let f: Fault<NonFatal, Fatal> = Fault::Fatal(Fatal::Runtime(RuntimeFatalCause { code: 2 }));
    assert!(!f.is_non_fatal() && f.is_fatal() && !f.is_other());

    let o: Fault<NonFatal, Fatal> = Fault::Other(OpaqueCause { code: 3 });
    assert!(!o.is_non_fatal() && !o.is_fatal() && o.is_other());
}

#[test]
fn must_terminate_only_on_fatal_and_other() {
    assert!(!Error::from(NonFatal::NoActiveHeads).must_terminate());
    assert!(Error::from(Fatal::SpawnTask(SubsystemSpawnCause { code: 9 })).must_terminate());
    assert!(Error::from(OpaqueCause { code: 9 }).must_terminate());
}

#[test]
fn non_fatal_messages_are_exact() {
    assert_eq!(
        NonFatal::NoActiveHeads.message(),
        "No active heads available - needed for finding relevant authorities."
    );
    assert_eq!(
        NonFatal::AskActiveDisputesCanceled.message(),
        "Oneshot for asking dispute coordinator for active disputes got canceled."
    );
    assert_eq!(
        NonFatal::Runtime(RuntimeNonFatalCause { code: 1 }).message(),
        "Error while accessing runtime information"
    );
}

#[test]
fn fatal_messages_are_exact() {
    assert_eq!(
        Fatal::SpawnTask(SubsystemSpawnCause { code: 1 }).message(),
        "Spawning subsystem task failed"
    );
    assert_eq!(
        Fatal::Runtime(RuntimeFatalCause { code: 1 }).message(),
        "Error while accessing runtime information"
    );
}

#[test]
fn error_message_is_transparent() {
    let e = Error::from(NonFatal::NoActiveHeads);
    assert_eq!(e.message(), NonFatal::NoActiveHeads.message());

    let f = Fatal::SpawnTask(SubsystemSpawnCause { code: 2 });
    assert_eq!(Error::from(f).message(), f.message());

    let o = OpaqueCause { code: 3 };
    assert_eq!(
        Error::from(o).message(),
        "Unclassified error from a collaborating subsystem"
    );
}
