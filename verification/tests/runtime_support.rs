use gdnative_core::api::{
    callback_panicked_message, check_api_compatibility, init_error_report, panic_message, ApiStruct,
    ApiVersion, InitError, InitReport, PanicPayload, GDNATIVE_API_TYPE_CORE,
};
use gdnative_core::init::{InitLevel, InitializeInfo, TerminateInfo};
use gdnative_core::log::Site;
use gdnative_core::object::Null;
use gdnative_core::profiler::Signature;
use gdnative_core::profiling::{add_data, profiling_add_data, ProfileSignature};
use gdnative_core::refcount::{adopt_actions, drop_action, new_reference_action, ObjectAction};
use gdnative_core::registration::{
    construct_error_message, construct_step, destroy_step, null_user_data_message, registration_actions,
    registration_step, settle_call, CallOutcome, ConstructFailure, ConstructOutcome, ConstructStep,
    RegistrationAction, RegistrationStep,
};
use gdnative_core::string::GodotString;
use gdnative_core::type_tag::TypeTags;
use gdnative_core::user_data::{
    borrow_result, lock_attempt, lock_result, thread_check, ArcData, DeadlockPolicy, DefaultLockPolicy, LocalCellError,
    LockAttempt, LockFailed, LockOptions, MapRef,
};
use std::time::Duration;

fn entry(api_type: u32, major: u32, minor: u32) -> ApiStruct {
    ApiStruct { api_type, version: ApiVersion { major, minor } }
}

#[test]
fn api_chain_accepted_with_core_major_one() {
    let chain = vec![entry(GDNATIVE_API_TYPE_CORE, 1, 2), entry(1, 3, 0), entry(GDNATIVE_API_TYPE_CORE, 1, 0)];
    assert!(check_api_compatibility(&chain).is_ok());
    assert!(check_api_compatibility(&[entry(2, 7, 0)]).is_ok());
}

#[test]
fn api_chain_refused_with_other_core_major() {
    let chain = vec![entry(1, 1, 0), entry(GDNATIVE_API_TYPE_CORE, 2, 0)];
    match check_api_compatibility(&chain) {
        Err(InitError::Generic { message }) => assert_eq!(message, "GDNative major version 1 expected"),
        _ => panic!("expected a generic error"),
    }
}

#[test]
fn init_errors_are_reported_as_c_strings() {
    let generic = InitError::Generic { message: String::from("boom") };
    match init_error_report(&generic, true, true) {
        InitReport::LoadingError { message } => assert_eq!(message, b"boom\0".to_vec()),
        _ => panic!("expected a loading error report"),
    }
    assert!(matches!(init_error_report(&generic, true, false), InitReport::Nothing));
    let mismatch = InitError::VersionMismatch {
        api_type: String::from("CORE"),
        want: ApiVersion { major: 1, minor: 2 },
        got: ApiVersion { major: 1, minor: 1 },
    };
    match init_error_report(&mismatch, true, false) {
        InitReport::VersionMismatch { api_type, want, got } => {
            assert_eq!(api_type, b"CORE\0".to_vec());
            assert_eq!(want, ApiVersion { major: 1, minor: 2 });
            assert_eq!(got, ApiVersion { major: 1, minor: 1 });
        }
        _ => panic!("expected a version mismatch report"),
    }
    assert!(matches!(init_error_report(&mismatch, false, true), InitReport::Nothing));
    let with_nul = InitError::Generic { message: String::from("a\0b") };
    assert!(matches!(init_error_report(&with_nul, true, false), InitReport::Nothing));
}

#[test]
fn panic_messages() {
    assert_eq!(panic_message(&PanicPayload::Text(String::from("oops"))), "Panic message: oops");
    assert_eq!(
        panic_message(&PanicPayload::Unknown(String::from("TypeId(0x1)"))),
        "Panic message unknown, type TypeId(0x1)"
    );
    assert_eq!(callback_panicked_message("init"), "gdnative-core: init callback panicked");
}

#[test]
fn registration_steps() {
    assert!(matches!(registration_step(&Ok(true)), RegistrationStep::Proceed));
    assert!(matches!(registration_step(&Ok(false)), RegistrationStep::Skip));
    match registration_step(&Err(String::from("name taken"))) {
        RegistrationStep::Ignore(m) => assert_eq!(m, "gdnative-core: ignoring new registration: name taken"),
        _ => panic!("expected the registration to be ignored"),
    }
}

#[test]
fn constructor_and_destructor_messages() {
    assert_eq!(
        construct_error_message("Player", "Node2D", ConstructFailure::NullOwner),
        "gdnative-core: error constructing Player: owner pointer is null"
    );
    assert_eq!(
        construct_error_message("Player", "Node2D", ConstructFailure::IncompatibleOwner),
        "gdnative-core: error constructing Player: incompatible owner type, expecting Node2D"
    );
    assert_eq!(
        construct_error_message("Player", "Node2D", ConstructFailure::Panicked),
        "gdnative-core: error constructing Player: constructor panicked"
    );
    assert_eq!(
        null_user_data_message("Player"),
        "gdnative-core: user data pointer for Player is null (did the constructor fail?)"
    );
}

#[test]
fn settled_callbacks() {
    let (v, logs) = settle_call(CallOutcome::Returned(5), 0, "Method panicked");
    assert_eq!(v, 5);
    assert!(logs.is_empty());
    let (v, logs) = settle_call(CallOutcome::Failed(String::from("Err(\"bad\")")), 0, "Method panicked");
    assert_eq!(v, 0);
    assert_eq!(logs, vec![String::from("Err(\"bad\")")]);
    let (v, logs) =
        settle_call(CallOutcome::Panicked(PanicPayload::Text(String::from("x"))), -1, "Getter panicked");
    assert_eq!(v, -1);
    assert_eq!(logs, vec![String::from("Getter panicked"), String::from("Panic message: x")]);
}

#[test]
fn lock_policies() {
    assert_eq!(lock_attempt(DeadlockPolicy::Allow), LockAttempt::Block);
    assert_eq!(lock_attempt(DeadlockPolicy::Pessimistic), LockAttempt::TryOnce);
    let d = Duration::from_millis(20);
    assert_eq!(lock_attempt(DeadlockPolicy::Timeout(d)), LockAttempt::TryFor(d));
    assert_eq!(DefaultLockPolicy::DEADLOCK_POLICY, DeadlockPolicy::Allow);
    assert_eq!(lock_result(Some(3)), Ok(3));
    assert_eq!(lock_result::<i32>(None), Err(LockFailed));
}

#[test]
fn thread_bound_access() {
    assert_eq!(thread_check(1, 1), Ok(()));
    assert_eq!(thread_check(1, 2), Err(LocalCellError::DifferentThread { original: 1, current: 2 }));
    assert_eq!(borrow_result(Some("guard")), Ok("guard"));
    assert_eq!(borrow_result::<i32>(None), Err(LocalCellError::BorrowFailed));
}

#[test]
fn arc_data_maps_shared_instance() {
    let data = ArcData::new(41);
    let other = data.share();
    assert_eq!(other.map(|v: &i32| *v + 1), Ok(42));
    assert_eq!(data.map(|v: &i32| *v), Ok(41));
}

#[test]
fn init_info_and_levels() {
    let info = InitializeInfo::new(true, GodotString::from_str("res://lib.so"), true);
    assert!(info.in_editor());
    assert_eq!(info.active_library_path().to_sys(), "res://lib.so");
    assert_eq!(info.report_loading_error("bad"), Some(b"bad\0".to_vec()));
    let silent = InitializeInfo::new(false, GodotString::new(), false);
    assert_eq!(silent.report_loading_error("bad"), None);
    assert_eq!(silent.report_loading_error("nul\0inside"), None);
    assert!(!TerminateInfo::new(false).in_editor());
    let both = InitLevel::auto().union(InitLevel::user());
    assert_eq!(both, InitLevel::all());
    assert!(both.contains(InitLevel::auto()));
    assert!(both.intersects(InitLevel::user()));
    assert!(InitLevel::auto().intersection(InitLevel::user()).is_empty());
    assert_eq!(InitLevel::from_bits(3).map(|l| l.bits()), Some(3));
    assert!(InitLevel::from_bits(4).is_none());
    assert_eq!(InitLevel::from_bits_truncate(7).bits(), 3);
    assert_eq!(InitLevel::empty().bits(), 0);
    assert_eq!(InitLevel::from_bits(InitLevel::user().bits()), Some(InitLevel::user()));
}

#[test]
fn profiler_signatures() {
    let sig = Signature::new("src/lib.rs", 42, "foo");
    assert_eq!(sig.as_bytes_with_nul(), b"src/lib.rs::42::foo\0");
    let again = Signature::from_raw_owned(sig.as_bytes_with_nul().to_vec()).unwrap();
    assert_eq!(again.borrow().as_bytes_with_nul(), b"src/lib.rs::42::foo\0");
    assert!(Signature::from_raw_owned(b"no nul".to_vec()).is_none());
    assert!(Signature::from_raw_owned(b"a\0b\0".to_vec()).is_none());
    assert!(Signature::from_raw_owned(Vec::new()).is_none());
    assert_eq!(Signature::from_bytes_with_nul_unchecked(b"f::1::t\0").as_bytes_with_nul(), b"f::1::t\0");
    let sample = add_data(
        &ProfileSignature { file: String::from("a.rs"), line: 7, tag: String::from("t") },
        1500,
    );
    assert_eq!(sample.signature, b"a.rs::7::t\0".to_vec());
    assert_eq!(sample.time_in_usec, 1500);
    assert!(profiling_add_data("x\0y", 1).is_none());
    assert_eq!(profiling_add_data("::1::f", 2).unwrap().signature, b"::1::f\0".to_vec());
}

#[test]
fn call_sites() {
    let site = Site::new(b"src/a.rs", b"ready", 12);
    assert_eq!(site.to_string(), "file src/a.rs, ready, line 12");
    assert_eq!(site.line(), 12);
    assert_eq!(site.file(), b"src/a.rs");
    assert_eq!(site.func(), b"ready");
    let lossy = Site::new(&[0x66, 0xff], b"f", 1);
    assert_eq!(lossy.to_string(), "file f\u{fffd}, f, line 1");
    assert_eq!(Site::default().to_string(), "file <unset>, <unset>, line 0");
}

#[test]
fn type_tags_check_their_own_type() {
    let mut tags = TypeTags::new();
    let a = tags.create(11);
    let b = tags.create(22);
    assert!(tags.check(a, 11));
    assert!(!tags.check(a, 22));
    assert!(tags.check(b, 22));
    tags.cleanup();
    let c = tags.create(33);
    assert_eq!(c, 0);
}

#[test]
fn null_reference() {
    let _n: Null<i32> = Null::null();
}

#[test]
fn registration_action_lists() {
    assert!(registration_actions(&Ok(false), true).is_empty());
    let refused = registration_actions(&Err(String::from("taken")), false);
    assert_eq!(refused.len(), 1);
    assert!(matches!(&refused[0], RegistrationAction::LogError(m) if m == "gdnative-core: ignoring new registration: taken"));
    let tool = registration_actions(&Ok(true), true);
    assert_eq!(tool.len(), 5);
    assert!(matches!(tool[0], RegistrationAction::RegisterToolClass));
    assert!(matches!(tool[1], RegistrationAction::SetTypeTag));
    assert!(matches!(tool[2], RegistrationAction::RegisterProperties));
    assert!(matches!(tool[3], RegistrationAction::RegisterMethods));
    assert!(matches!(tool[4], RegistrationAction::CallUserBuilder));
    assert!(matches!(registration_actions(&Ok(true), false)[0], RegistrationAction::RegisterClass));
}

#[test]
fn constructor_and_destructor_steps() {
    match construct_step::<i32>("P", "Node", true, false, ConstructOutcome::Pending) {
        ConstructStep::Fail(logs) => assert_eq!(logs, vec![String::from("gdnative-core: error constructing P: owner pointer is null")]),
        _ => panic!("expected a failure"),
    }
    match construct_step::<i32>("P", "Node", false, false, ConstructOutcome::Made(1)) {
        ConstructStep::Fail(logs) => assert_eq!(
            logs,
            vec![String::from("gdnative-core: error constructing P: incompatible owner type, expecting Node")]
        ),
        _ => panic!("expected a failure"),
    }
    assert!(matches!(construct_step::<i32>("P", "Node", false, true, ConstructOutcome::Pending), ConstructStep::RunConstructor));
    assert!(matches!(construct_step("P", "Node", false, true, ConstructOutcome::Made(7)), ConstructStep::Wrap(7)));
    match construct_step::<i32>("P", "Node", false, true, ConstructOutcome::Panicked(PanicPayload::Text(String::from("x")))) {
        ConstructStep::Fail(logs) => assert_eq!(
            logs,
            vec![
                String::from("gdnative-core: error constructing P: constructor panicked"),
                String::from("Panic message: x"),
            ]
        ),
        _ => panic!("expected a failure"),
    }
    assert_eq!(
        destroy_step("P", true),
        Some(String::from("gdnative-core: user data pointer for P is null (did the constructor fail?)"))
    );
    assert_eq!(destroy_step("P", false), None);
}

#[test]
fn reference_count_decisions() {
    assert_eq!(adopt_actions(true, true, true), vec![ObjectAction::InitRefCount, ObjectAction::Keep]);
    assert_eq!(adopt_actions(true, true, false), vec![ObjectAction::InitRefCount, ObjectAction::Release]);
    assert_eq!(adopt_actions(false, true, true), vec![ObjectAction::InitRefCount, ObjectAction::Release]);
    assert_eq!(adopt_actions(false, false, true), vec![ObjectAction::Keep]);
    assert_eq!(adopt_actions(false, false, false), vec![ObjectAction::Free]);
    assert_eq!(adopt_actions(true, false, true), vec![ObjectAction::Free]);
    assert_eq!(new_reference_action(true, true), Some(ObjectAction::InitRefCount));
    assert_eq!(new_reference_action(true, false), Some(ObjectAction::AddRef));
    assert_eq!(new_reference_action(false, true), None);
    assert_eq!(drop_action(true), Some(ObjectAction::Release));
    assert_eq!(drop_action(false), None);
}

#[test]
fn profiler_data_points() {
    let sig = Signature::new("a.rs", 3, "f");
    let sample = gdnative_core::profiler::add_data(&sig, true, 1234).unwrap();
    assert_eq!(sample.signature, b"a.rs::3::f\0".to_vec());
    assert_eq!(sample.time_in_usec, 1234);
    assert!(sig.add_data(false, u128::MAX).is_none());
    assert_eq!(sig.add_data(true, 9).unwrap().time_in_usec, 9);
}
