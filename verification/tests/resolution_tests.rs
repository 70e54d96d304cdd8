use fho::env::{ConfigEntry, EnvironmentContext, Ffx, FhoEnvironment};
use fho::errors::FhoError;
use fho::resolution::{AvailabilityFlag, BuildVersion, CheckEnv, TargetName, TryFromEnv};

fn env_with(flags: &[(&str, bool)], target: Option<&str>) -> FhoEnvironment {
    let mut entries = Vec::new();
    for (k, v) in flags {
        entries.push(ConfigEntry { key: k.to_string(), value: *v });
    }
    FhoEnvironment {
        ffx: Ffx { command_path: vec!["ffx".to_string()] },
        context: EnvironmentContext {
            flags: entries,
            cache_path: "/cache".to_string(),
            build_version: "build-2026".to_string(),
            default_target: target.map(|t| t.to_string()),
        },
    }
}

#[test]
fn option_field_absorbs_inner_failure() {
    let env = env_with(&[], None);
    let r = <Option<TargetName> as TryFromEnv>::try_from_env(&env);
    match r {
        Ok(None) => {},
        _ => panic!("an Option field must absorb the inner failure, not propagate it"),
    }
}

#[test]
fn option_field_carries_inner_success() {
    let env = env_with(&[], Some("emulator-1"));
    let r = <Option<TargetName> as TryFromEnv>::try_from_env(&env);
    match r {
        Ok(Some(t)) => assert_eq!(t.0, "emulator-1"),
        _ => panic!("an Option field must carry the inner success"),
    }
}

#[test]
fn result_field_never_fails_itself() {
    let env = env_with(&[], None);
    let r = <Result<TargetName, FhoError> as TryFromEnv>::try_from_env(&env);
    match r {
        Ok(Err(FhoError::NoDefaultTarget)) => {},
        _ => panic!("a Result field must succeed and carry the inner error as its value"),
    }
    let env2 = env_with(&[], Some("emulator-1"));
    let r2 = <Result<TargetName, FhoError> as TryFromEnv>::try_from_env(&env2);
    match r2 {
        Ok(Ok(t)) => assert_eq!(t.0, "emulator-1"),
        _ => panic!("a Result field must succeed and carry the inner success as its value"),
    }
}

#[test]
fn boxed_and_shared_owner_fields_resolve_by_wrapping() {
    let env = env_with(&[], None);
    let boxed = <Box<BuildVersion> as TryFromEnv>::try_from_env(&env).expect("box");
    assert_eq!(boxed.0, "build-2026");
    let rc = <std::rc::Rc<BuildVersion> as TryFromEnv>::try_from_env(&env).expect("rc");
    assert_eq!(rc.0, "build-2026");
    let arc = <std::sync::Arc<BuildVersion> as TryFromEnv>::try_from_env(&env).expect("arc");
    assert_eq!(arc.0, "build-2026");
}

#[test]
fn availability_flag_set_true_passes() {
    let env = env_with(&[("fake.experimental", true)], None);
    let r = AvailabilityFlag("fake.experimental".to_string()).check_env(&env);
    assert!(r.is_ok());
}

#[test]
fn availability_flag_set_false_fails() {
    let env = env_with(&[("fake.experimental", false)], None);
    let r = AvailabilityFlag("fake.experimental".to_string()).check_env(&env);
    assert!(r.is_err());
}

#[test]
fn availability_flag_unset_fails_with_actionable_message() {
    let env = env_with(&[("unrelated", true)], None);
    let r = AvailabilityFlag("fake.experimental".to_string()).check_env(&env);
    match r {
        Err(e) => {
            let msg = e.message();
            assert!(msg.contains("fake.experimental"));
            assert!(msg.contains("ffx config set"));
            assert_eq!(
                msg,
                "This is an experimental subcommand.  To enable this subcommand run 'ffx config set fake.experimental true'"
            );
        },
        Ok(_) => panic!("an unset flag must fail the check"),
    }
}

#[test]
fn flag_lookup_takes_the_first_match() {
    let env = env_with(&[("k", true), ("k", false)], None);
    assert_eq!(env.context.get_flag("k"), Some(true));
    assert_eq!(env.context.get_flag("missing"), None);
}
