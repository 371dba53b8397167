use agno_desktop::environment::{resolve, ConfigurationError, EnvironmentDescriptor, EnvironmentProbe};

#[test]
fn dev_mode_with_variable_gives_venv() {
    let r = resolve(EnvironmentProbe::Development { venv: Ok("/home/me/.venv".to_string()) });
    match r {
        Ok(EnvironmentDescriptor::DevVenv(p)) => assert_eq!(p, "/home/me/.venv"),
        _ => panic!("expected a virtual environment"),
    }
}

#[test]
fn dev_mode_without_variable_names_it() {
    let r = resolve(EnvironmentProbe::Development {
        venv: Err("environment variable not found".to_string()),
    });
    match r {
        Err(e) => {
            assert!(matches!(e, ConfigurationError::MissingVariable { .. }));
            let m = e.message();
            assert!(m.contains("VIRTUAL_ENV"));
            assert_eq!(
                m,
                "The app is running in tauri dev mode, please activate the python virtual \
                 environment first or set the `VIRTUAL_ENV` environment variable: \
                 environment variable not found"
            );
        }
        Ok(_) => panic!("expected a configuration error"),
    }
}

#[test]
fn standalone_keeps_plain_path() {
    let r = resolve(EnvironmentProbe::Standalone { resource_dir: Ok("/opt/app/lib/resources".to_string()) });
    match r {
        Ok(EnvironmentDescriptor::StandaloneBundle(p)) => assert_eq!(p, "/opt/app/lib/resources"),
        _ => panic!("expected a bundle"),
    }
}

#[test]
fn standalone_simplifies_verbatim_path() {
    let r = resolve(EnvironmentProbe::Standalone {
        resource_dir: Ok("\\\\?\\C:\\Program Files\\app".to_string()),
    });
    match r {
        Ok(EnvironmentDescriptor::StandaloneBundle(p)) => {
            assert!(p == "\\\\?\\C:\\Program Files\\app" || p == "C:\\Program Files\\app")
        }
        _ => panic!("expected a bundle"),
    }
}

#[test]
fn standalone_without_resource_dir_fails() {
    let r = resolve(EnvironmentProbe::Standalone { resource_dir: Err("unknown path".to_string()) });
    match r {
        Err(e) => {
            assert!(matches!(e, ConfigurationError::ResourceDirUnavailable { .. }));
            assert_eq!(e.message(), "failed to get resource dir: unknown path");
        }
        Ok(_) => panic!("expected a configuration error"),
    }
}

#[test]
fn variable_name_is_fixed() {
    assert_eq!(agno_desktop::environment::venv_variable_name(), "VIRTUAL_ENV");
}
